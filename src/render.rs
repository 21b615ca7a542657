//! Scaling a grid buffer onto a canvas.
//!
//! Lengths on the canvas are exact fractions: a cell size is `num / den`
//! pixels, so that it is exactly the smaller of `available_width / width` and
//! `available_height / height`, and scales exactly with the available area.

use vstd::prelude::*;
use crate::colour::{channels_of, unpack_colour};
use crate::grid::GridBuffer;

verus! {

/// The size, in whole pixels, of the area available for drawing.
#[derive(Clone, Copy, Debug, PartialEq, Eq, Structural)]
pub struct Area {
    pub width: u32,
    pub height: u32,
}

/// The edge length of one grid cell on the canvas: `num / den` pixels.
#[derive(Clone, Copy, Debug, PartialEq, Eq, Structural)]
pub struct CellSize {
    pub num: u32,
    pub den: u64,
}

impl CellSize {
    /// A cell size is a fraction with a positive denominator.
    pub open spec fn wf(self) -> bool {
        self.den > 0
    }
}

/// The cell size used for a grid with no columns or no rows, where there is
/// nothing to draw: one pixel.
pub open spec fn empty_grid_cell() -> CellSize {
    CellSize { num: 1, den: 1 }
}

/// The cell size for a `w` × `h` grid on `area`: the smaller of
/// `area.width / w` and `area.height / h`, the first on a tie.
pub open spec fn cell_size_of(area: Area, w: nat, h: nat) -> CellSize {
    if w == 0 || h == 0 {
        empty_grid_cell()
    } else if area.width * h <= area.height * w {
        CellSize { num: area.width, den: w as u64 }
    } else {
        CellSize { num: area.height, den: h as u64 }
    }
}

/// `a / b == c / d` for fractions with positive denominators.
pub open spec fn same_ratio(a: int, b: int, c: int, d: int) -> bool {
    a * d == c * b
}

/// `a / b <= c / d` for fractions with positive denominators.
pub open spec fn ratio_le(a: int, b: int, c: int, d: int) -> bool {
    a * d <= c * b
}

/// Computes the cell size for a `width` × `height` grid on `area`.
pub fn cell_size(area: Area, width: usize, height: usize) -> (r: CellSize)
    requires
        width <= u64::MAX,
        height <= u64::MAX,
    ensures
        r == cell_size_of(area, width as nat, height as nat),
        r.wf(),
{
    proof {
        lemma_product_fits(area.width as int, height as int);
        lemma_product_fits(area.height as int, width as int);
    }
    if width == 0 || height == 0 {
        CellSize { num: 1, den: 1 }
    } else if (area.width as u128) * (height as u128) <= (area.height as u128) * (width as u128) {
        CellSize { num: area.width, den: width as u64 }
    } else {
        CellSize { num: area.height, den: height as u64 }
    }
}

/// The cell size of a non-empty grid is the smaller of the two ratios of
/// available length to cell count.
pub proof fn lemma_cell_size_is_min(area: Area, w: nat, h: nat)
    requires
        1 <= w <= u64::MAX,
        1 <= h <= u64::MAX,
    ensures
        ({
            let c = cell_size_of(area, w, h);
            &&& ratio_le(c.num as int, c.den as int, area.width as int, w as int)
            &&& ratio_le(c.num as int, c.den as int, area.height as int, h as int)
            &&& (same_ratio(c.num as int, c.den as int, area.width as int, w as int)
                || same_ratio(c.num as int, c.den as int, area.height as int, h as int))
        }),
{
}

/// Scaling the available area by a positive factor `p / q` scales the cell
/// size of a non-empty grid by the same factor.
pub proof fn lemma_cell_size_scales(area: Area, scaled: Area, p: nat, q: nat, w: nat, h: nat)
    requires
        1 <= w <= u64::MAX,
        1 <= h <= u64::MAX,
        p >= 1,
        q >= 1,
        scaled.width * q == p * area.width,
        scaled.height * q == p * area.height,
    ensures
        ({
            let c = cell_size_of(area, w, h);
            let s = cell_size_of(scaled, w, h);
            s.num * c.den * q == p * c.num * s.den
        }),
{
    let aw = area.width as int;
    let ah = area.height as int;
    let sw = scaled.width as int;
    let sh = scaled.height as int;
    let wi = w as int;
    let hi = h as int;
    let pi = p as int;
    let qi = q as int;
    assert((aw * hi <= ah * wi) <==> (sw * hi <= sh * wi)) by (nonlinear_arith)
        requires
            sw * qi == pi * aw,
            sh * qi == pi * ah,
            pi >= 1,
            qi >= 1,
    ;
    assert(sw * wi * qi == pi * aw * wi) by (nonlinear_arith)
        requires
            sw * qi == pi * aw,
    ;
    assert(sh * hi * qi == pi * ah * hi) by (nonlinear_arith)
        requires
            sh * qi == pi * ah,
    ;
}

/// The filled rectangle that paints one grid cell. Its corners are
/// `(left / den, top / den)` and `(right / den, bottom / den)` in pixels from
/// the canvas origin; `channels` is the cell's colour as stored, red first.
#[derive(Clone, Copy, Debug, PartialEq, Eq)]
pub struct PaintRect {
    pub left: u128,
    pub top: u128,
    pub right: u128,
    pub bottom: u128,
    pub den: u64,
    pub channels: [u8; 4],
}

/// Whether `r` paints the cell at column `x`, row `y` with `colour`, at cell
/// size `c`: from `(x * c, y * c)` to `((x + 1) * c, (y + 1) * c)`.
pub open spec fn paints_cell(r: PaintRect, x: int, y: int, c: CellSize, colour: u32) -> bool {
    &&& r.left == x * c.num
    &&& r.top == y * c.num
    &&& r.right == (x + 1) * c.num
    &&& r.bottom == (y + 1) * c.num
    &&& r.den == c.den
    &&& r.channels@ == channels_of(colour)
}

/// Everything needed to paint a grid buffer: the cell size, the extent of the
/// scrollable viewport (`extent_width / cell.den` by `extent_height /
/// cell.den` pixels), and one rectangle per cell, column by column.
pub struct RenderPlan {
    pub cell: CellSize,
    pub extent_width: u128,
    pub extent_height: u128,
    pub columns: Vec<Vec<PaintRect>>,
}

/// Lays out `window` on `area`: the cell size of the grid on that area, a
/// viewport as large as the whole grid at that size, and a rectangle for
/// every cell in its stored colour. A grid with no columns or no rows draws
/// nothing.
pub fn draw_window_buffer(area: Area, window: &GridBuffer) -> (r: RenderPlan)
    ensures
        r.cell == cell_size_of(area, window@.width, window@.height),
        r.cell.wf(),
        r.extent_width == window@.width * r.cell.num,
        r.extent_height == window@.height * r.cell.num,
        r.columns@.len() == window@.width,
        forall|x: int|
            0 <= x < window@.width ==> (#[trigger] r.columns@[x])@.len() == window@.height,
        forall|x: int, y: int|
            window@.in_bounds(x, y) ==> paints_cell(
                #[trigger] r.columns@[x]@[y],
                x,
                y,
                r.cell,
                window@.at(x, y),
            ),
{
    let width = window.width();
    let height = window.height();
    let cell = cell_size(area, width, height);
    let n = cell.num as u128;
    let mut columns: Vec<Vec<PaintRect>> = Vec::new();
    let mut x: usize = 0;
    while x < width
        invariant
            width == window@.width,
            height == window@.height,
            n == cell.num,
            x <= width,
            columns@.len() == x,
            forall|i: int| 0 <= i < x ==> (#[trigger] columns@[i])@.len() == height,
            forall|i: int, j: int|
                0 <= i < x && 0 <= j < height ==> paints_cell(
                    #[trigger] columns@[i]@[j],
                    i,
                    j,
                    cell,
                    window@.at(i, j),
                ),
        decreases width - x,
    {
        let mut column: Vec<PaintRect> = Vec::new();
        let mut y: usize = 0;
        while y < height
            invariant
                width == window@.width,
                height == window@.height,
                n == cell.num,
                x < width,
                y <= height,
                column@.len() == y,
                forall|j: int|
                    0 <= j < y ==> paints_cell(
                        #[trigger] column@[j],
                        x as int,
                        j,
                        cell,
                        window@.at(x as int, j),
                    ),
            decreases height - y,
        {
            let colour = window.get(x, y);
            let xs = x as u128;
            let ys = y as u128;
            proof {
                lemma_scaled_fits(xs as int, n as int);
                lemma_scaled_fits(ys as int, n as int);
            }
            let rect = PaintRect {
                left: xs * n,
                top: ys * n,
                right: (xs + 1) * n,
                bottom: (ys + 1) * n,
                den: cell.den,
                channels: unpack_colour(colour),
            };
            column.push(rect);
            y = y + 1;
        }
        columns.push(column);
        x = x + 1;
    }
    let ws = width as u128;
    let hs = height as u128;
    proof {
        lemma_scaled_fits(ws as int - 1, n as int);
        lemma_scaled_fits(hs as int - 1, n as int);
    }
    RenderPlan { cell, extent_width: ws * n, extent_height: hs * n, columns }
}

/// A count below 2^64 times a length below 2^32 fits in 128 bits, and so
/// does the next count's.
proof fn lemma_scaled_fits(k: int, n: int)
    requires
        -1 <= k < 0x1_0000_0000_0000_0000,
        0 <= n < 0x1_0000_0000,
    ensures
        0 <= (k + 1) * n <= 0x1_0000_0000_0000_0000 * 0x1_0000_0000,
        k >= 0 ==> 0 <= k * n <= (k + 1) * n,
{
    assert(0 <= (k + 1) * n <= 0x1_0000_0000_0000_0000 * 0x1_0000_0000) by (nonlinear_arith)
        requires
            -1 <= k < 0x1_0000_0000_0000_0000,
            0 <= n < 0x1_0000_0000,
    ;
    assert(k >= 0 ==> 0 <= k * n <= (k + 1) * n) by (nonlinear_arith)
        requires
            0 <= n,
    ;
}

/// A length below 2^32 times a count below 2^64 fits in 128 bits.
proof fn lemma_product_fits(a: int, b: int)
    requires
        0 <= a < 0x1_0000_0000,
        0 <= b < 0x1_0000_0000_0000_0000,
    ensures
        0 <= a * b < 0x1_0000_0000 * 0x1_0000_0000_0000_0000,
{
    assert(0 <= a * b < 0x1_0000_0000 * 0x1_0000_0000_0000_0000) by (nonlinear_arith)
        requires
            0 <= a < 0x1_0000_0000,
            0 <= b < 0x1_0000_0000_0000_0000,
    ;
}

/// The grid cell, along one axis, under pointer pixel `p` at cell size `c`:
/// `floor(p / c)`. There is none while the cell size is zero.
pub open spec fn pointer_cell_of(p: u32, c: CellSize) -> Option<u128> {
    if c.num == 0 {
        None
    } else {
        Some(((p * c.den) / (c.num as int)) as u128)
    }
}

/// Converts a pointer pixel coordinate to a grid cell coordinate.
pub fn pointer_cell(p: u32, c: CellSize) -> (r: Option<u128>)
    ensures
        r == pointer_cell_of(p, c),
{
    if c.num == 0 {
        None
    } else {
        proof {
            lemma_product_fits(p as int, c.den as int);
        }
        let scaled = (p as u128) * (c.den as u128);
        Some(scaled / (c.num as u128))
    }
}

} // verus!
