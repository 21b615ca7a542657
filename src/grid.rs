//! The grid buffer: a width × height array of packed colours that a game
//! paints into and the host reads from.

use vstd::prelude::*;
use crate::render::Area;

verus! {

/// What a grid buffer holds: its dimensions, and its cells row by row, the
/// cell at column `x` and row `y` standing at `y * width + x`.
pub struct GridModel {
    pub width: nat,
    pub height: nat,
    pub cells: Seq<u32>,
}

impl GridModel {
    /// The colour of the cell at column `x`, row `y`.
    pub open spec fn at(self, x: int, y: int) -> u32 {
        self.cells[y * self.width + x]
    }

    /// Whether `(x, y)` lies inside the grid.
    pub open spec fn in_bounds(self, x: int, y: int) -> bool {
        0 <= x < self.width && 0 <= y < self.height
    }

    /// Whether every cell holds the colour 0, as a freshly made buffer does.
    pub open spec fn is_blank(self) -> bool {
        &&& self.cells.len() == self.width * self.height
        &&& forall|i: int| 0 <= i < self.cells.len() ==> #[trigger] self.cells[i] == 0
    }
}

/// The edge length, in pixels, that a game's cells are given when it sizes its
/// grid to the drawing area.
pub const REFERENCE_CELL: u32 = 30;

/// The grid dimensions that fit `area` at the reference cell size.
pub open spec fn dimensions_for(area: Area) -> (nat, nat) {
    ((area.width / REFERENCE_CELL) as nat, (area.height / REFERENCE_CELL) as nat)
}

/// The grid dimensions `(width, height)` that fit `area` at the reference cell
/// size.
pub fn grid_dimensions(area: Area) -> (r: (usize, usize))
    ensures
        (r.0 as nat, r.1 as nat) == dimensions_for(area),
{
    ((area.width / REFERENCE_CELL) as usize, (area.height / REFERENCE_CELL) as usize)
}

/// A grid of packed colours with its width and height.
pub struct GridBuffer {
    width: usize,
    height: usize,
    cells: Vec<u32>,
}

impl View for GridBuffer {
    type V = GridModel;

    closed spec fn view(&self) -> GridModel {
        GridModel { width: self.width as nat, height: self.height as nat, cells: self.cells@ }
    }
}

impl GridBuffer {
    #[verifier::type_invariant]
    spec fn inv(&self) -> bool {
        self.cells@.len() == self.width * self.height
    }

    /// A `width` × `height` buffer with every cell at colour 0.
    pub fn new(width: usize, height: usize) -> (r: GridBuffer)
        requires
            width * height <= usize::MAX,
        ensures
            r@.width == width,
            r@.height == height,
            r@.is_blank(),
    {
        let n: usize = width * height;
        let mut cells: Vec<u32> = Vec::new();
        while cells.len() < n
            invariant
                cells@.len() <= n,
                forall|i: int| 0 <= i < cells@.len() ==> #[trigger] cells@[i] == 0,
            decreases n - cells@.len(),
        {
            cells.push(0);
        }
        GridBuffer { width, height, cells }
    }

    /// Replaces the buffer by a blank one sized to `area` at the reference
    /// cell size. Nothing of the old contents is kept.
    pub fn resize(&mut self, area: Area)
        requires
            (area.width / REFERENCE_CELL) * (area.height / REFERENCE_CELL) <= usize::MAX,
        ensures
            (final(self)@.width, final(self)@.height) == dimensions_for(area),
            final(self)@.is_blank(),
    {
        let (width, height) = grid_dimensions(area);
        *self = GridBuffer::new(width, height);
    }

    /// The number of columns.
    pub fn width(&self) -> (r: usize)
        ensures
            r == self@.width,
    {
        self.width
    }

    /// The number of rows.
    pub fn height(&self) -> (r: usize)
        ensures
            r == self@.height,
    {
        self.height
    }

    /// The colour of the cell at column `x`, row `y`.
    pub fn get(&self, x: usize, y: usize) -> (r: u32)
        requires
            self@.in_bounds(x as int, y as int),
        ensures
            r == self@.at(x as int, y as int),
    {
        let count = self.cells.len();
        proof {
            use_type_invariant(self);
            lemma_cell_index(x as int, y as int, self.width as int, self.height as int);
            assert(y * self.width + x < count);
        }
        self.cells[y * self.width + x]
    }

    /// Paints the cell at column `x`, row `y` with `colour`; no other cell
    /// changes.
    pub fn set(&mut self, x: usize, y: usize, colour: u32)
        requires
            old(self)@.in_bounds(x as int, y as int),
        ensures
            final(self)@.width == old(self)@.width,
            final(self)@.height == old(self)@.height,
            final(self)@.cells == old(self)@.cells.update(
                y * old(self)@.width + x,
                colour,
            ),
    {
        let count = self.cells.len();
        proof {
            use_type_invariant(&*self);
            lemma_cell_index(x as int, y as int, self.width as int, self.height as int);
            assert(y * self.width + x < count);
        }
        let i = y * self.width + x;
        let mut taken = GridBuffer { width: 0, height: 0, cells: Vec::new() };
        std::mem::swap(self, &mut taken);
        let GridBuffer { width, height, mut cells } = taken;
        cells.set(i, colour);
        *self = GridBuffer { width, height, cells };
    }
}

/// The cell at `(x, y)` of a `w` × `h` grid stands inside its `w * h` cells.
proof fn lemma_cell_index(x: int, y: int, w: int, h: int)
    requires
        0 <= x < w,
        0 <= y < h,
    ensures
        0 <= y * w + x < w * h,
{
    assert(y * w + x < w * h) by (nonlinear_arith)
        requires
            0 <= x < w,
            0 <= y < h,
    ;
    assert(0 <= y * w) by (nonlinear_arith)
        requires
            0 <= y,
            0 <= w,
    ;
}

} // verus!
