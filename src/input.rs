//! One frame's input as games see it: logical keys held, newly pressed and
//! newly released, and the grid cell that the pointer interacted with.
//!
//! The host hands over which bound keys are held now and which were held on the
//! previous frame; press and release edges are derived by comparing the two.

use vstd::prelude::*;
use crate::keys::{HostKey, KEY_COUNT, LogicalKey, host_key, host_key_of, key_at, key_table};
use crate::render::{CellSize, pointer_cell, pointer_cell_of};

verus! {

/// A pointer button as games name it. `Discard` stands for no button: it is
/// never down and never reports a position.
#[derive(Clone, Copy, Debug, PartialEq, Eq, Structural)]
pub enum PointerButton {
    Left,
    Right,
    Discard,
}

/// The state of one pointer button on this frame.
#[derive(Clone, Copy, Debug, PartialEq, Eq, Structural)]
pub struct ButtonState {
    /// The button is held.
    pub down: bool,
    /// The button went down on this frame.
    pub pressed: bool,
}

/// A pointer position in whole pixels from the canvas origin.
#[derive(Clone, Copy, Debug, PartialEq, Eq, Structural)]
pub struct PointerPos {
    pub x: u32,
    pub y: u32,
}

/// One frame's input, built fresh by the host on every frame.
pub struct InputWrapper {
    /// The bound host keys held on this frame.
    pub held: Vec<HostKey>,
    /// The bound host keys held on the previous frame.
    pub held_before: Vec<HostKey>,
    /// Where the pointer last interacted, if anywhere.
    pub pointer: Option<PointerPos>,
    pub left: ButtonState,
    pub right: ButtonState,
    /// The cell size of the most recent paint; none before the first one.
    pub cell_size: Option<CellSize>,
}

/// Whether `h` is among `v`.
fn holds_key(v: &Vec<HostKey>, h: HostKey) -> (r: bool)
    ensures
        r == v@.contains(h),
{
    let mut i: usize = 0;
    while i < v.len()
        invariant
            i <= v@.len(),
            forall|j: int| 0 <= j < i ==> v@[j] != h,
        decreases v@.len() - i,
    {
        if v[i] == h {
            assert(v@[i as int] == h);
            return true;
        }
        i = i + 1;
    }
    false
}

impl InputWrapper {
    /// `k` is held on this frame.
    pub open spec fn key_down(&self, k: LogicalKey) -> bool {
        self.held@.contains(host_key_of(k))
    }

    /// `k` went down on this frame: held now, not held before.
    pub open spec fn key_pressed(&self, k: LogicalKey) -> bool {
        self.held@.contains(host_key_of(k)) && !self.held_before@.contains(host_key_of(k))
    }

    /// `k` was let go on this frame: held before, not held now.
    pub open spec fn key_released(&self, k: LogicalKey) -> bool {
        self.held_before@.contains(host_key_of(k)) && !self.held@.contains(host_key_of(k))
    }

    /// The keys released on this frame, in the order of the binding table.
    pub open spec fn keys_released(&self) -> Seq<LogicalKey> {
        key_table().filter(|k: LogicalKey| self.key_released(k))
    }

    /// The state of button `b`.
    pub open spec fn button(&self, b: PointerButton) -> ButtonState {
        match b {
            PointerButton::Left => self.left,
            PointerButton::Right => self.right,
            PointerButton::Discard => ButtonState { down: false, pressed: false },
        }
    }

    /// The grid cell `(column, row)` that button `b` interacted with on this
    /// frame: known only once a cell size is, and only on the frame on which
    /// `b` went down.
    pub open spec fn mouse_cell(&self, b: PointerButton) -> Option<(u128, u128)> {
        match (self.cell_size, self.pointer) {
            (Some(c), Some(p)) => {
                if self.button(b).pressed && c.num != 0 {
                    Some((pointer_cell_of(p.x, c).unwrap(), pointer_cell_of(p.y, c).unwrap()))
                } else {
                    None
                }
            },
            _ => None,
        }
    }

    /// The host window is always open while a game runs inside it.
    pub fn is_open(&self) -> (r: bool)
        ensures
            r,
    {
        true
    }

    /// Whether logical key `key` is held.
    pub fn is_key_down(&self, key: LogicalKey) -> (r: bool)
        ensures
            r == self.key_down(key),
    {
        holds_key(&self.held, host_key(key))
    }

    /// Whether logical key `key` went down on this frame.
    pub fn is_key_pressed(&self, key: LogicalKey) -> (r: bool)
        ensures
            r == self.key_pressed(key),
    {
        let h = host_key(key);
        holds_key(&self.held, h) && !holds_key(&self.held_before, h)
    }

    /// The logical keys let go on this frame, in the order of the binding
    /// table.
    pub fn get_keys_released(&self) -> (r: Vec<LogicalKey>)
        ensures
            r@ == self.keys_released(),
    {
        let ghost pred = |k: LogicalKey| self.key_released(k);
        let mut r: Vec<LogicalKey> = Vec::new();
        let mut i: usize = 0;
        while i < KEY_COUNT
            invariant
                i <= KEY_COUNT,
                key_table().len() == KEY_COUNT,
                pred == (|k: LogicalKey| self.key_released(k)),
                r@ == key_table().take(i as int).filter(pred),
            decreases KEY_COUNT - i,
        {
            let k = key_at(i);
            let h = host_key(k);
            let released = holds_key(&self.held_before, h) && !holds_key(&self.held, h);
            proof {
                let next = key_table().take(i + 1);
                assert(next.drop_last() =~= key_table().take(i as int));
                assert(next.last() == k);
                reveal(Seq::filter);
            }
            if released {
                r.push(k);
            }
            i = i + 1;
        }
        assert(key_table().take(KEY_COUNT as int) =~= key_table());
        r
    }

    /// The grid cell `(column, row)` under the pointer if button `mouse` went
    /// down on this frame and a cell size is known; none otherwise.
    pub fn get_mouse_pos(&self, mouse: PointerButton) -> (r: Option<(u128, u128)>)
        ensures
            r == self.mouse_cell(mouse),
    {
        let pressed = match mouse {
            PointerButton::Left => self.left.pressed,
            PointerButton::Right => self.right.pressed,
            PointerButton::Discard => false,
        };
        match (self.cell_size, self.pointer) {
            (Some(c), Some(p)) => {
                if pressed && c.num != 0 {
                    match (pointer_cell(p.x, c), pointer_cell(p.y, c)) {
                        (Some(cx), Some(cy)) => Some((cx, cy)),
                        _ => None,
                    }
                } else {
                    None
                }
            },
            _ => None,
        }
    }

    /// Whether button `mouse` is held, whatever the cell size.
    pub fn get_mouse_down(&self, mouse: PointerButton) -> (r: bool)
        ensures
            r == self.button(mouse).down,
    {
        match mouse {
            PointerButton::Left => self.left.down,
            PointerButton::Right => self.right.down,
            PointerButton::Discard => false,
        }
    }
}

} // verus!
