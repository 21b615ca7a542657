//! Host layer for tick-based grid games shown in a shared window shell: the
//! grid buffer that every game paints into, packed colours, the mapping of
//! host keys and pointer state into a game-neutral input vocabulary, the
//! scaling of a grid onto a canvas, and the lifecycle of a game's window.

pub mod colour;
pub mod keys;
pub mod grid;
pub mod render;
pub mod input;
pub mod window;
pub mod tick;
pub mod snake;
pub mod seed;
