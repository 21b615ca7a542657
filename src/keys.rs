//! Logical keys, the game-neutral input symbols, and the fixed table that binds
//! each of them to exactly one host key.

use vstd::prelude::*;

verus! {

/// An input symbol as games see it.
#[derive(Clone, Copy, Debug, PartialEq, Eq, Structural)]
pub enum LogicalKey {
    Up,
    Down,
    Left,
    Right,
    Escape,
    Quit,
    Space,
    UpPlayer1,
    DownPlayer1,
    UpPlayer2,
    DownPlayer2,
    LeftPlayer2,
    RightPlayer2,
    Launch,
    Forward,
    Backward,
    Save,
}

/// The host keys that the binding table uses.
#[derive(Clone, Copy, Debug, PartialEq, Eq, Structural)]
pub enum HostKey {
    ArrowUp,
    ArrowDown,
    ArrowLeft,
    ArrowRight,
    Escape,
    Delete,
    Space,
    E,
    D,
    O,
    L,
    K,
    M,
    W,
    F,
    R,
    S,
}

/// The number of logical keys, and of rows in the binding table.
pub const KEY_COUNT: usize = 17;

/// The host key bound to `k`.
pub open spec fn host_key_of(k: LogicalKey) -> HostKey {
    match k {
        LogicalKey::Up => HostKey::ArrowUp,
        LogicalKey::Down => HostKey::ArrowDown,
        LogicalKey::Left => HostKey::ArrowLeft,
        LogicalKey::Right => HostKey::ArrowRight,
        LogicalKey::Escape => HostKey::Escape,
        LogicalKey::Quit => HostKey::Delete,
        LogicalKey::Space => HostKey::Space,
        LogicalKey::UpPlayer1 => HostKey::E,
        LogicalKey::DownPlayer1 => HostKey::D,
        LogicalKey::UpPlayer2 => HostKey::O,
        LogicalKey::DownPlayer2 => HostKey::L,
        LogicalKey::LeftPlayer2 => HostKey::K,
        LogicalKey::RightPlayer2 => HostKey::M,
        LogicalKey::Launch => HostKey::W,
        LogicalKey::Forward => HostKey::F,
        LogicalKey::Backward => HostKey::R,
        LogicalKey::Save => HostKey::S,
    }
}

/// The logical key that host key `h` is bound to.
pub open spec fn logical_key_of(h: HostKey) -> LogicalKey {
    match h {
        HostKey::ArrowUp => LogicalKey::Up,
        HostKey::ArrowDown => LogicalKey::Down,
        HostKey::ArrowLeft => LogicalKey::Left,
        HostKey::ArrowRight => LogicalKey::Right,
        HostKey::Escape => LogicalKey::Escape,
        HostKey::Delete => LogicalKey::Quit,
        HostKey::Space => LogicalKey::Space,
        HostKey::E => LogicalKey::UpPlayer1,
        HostKey::D => LogicalKey::DownPlayer1,
        HostKey::O => LogicalKey::UpPlayer2,
        HostKey::L => LogicalKey::DownPlayer2,
        HostKey::K => LogicalKey::LeftPlayer2,
        HostKey::M => LogicalKey::RightPlayer2,
        HostKey::W => LogicalKey::Launch,
        HostKey::F => LogicalKey::Forward,
        HostKey::R => LogicalKey::Backward,
        HostKey::S => LogicalKey::Save,
    }
}

/// The rows of the binding table, in the order in which released keys are
/// reported.
pub open spec fn key_table() -> Seq<LogicalKey> {
    seq![
        LogicalKey::Up,
        LogicalKey::Down,
        LogicalKey::Left,
        LogicalKey::Right,
        LogicalKey::Escape,
        LogicalKey::Quit,
        LogicalKey::Space,
        LogicalKey::UpPlayer1,
        LogicalKey::DownPlayer1,
        LogicalKey::UpPlayer2,
        LogicalKey::DownPlayer2,
        LogicalKey::LeftPlayer2,
        LogicalKey::RightPlayer2,
        LogicalKey::Launch,
        LogicalKey::Forward,
        LogicalKey::Backward,
        LogicalKey::Save,
    ]
}

/// The host key bound to `k`.
pub fn host_key(k: LogicalKey) -> (r: HostKey)
    ensures
        r == host_key_of(k),
{
    match k {
        LogicalKey::Up => HostKey::ArrowUp,
        LogicalKey::Down => HostKey::ArrowDown,
        LogicalKey::Left => HostKey::ArrowLeft,
        LogicalKey::Right => HostKey::ArrowRight,
        LogicalKey::Escape => HostKey::Escape,
        LogicalKey::Quit => HostKey::Delete,
        LogicalKey::Space => HostKey::Space,
        LogicalKey::UpPlayer1 => HostKey::E,
        LogicalKey::DownPlayer1 => HostKey::D,
        LogicalKey::UpPlayer2 => HostKey::O,
        LogicalKey::DownPlayer2 => HostKey::L,
        LogicalKey::LeftPlayer2 => HostKey::K,
        LogicalKey::RightPlayer2 => HostKey::M,
        LogicalKey::Launch => HostKey::W,
        LogicalKey::Forward => HostKey::F,
        LogicalKey::Backward => HostKey::R,
        LogicalKey::Save => HostKey::S,
    }
}

/// Row `i` of the binding table.
pub fn key_at(i: usize) -> (r: LogicalKey)
    requires
        i < KEY_COUNT,
    ensures
        r == key_table()[i as int],
{
    match i {
        0 => LogicalKey::Up,
        1 => LogicalKey::Down,
        2 => LogicalKey::Left,
        3 => LogicalKey::Right,
        4 => LogicalKey::Escape,
        5 => LogicalKey::Quit,
        6 => LogicalKey::Space,
        7 => LogicalKey::UpPlayer1,
        8 => LogicalKey::DownPlayer1,
        9 => LogicalKey::UpPlayer2,
        10 => LogicalKey::DownPlayer2,
        11 => LogicalKey::LeftPlayer2,
        12 => LogicalKey::RightPlayer2,
        13 => LogicalKey::Launch,
        14 => LogicalKey::Forward,
        15 => LogicalKey::Backward,
        _ => LogicalKey::Save,
    }
}

/// The binding is one to one: a host key triggers a logical key exactly when
/// it is the host key bound to it. So every logical key is reached by exactly
/// one host key, and no host key reaches two logical keys.
pub proof fn lemma_key_binding_one_to_one(k: LogicalKey, h: HostKey)
    ensures
        (host_key_of(k) == h) <==> (logical_key_of(h) == k),
{
}

/// Every logical key stands in the binding table exactly once.
pub proof fn lemma_key_table_complete(k: LogicalKey)
    ensures
        key_table().len() == KEY_COUNT,
        key_table().contains(k),
        key_table().no_duplicates(),
{
    let t = key_table();
    let i: int = match k {
        LogicalKey::Up => 0,
        LogicalKey::Down => 1,
        LogicalKey::Left => 2,
        LogicalKey::Right => 3,
        LogicalKey::Escape => 4,
        LogicalKey::Quit => 5,
        LogicalKey::Space => 6,
        LogicalKey::UpPlayer1 => 7,
        LogicalKey::DownPlayer1 => 8,
        LogicalKey::UpPlayer2 => 9,
        LogicalKey::DownPlayer2 => 10,
        LogicalKey::LeftPlayer2 => 11,
        LogicalKey::RightPlayer2 => 12,
        LogicalKey::Launch => 13,
        LogicalKey::Forward => 14,
        LogicalKey::Backward => 15,
        LogicalKey::Save => 16,
    };
    assert(t[i] == k);
}

} // verus!
