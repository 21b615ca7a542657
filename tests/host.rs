use resume::colour::{colour_after_edit, distinct_from_wall, pack_colour, unpack_colour};
use resume::grid::{grid_dimensions, GridBuffer, REFERENCE_CELL};
use resume::input::{ButtonState, InputWrapper, PointerButton, PointerPos};
use resume::keys::{host_key, key_at, HostKey, LogicalKey, KEY_COUNT};
use resume::render::{cell_size, draw_window_buffer, pointer_cell, Area, CellSize};
use resume::seed::seed_from_bytes;
use resume::snake::{goal_reached, snake_frame, SnakeOptions, TimeCycle};
use resume::tick::tick_due;
use resume::window::{FrameActions, WindowedGame};

fn area(width: u32, height: u32) -> Area {
    Area { width, height }
}

fn idle_button() -> ButtonState {
    ButtonState { down: false, pressed: false }
}

fn input(held: Vec<HostKey>, held_before: Vec<HostKey>) -> InputWrapper {
    InputWrapper {
        held,
        held_before,
        pointer: None,
        left: idle_button(),
        right: idle_button(),
        cell_size: None,
    }
}

fn pointer_input(x: u32, y: u32, left: ButtonState, cell: Option<CellSize>) -> InputWrapper {
    InputWrapper {
        held: vec![],
        held_before: vec![],
        pointer: Some(PointerPos { x, y }),
        left,
        right: idle_button(),
        cell_size: cell,
    }
}

#[test]
fn unpack_is_little_endian() {
    assert_eq!(unpack_colour(0x11223344), [0x44, 0x33, 0x22, 0x11]);
    assert_eq!(pack_colour([0x44, 0x33, 0x22, 0x11]), 0x11223344);
}

#[test]
fn colour_round_trip_is_exact() {
    for c in [0u32, 1, 0x0033CCFF, 0x00FFCC00, 0xFF00FF00, 0x80808080, u32::MAX] {
        assert_eq!(pack_colour(unpack_colour(c)), c);
    }
}

#[test]
fn untouched_colour_comes_back_unchanged() {
    let c = 0x0066CC33;
    // What a float colour editor may hand back for an untouched colour.
    let rounded = [0x34, 0xCC, 0x66, 0x00];
    assert_eq!(colour_after_edit(c, false, rounded), c);
    assert_eq!(colour_after_edit(c, false, unpack_colour(c)), c);
}

#[test]
fn edited_colour_is_repacked() {
    assert_eq!(colour_after_edit(0x0066CC33, true, [1, 2, 3, 4]), 0x04030201);
}

#[test]
fn colour_distinct_from_wall() {
    assert_eq!(distinct_from_wall(5, 7), 5);
    assert_eq!(distinct_from_wall(7, 7), 8);
    assert_eq!(distinct_from_wall(u32::MAX, u32::MAX), u32::MAX - 1);
}

#[test]
fn every_logical_key_has_its_own_host_key() {
    let mut seen: Vec<HostKey> = vec![];
    for i in 0..KEY_COUNT {
        let h = host_key(key_at(i));
        assert!(!seen.contains(&h));
        seen.push(h);
    }
    assert_eq!(seen.len(), 17);
    assert_eq!(host_key(LogicalKey::Up), HostKey::ArrowUp);
    assert_eq!(host_key(LogicalKey::Quit), HostKey::Delete);
    assert_eq!(host_key(LogicalKey::UpPlayer1), HostKey::E);
    assert_eq!(host_key(LogicalKey::RightPlayer2), HostKey::M);
    assert_eq!(host_key(LogicalKey::Save), HostKey::S);
}

#[test]
fn key_down_and_pressed_edges() {
    let i = input(vec![HostKey::ArrowUp, HostKey::E], vec![HostKey::E]);
    assert!(i.is_key_down(LogicalKey::Up));
    assert!(i.is_key_down(LogicalKey::UpPlayer1));
    assert!(!i.is_key_down(LogicalKey::Down));
    assert!(i.is_key_pressed(LogicalKey::Up));
    assert!(!i.is_key_pressed(LogicalKey::UpPlayer1));
    assert!(i.is_open());
}

#[test]
fn released_keys_follow_table_order() {
    let i = input(vec![HostKey::D], vec![HostKey::S, HostKey::D, HostKey::ArrowUp, HostKey::K]);
    assert_eq!(
        i.get_keys_released(),
        vec![LogicalKey::Up, LogicalKey::LeftPlayer2, LogicalKey::Save]
    );
    assert_eq!(input(vec![], vec![]).get_keys_released(), vec![]);
}

#[test]
fn pointer_cell_only_on_press_edge() {
    let cell = Some(CellSize { num: 25, den: 1 });
    let pressed = ButtonState { down: true, pressed: true };
    let held = ButtonState { down: true, pressed: false };
    assert_eq!(
        pointer_input(75, 10, pressed, cell).get_mouse_pos(PointerButton::Left),
        Some((3, 0))
    );
    assert_eq!(pointer_input(75, 10, held, cell).get_mouse_pos(PointerButton::Left), None);
    assert_eq!(
        pointer_input(75, 10, idle_button(), cell).get_mouse_pos(PointerButton::Left),
        None
    );
    assert_eq!(pointer_input(75, 10, pressed, cell).get_mouse_pos(PointerButton::Right), None);
}

#[test]
fn pointer_cell_needs_a_cell_size() {
    let pressed = ButtonState { down: true, pressed: true };
    assert_eq!(pointer_input(75, 10, pressed, None).get_mouse_pos(PointerButton::Left), None);
    let zero = Some(CellSize { num: 0, den: 2 });
    assert_eq!(pointer_input(75, 10, pressed, zero).get_mouse_pos(PointerButton::Left), None);
}

#[test]
fn pointer_cell_with_fractional_cell_size() {
    // A cell of 100 / 3 pixels: pixel 70 lies in cell 2, pixel 99 still in 2.
    let c = CellSize { num: 100, den: 3 };
    assert_eq!(pointer_cell(70, c), Some(2));
    assert_eq!(pointer_cell(99, c), Some(2));
    assert_eq!(pointer_cell(100, c), Some(3));
}

#[test]
fn discard_button_is_never_down() {
    let pressed = ButtonState { down: true, pressed: true };
    let i = pointer_input(10, 10, pressed, Some(CellSize { num: 5, den: 1 }));
    assert!(i.get_mouse_down(PointerButton::Left));
    assert!(!i.get_mouse_down(PointerButton::Right));
    assert!(!i.get_mouse_down(PointerButton::Discard));
    assert_eq!(i.get_mouse_pos(PointerButton::Discard), None);
}

#[test]
fn two_by_one_grid_on_hundred_by_fifty() {
    let mut g = GridBuffer::new(2, 1);
    g.set(1, 0, 0x11223344);
    let plan = draw_window_buffer(area(100, 50), &g);
    let den = plan.cell.den as u128;
    assert_eq!(plan.cell.num as u128, 50 * den);
    assert_eq!(plan.columns.len(), 2);
    let first = plan.columns[0][0];
    assert_eq!((first.left, first.top), (0, 0));
    assert_eq!((first.right, first.bottom), (50 * den, 50 * den));
    let second = plan.columns[1][0];
    assert_eq!((second.left, second.top), (50 * den, 0));
    assert_eq!((second.right, second.bottom), (100 * den, 50 * den));
    assert_eq!(second.channels, [0x44, 0x33, 0x22, 0x11]);
    assert_eq!(first.channels, [0, 0, 0, 0]);
    assert_eq!((plan.extent_width, plan.extent_height), (100 * den, 50 * den));
}

#[test]
fn cell_size_is_the_smaller_ratio() {
    let c = cell_size(area(300, 100), 3, 4);
    assert_eq!(c, CellSize { num: 100, den: 4 });
    let c = cell_size(area(90, 500), 3, 4);
    assert_eq!(c, CellSize { num: 90, den: 3 });
}

#[test]
fn cell_size_scales_with_area() {
    let c = cell_size(area(100, 50), 2, 1);
    let s = cell_size(area(300, 150), 2, 1);
    assert_eq!(s.num as u64 * c.den, 3 * c.num as u64 * s.den);
    let c = cell_size(area(70, 90), 4, 3);
    let s = cell_size(area(35, 45), 4, 3);
    assert_eq!(2 * s.num as u64 * c.den, c.num as u64 * s.den);
}

#[test]
fn empty_grid_draws_nothing() {
    let g = GridBuffer::new(0, 5);
    let plan = draw_window_buffer(area(100, 50), &g);
    assert_eq!(plan.cell, CellSize { num: 1, den: 1 });
    assert!(plan.columns.is_empty());
    assert_eq!(cell_size(area(100, 50), 4, 0), CellSize { num: 1, den: 1 });
}

#[test]
fn zero_area_gives_zero_cells() {
    let c = cell_size(area(0, 50), 2, 1);
    assert_eq!(c.num, 0);
    assert_eq!(pointer_cell(10, c), None);
}

#[test]
fn grid_buffer_cells() {
    let mut g = GridBuffer::new(3, 2);
    assert_eq!((g.width(), g.height()), (3, 2));
    for x in 0..3 {
        for y in 0..2 {
            assert_eq!(g.get(x, y), 0);
        }
    }
    g.set(2, 1, 0xABCDEF01);
    assert_eq!(g.get(2, 1), 0xABCDEF01);
    assert_eq!(g.get(1, 1), 0);
}

#[test]
fn resize_discards_the_old_grid() {
    assert_eq!(REFERENCE_CELL, 30);
    let mut g = GridBuffer::new(4, 4);
    g.set(0, 0, 0xDEADBEEF);
    g.set(3, 3, 0xDEADBEEF);
    g.resize(area(95, 61));
    assert_eq!((g.width(), g.height()), (3, 2));
    for x in 0..3 {
        for y in 0..2 {
            assert_eq!(g.get(x, y), 0);
        }
    }
    assert_eq!(grid_dimensions(area(29, 900)), (0, 30));
}

#[test]
fn toggle_flips_open_state() {
    let mut w = WindowedGame::new();
    assert!(!w.is_open());
    w.clicked();
    assert!(w.is_open());
    w.clicked();
    assert!(!w.is_open());
    assert_eq!(w, WindowedGame::default());
}

#[test]
fn frame_resizes_only_on_size_change() {
    let mut w = WindowedGame::new();
    let all = FrameActions { update: true, resize: true, draw: true };
    let steady = FrameActions { update: true, resize: false, draw: true };
    let none = FrameActions { update: false, resize: false, draw: false };
    assert_eq!(w.handle(area(300, 200)), none);
    w.clicked();
    assert_eq!(w.handle(area(300, 200)), all);
    assert_eq!(w.handle(area(300, 200)), steady);
    assert_eq!(w.handle(area(310, 200)), all);
    w.close();
    assert_eq!(w.handle(area(400, 400)), none);
    w.clicked();
    assert_eq!(w.handle(area(310, 200)), steady);
}

#[test]
fn snake_options_defaults() {
    let o = SnakeOptions::default();
    assert_eq!(o.snake_speed, 60);
    assert_eq!(o.snake_size, 3);
    assert!(o.ghost_mode && !o.two_player && !o.bad_berries);
    assert_eq!(o.points_to_reach, 15);
    assert_eq!(o.first_snake_colour, 0x0033CCFF);
    assert_eq!(o.bad_berry_colour, 0x00FF0000);
}

#[test]
fn snake_goal_counts_ten_per_point() {
    assert!(goal_reached(15, 150, 0));
    assert!(goal_reached(15, 159, 0));
    assert!(goal_reached(15, 3, 151));
    assert!(!goal_reached(15, 149, 140));
    assert!(tick_due(60, 60));
    assert!(!tick_due(59, 60));
}

#[test]
fn snake_frame_decisions() {
    let f = snake_frame(TimeCycle::Forward, false, 15, 0, 0, 61, 60);
    assert!(f.step && f.show_world && f.restart_timer && !f.finished);
    let f = snake_frame(TimeCycle::Forward, false, 15, 0, 0, 10, 60);
    assert!(!f.step && f.show_world && !f.restart_timer);
    let f = snake_frame(TimeCycle::Forward, false, 15, 150, 0, 100, 60);
    assert!(f.finished && f.show_game_over && !f.step && !f.show_world);
    let f = snake_frame(TimeCycle::Backward, false, 15, 0, 0, 100, 60);
    assert!(f.rewind && f.show_world && f.restart_timer);
    assert_eq!(f.cycle, TimeCycle::Pause);
    let f = snake_frame(TimeCycle::Backward, false, 15, 0, 0, 99, 60);
    assert!(!f.rewind && f.show_world);
    let f = snake_frame(TimeCycle::Pause, false, 15, 0, 0, 1000, 60);
    assert!(!f.step && !f.rewind && !f.show_world && !f.show_game_over);
    assert_eq!(f.cycle, TimeCycle::Pause);
}

#[test]
fn seed_reads_big_endian() {
    assert_eq!(seed_from_bytes([1, 2, 3, 4, 5, 6, 7, 8]), 0x0102030405060708);
    assert_eq!(seed_from_bytes([0xFF; 8]), u64::MAX);
    assert_eq!(seed_from_bytes([0; 8]), 0);
}
