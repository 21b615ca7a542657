//! The host-side settings of the snake game and the decisions its frame makes:
//! when the game is won, and whether this frame moves the snake, rewinds it
//! or only repaints it. The snake's own rules live with the game.

use vstd::prelude::*;
use crate::tick::{tick_due, tick_due_of};

verus! {

/// The settings a player can change before starting a new snake game.
#[derive(Clone, Copy, Debug, PartialEq, Eq, Structural)]
pub struct SnakeOptions {
    /// Milliseconds between two moves of the snake.
    pub snake_speed: usize,
    pub two_player: bool,
    pub bad_berries: bool,
    /// Length of the snake at the start.
    pub snake_size: usize,
    /// The snake passes through walls.
    pub ghost_mode: bool,
    pub first_snake_colour: u32,
    pub first_snake_head_colour: u32,
    pub second_snake_colour: u32,
    pub second_snake_head_colour: u32,
    pub food_colour: u32,
    pub bad_berry_colour: u32,
    /// The number of points that wins the game.
    pub points_to_reach: usize,
}

impl Default for SnakeOptions {
    fn default() -> (r: SnakeOptions)
        ensures
            r.snake_speed == 60,
            !r.two_player,
            !r.bad_berries,
            r.snake_size == 3,
            r.ghost_mode,
            r.first_snake_colour == 0x0033CCFF,
            r.first_snake_head_colour == 0x00CC66FF,
            r.second_snake_colour == 0x00CC33FF,
            r.second_snake_head_colour == 0x00FFCC00,
            r.food_colour == 0x0066CC33,
            r.bad_berry_colour == 0x00FF0000,
            r.points_to_reach == 15,
    {
        SnakeOptions {
            snake_speed: 60,
            two_player: false,
            bad_berries: false,
            snake_size: 3,
            ghost_mode: true,
            first_snake_colour: 0x0033CCFF,
            first_snake_head_colour: 0x00CC66FF,
            second_snake_colour: 0x00CC33FF,
            second_snake_head_colour: 0x00FFCC00,
            food_colour: 0x0066CC33,
            bad_berry_colour: 0x00FF0000,
            points_to_reach: 15,
        }
    }
}

/// Which way the snake's time runs.
#[derive(Clone, Copy, Debug, PartialEq, Eq, Structural)]
pub enum TimeCycle {
    Forward,
    Backward,
    Pause,
}

/// Milliseconds between two steps back in time.
pub const REWIND_PERIOD_MS: u128 = 100;

/// A score counts ten per point: a player wins when their score reaches the
/// number of points to reach.
pub open spec fn goal_reached_of(points_to_reach: usize, score: usize, second_score: usize) -> bool {
    points_to_reach == score / 10 || points_to_reach == second_score / 10
}

/// Whether either player has reached `points_to_reach`.
pub fn goal_reached(points_to_reach: usize, score: usize, second_score: usize) -> (r: bool)
    ensures
        r == goal_reached_of(points_to_reach, score, second_score),
{
    points_to_reach == score / 10 || points_to_reach == second_score / 10
}

/// What one frame of the snake game does, in this order: move the snake one
/// step forward or one step back, then paint the world or the game-over
/// screen, then restart the step timer.
#[derive(Clone, Copy, Debug, PartialEq, Eq, Structural)]
pub struct SnakeFrame {
    /// The game is over.
    pub finished: bool,
    pub step: bool,
    pub rewind: bool,
    pub show_world: bool,
    pub show_game_over: bool,
    pub restart_timer: bool,
    /// The time cycle after this frame.
    pub cycle: TimeCycle,
}

/// The frame of a snake game in time cycle `cycle`, over or not, with the
/// players' scores, `elapsed_ms` after its last step, moving every
/// `speed_ms` milliseconds. Forward, a running game steps when its period
/// has run out and shows the world; a game over shows its end. Backward, the
/// game steps back when the rewind period has run out, shows the world and
/// pauses. A paused game does nothing.
pub open spec fn snake_frame_of(
    cycle: TimeCycle,
    finished: bool,
    points_to_reach: usize,
    score: usize,
    second_score: usize,
    elapsed_ms: u128,
    speed_ms: u128,
) -> SnakeFrame {
    let over = finished || goal_reached_of(points_to_reach, score, second_score);
    let idle = SnakeFrame {
        finished: over,
        step: false,
        rewind: false,
        show_world: false,
        show_game_over: false,
        restart_timer: false,
        cycle,
    };
    match cycle {
        TimeCycle::Forward => if over {
            SnakeFrame { show_game_over: true, ..idle }
        } else {
            let due = tick_due_of(elapsed_ms, speed_ms);
            SnakeFrame { step: due, show_world: true, restart_timer: due, ..idle }
        },
        TimeCycle::Backward => {
            let due = tick_due_of(elapsed_ms, REWIND_PERIOD_MS);
            SnakeFrame {
                rewind: due,
                show_world: true,
                restart_timer: due,
                cycle: TimeCycle::Pause,
                ..idle
            }
        },
        TimeCycle::Pause => idle,
    }
}

/// Decides one frame of a snake game.
pub fn snake_frame(
    cycle: TimeCycle,
    finished: bool,
    points_to_reach: usize,
    score: usize,
    second_score: usize,
    elapsed_ms: u128,
    speed_ms: u128,
) -> (r: SnakeFrame)
    ensures
        r == snake_frame_of(
            cycle,
            finished,
            points_to_reach,
            score,
            second_score,
            elapsed_ms,
            speed_ms,
        ),
{
    let over = finished || goal_reached(points_to_reach, score, second_score);
    let idle = SnakeFrame {
        finished: over,
        step: false,
        rewind: false,
        show_world: false,
        show_game_over: false,
        restart_timer: false,
        cycle,
    };
    match cycle {
        TimeCycle::Forward => if over {
            SnakeFrame { show_game_over: true, ..idle }
        } else {
            let due = tick_due(elapsed_ms, speed_ms);
            SnakeFrame { step: due, show_world: true, restart_timer: due, ..idle }
        },
        TimeCycle::Backward => {
            let due = tick_due(elapsed_ms, REWIND_PERIOD_MS);
            SnakeFrame {
                rewind: due,
                show_world: true,
                restart_timer: due,
                cycle: TimeCycle::Pause,
                ..idle
            }
        },
        TimeCycle::Pause => idle,
    }
}

} // verus!
