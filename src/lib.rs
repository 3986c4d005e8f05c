//! A round timer for focused work: phases, elapsed and remaining time,
//! transitions between work rounds and breaks, and how the remaining time
//! is shown.
//!
//! Instants are milliseconds on the caller's wall clock; lengths are
//! milliseconds too.

pub mod colors;
pub mod display;
pub mod status;
pub mod timer;

pub use colors::get_color_for_timer_status;
pub use display::display_time_remaining;
pub use status::{
    get_elapsed_time, get_is_round_complete, get_remaining_time, handle_round_complete,
    toggle_label, SoundCue, TimerStatus, TransitionEffect,
};
pub use timer::{TomatoTimer, DEFAULT_BREAK_MS, DEFAULT_ROUND_MS};
