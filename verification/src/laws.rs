//! What holds of the decisions taken together.

pub mod archive;
pub mod controls;
pub mod emulating;
pub mod fetching;
pub mod keyboard;
pub mod models;
pub mod opening;
pub mod plans;
pub mod program;
pub mod progress;
pub mod sharing;
pub mod sleep;
pub mod startup;
pub mod timers;
pub mod views;
pub mod waking;
pub mod window;
