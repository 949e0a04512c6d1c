//! Runtime core of a small 2D game framework: a fixed-timestep loop and the
//! per-frame input snapshot that it feeds.
//!
//! The loop itself needs a window, a clock and an event queue. What it
//! decides needs none of them: how many ticks an amount of elapsed time pays
//! for, what an event does to the input snapshot, when the loop stops. Those
//! decisions live here and are proved against their contracts.

pub mod clock;
pub mod context;
pub mod error;
pub mod event;
pub mod input;
pub mod runner;
pub mod time;

pub use context::{quit, Context, ContextBuilder};
pub use error::{StartupStep, TetraError};
pub use event::Event;
pub use input::Key;
pub use runner::{run, State};
