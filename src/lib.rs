//! Session engine of a terminal typing-speed test: target-text generation,
//! keystroke bookkeeping and a bounded, self-coarsening speed history.

pub mod capitalize;
pub mod clock;
pub mod hoarder;
pub mod text;
pub mod session;
pub mod settings;
