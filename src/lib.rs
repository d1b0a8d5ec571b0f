//! A window session for a game loop: one snapshot per event of the window,
//! with the bookkeeping that keeps the render target in step with the window.
//!
//! The library decides; the caller carries out. Advancing a session yields
//! the next snapshot and the GPU commands that must run before it is used,
//! and a draw call yields the commands of that draw.

pub mod event;
pub mod laws;
pub mod session;

pub use event::{Event, EventId, Size, Viewport};
pub use session::{Command, Output, PistonWindow};
