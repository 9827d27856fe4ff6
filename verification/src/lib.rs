//! The decisions of a small real-time rendering demo, kept apart from the
//! window system and the graphics driver that carry them out.
//!
//! The demo opens a window, prepares a shader program, draws one triangle per
//! frame with colours that oscillate over time, and leaves when the window is
//! closed or Escape is pressed. Everything here works on plain values: the
//! caller performs the windowing and graphics calls and reports what happened.
//!
//! - [`setup`] lists the steps that bring the demo up.
//! - [`event`] holds what the loop reads from a window event.
//! - [`frame`] lists the graphics commands of a frame.
//! - [`session`] is the state that the running demo owns: it decides when the
//!   loop ends, what an iteration does, and what teardown releases.
//! - [`lifecycle`] is the model behind a session, with what holds of every
//!   history of calls.

pub mod event;
pub mod frame;
pub mod lifecycle;
pub mod session;
pub mod setup;
