//! Region selection across outputs: the engine behind a full-screen overlay on
//! which the user drags out a rectangle.
//!
//! The engine owns no display connection and draws no pixels. It is handed
//! events, keeps the session's state, and answers each event with what has to
//! be done: which buffer to map, which outputs to paint and with which
//! drawing operations, and when the session ends and with which result.

pub mod buffer;
pub mod error;
pub mod geometry;
pub mod handshake;
pub mod paint;
pub mod registry;
pub mod report;
pub mod selection;
pub mod state;
pub mod theorems;
