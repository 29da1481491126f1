//! A window-handle abstraction: a per-window event bridge that turns the
//! operating system's callback-driven message protocol into a poll-based
//! event queue, plus the pure state machine behind the native message pump.
//!
//! The native layer itself (threads, blocking message receipt, raw window
//! handles) lives outside this crate; everything here is the decision logic:
//! the double-buffered event queue with backpressure, the message-dispatch
//! state machine, style and control bit packing, key translation, and the
//! builder facade.

pub mod event;
pub mod monitor;
pub mod util;
pub mod buffer;
pub mod error;
pub mod window;
pub mod win32;
