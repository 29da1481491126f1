//! The Win32 backend model: the native constant tables, the virtual-key
//! translation, and the message-pump state machine, kept free of any real
//! native calls so the whole protocol is checkable.

pub mod ffi;
pub mod keyboard;
pub mod imp;
