//! The hardware-facing core: the display/command model, raw-input
//! debouncing, the in-memory panel state that commands merge into,
//! device selection, and the channels that decouple the device thread.

pub mod channels;
pub mod device;
pub mod font;
pub mod input;
pub mod model;
pub mod panel;
