//! Core of a control-surface driver: a real-time loop over four rotary
//! encoders with display regions and a grid of buttons, kept in sync with
//! slow, fallible external state sources (volume, monitor brightness, a
//! media player, an output switch).
//!
//! The crate holds the verified logic: the availability tracker with timed
//! backoff, the display/command model, the input debouncer, the command
//! merge, the per-domain controllers with their asynchronous-apply state
//! machine, and the text parsers for the external tools' output. Device
//! I/O, process spawning and configuration files live outside, behind the
//! narrow interfaces declared here.

pub mod app;
pub mod config;
pub mod controls;
pub mod hardware;
pub mod system;
pub mod text;
pub mod util;
