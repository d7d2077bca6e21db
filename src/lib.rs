//! Gesture capture and recognition control for a trackpad-driven shortcut keyboard.
//!
//! The library holds the integer side of the pipeline: segmenting the raw sample
//! stream into strokes, decoding trackpad reports, interpreting the text command
//! stream, the learn/cast mode state machine with its template corpus, the USB
//! device configuration state, and the timed key chord that a confident match emits.
pub mod stroke;
pub mod trackpad;
pub mod command;
pub mod keys;
pub mod caster;
pub mod usb;
pub mod shape;
