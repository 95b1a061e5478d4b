//! Decoding of the kernel's input-event records into the text of key presses,
//! with the shift state tracked across events.

pub mod config;
pub mod decoder;
pub mod device;
pub mod event;
pub mod keys;
