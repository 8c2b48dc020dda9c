//! Drives Roccat gaming peripherals through vendor HID reports: the report
//! codec, the control handshake, the keyboard's light layer quantizer and its
//! key events.
pub mod bitfield;
pub mod button;
pub mod device;
pub mod report;
pub mod ryosmkfx;
pub mod tyon;
