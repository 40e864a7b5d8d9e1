//! Shows which layer a multi-layer keyboard is on: decoding of the raw
//! reports that its firmware sends, the choice of its HID interface, the
//! decisions of the polling and render loops, and the placement of its keys
//! on the terminal.

pub mod decode;
pub mod error;
pub mod keyboard;
pub mod layer;
pub mod layout;
pub mod poller;
pub mod render;
pub mod session;
