use vstd::prelude::*;

verus! {

/// Why a layer report could not be decoded.
#[derive(Debug, Clone, Copy, PartialEq, Eq, Structural)]
pub enum DecodeError {
    /// A layer-change report named a layer index other than 0, 1 or 2.
    InvalidLayer,
}

/// The failures that end a polling session.
#[derive(Debug, Clone, Copy, PartialEq, Eq, Structural)]
pub enum LayouterError {
    /// No attached device matched the keyboard's identifiers.
    DeviceNotFound,
    /// Reading from the device failed.
    DeviceIo,
    /// The device sent a layer-change report with an unknown layer index.
    InvalidLayer,
    /// The other end of the layer channel has gone away.
    ChannelDisconnected,
}

} // verus!
