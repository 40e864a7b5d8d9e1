use vstd::prelude::*;

use crate::decode::{decode, decode_spec};
use crate::error::LayouterError;
use crate::layer::Layer;

verus! {

/// Vendor identifier of the keyboard.
pub const VENDOR_ID: u16 = 0x4653;

/// Product identifier of the keyboard.
pub const PRODUCT_ID: u16 = 0x1;

/// HID usage page of the keyboard's raw interface.
pub const USAGE_PAGE: u16 = 0xff60;

/// The identifiers that an attached HID interface reports about itself.
#[derive(Debug, Clone, Copy, PartialEq, Eq, Structural)]
pub struct DeviceIds {
    pub vendor_id: u16,
    pub product_id: u16,
    pub usage_page: u16,
}

/// Whether an interface is the keyboard's raw interface.
pub open spec fn is_keyboard_spec(d: DeviceIds) -> bool {
    d.vendor_id == VENDOR_ID && d.product_id == PRODUCT_ID && d.usage_page == USAGE_PAGE
}

/// Whether `i` is the position of the first keyboard interface in `devices`.
pub open spec fn is_first_keyboard(devices: Seq<DeviceIds>, i: int) -> bool {
    0 <= i < devices.len() && is_keyboard_spec(devices[i]) && forall|k: int|
        0 <= k < i ==> !is_keyboard_spec(#[trigger] devices[k])
}

/// Whether any interface in `devices` is the keyboard's.
pub open spec fn has_keyboard(devices: Seq<DeviceIds>) -> bool {
    exists|k: int| 0 <= k < devices.len() && is_keyboard_spec(#[trigger] devices[k])
}

/// Checks the identifiers of one interface against the keyboard's.
pub fn is_keyboard(d: &DeviceIds) -> (r: bool)
    ensures
        r == is_keyboard_spec(*d),
{
    d.vendor_id == VENDOR_ID && d.product_id == PRODUCT_ID && d.usage_page == USAGE_PAGE
}

/// Finds the first keyboard interface among the attached ones.
pub fn find_keyboard(devices: &Vec<DeviceIds>) -> (r: Option<usize>)
    ensures
        match r {
            Some(i) => is_first_keyboard(devices@, i as int),
            None => !has_keyboard(devices@),
        },
{
    let mut i: usize = 0;
    while i < devices.len()
        invariant
            0 <= i <= devices@.len(),
            forall|k: int| 0 <= k < i ==> !is_keyboard_spec(#[trigger] devices@[k]),
        decreases devices@.len() - i,
    {
        if is_keyboard(&devices[i]) {
            return Some(i);
        }
        i = i + 1;
    }
    None
}

/// A polling session with the keyboard: which attached interface it reads,
/// and the layer that the reports so far have put in force.
#[derive(Debug, Clone, Copy, PartialEq, Eq, Structural)]
pub struct Keyboard {
    pub current_layer: Layer,
    pub device_index: usize,
}

impl Keyboard {
    /// Opens a session on the first keyboard interface among `devices`,
    /// starting on the base layer; fails when none of them is the keyboard.
    pub fn new(devices: &Vec<DeviceIds>) -> (r: Result<Keyboard, LayouterError>)
        ensures
            has_keyboard(devices@) <==> r is Ok,
            match r {
                Ok(k) => k.current_layer == Layer::Base && is_first_keyboard(
                    devices@,
                    k.device_index as int,
                ),
                Err(e) => e == LayouterError::DeviceNotFound,
            },
    {
        match find_keyboard(devices) {
            Some(i) => Ok(Keyboard { current_layer: Layer::Base, device_index: i }),
            None => Err(LayouterError::DeviceNotFound),
        }
    }

    /// Position of the session's interface in the list it was opened from.
    pub fn device_index(&self) -> (r: usize)
        ensures
            r == self.device_index,
    {
        self.device_index
    }

    /// Applies one report read from the device and returns the layer now in
    /// force. A report that is not a layer change keeps the current layer;
    /// an invalid layer index is an error and leaves the session unchanged.
    pub fn get_current_layer(&mut self, report: [u8; 4]) -> (r: Result<Layer, LayouterError>)
        ensures
            final(self).device_index == old(self).device_index,
            match decode_spec(report@, old(self).current_layer) {
                Ok(l) => r == Ok::<Layer, LayouterError>(l) && final(self).current_layer == l,
                Err(_) => r == Err::<Layer, LayouterError>(LayouterError::InvalidLayer)
                    && final(self).current_layer == old(self).current_layer,
            },
    {
        match decode(report, self.current_layer) {
            Ok(layer) => {
                self.current_layer = layer;
                Ok(layer)
            },
            Err(_) => Err(LayouterError::InvalidLayer),
        }
    }
}

} // verus!
