use vstd::prelude::*;

use crate::error::DecodeError;
use crate::layer::{layer_of, Layer};

verus! {

/// Tag in byte 0 of a report that announces a layer change.
pub const LAYER_CHANGE_TAG: u8 = 0x80;

/// Number of bytes in a raw report.
pub const REPORT_LEN: usize = 4;

/// What a report means, given the layer in force before it.
pub open spec fn decode_spec(report: Seq<u8>, previous: Layer) -> Result<Layer, DecodeError> {
    if report[0] != LAYER_CHANGE_TAG {
        Ok(previous)
    } else {
        match layer_of(report[1], report[2] != 0) {
            Some(layer) => Ok(layer),
            None => Err(DecodeError::InvalidLayer),
        }
    }
}

/// Turns a raw report into the layer in force after it.
///
/// Reports with any tag but the layer-change tag leave `previous` unchanged;
/// a layer-change report selects a layer by its index byte and shift byte,
/// and an index above 2 is a protocol violation.
pub fn decode(report: [u8; 4], previous: Layer) -> (r: Result<Layer, DecodeError>)
    ensures
        r == decode_spec(report@, previous),
        report[0] != LAYER_CHANGE_TAG ==> r == Ok::<Layer, DecodeError>(previous),
        report[0] == LAYER_CHANGE_TAG && report[1] > 2 ==> r == Err::<Layer, DecodeError>(
            DecodeError::InvalidLayer,
        ),
{
    if report[0] != LAYER_CHANGE_TAG {
        return Ok(previous);
    }
    match Layer::from_index(report[1], report[2] != 0) {
        Some(layer) => Ok(layer),
        None => Err(DecodeError::InvalidLayer),
    }
}

} // verus!
