use vstd::prelude::*;

verus! {

/// One of the six mutually exclusive modes that the keyboard's firmware reports.
#[derive(Debug, Clone, Copy, PartialEq, Eq, Structural, Hash)]
pub enum Layer {
    Base,
    BaseShift,
    Lower,
    LowerShift,
    Raise,
    RaiseShift,
}

/// The layer that a layer index and a shift state select, if the index names one.
pub open spec fn layer_of(index: u8, shift: bool) -> Option<Layer> {
    if index == 0 {
        Some(if shift { Layer::BaseShift } else { Layer::Base })
    } else if index == 1 {
        Some(if shift { Layer::LowerShift } else { Layer::Lower })
    } else if index == 2 {
        Some(if shift { Layer::RaiseShift } else { Layer::Raise })
    } else {
        None
    }
}

impl Layer {
    /// Selects the layer for a firmware layer index (0, 1 or 2) and a shift state.
    pub fn from_index(index: u8, shift: bool) -> (r: Option<Layer>)
        ensures
            r == layer_of(index, shift),
    {
        match index {
            0 => Some(if shift { Layer::BaseShift } else { Layer::Base }),
            1 => Some(if shift { Layer::LowerShift } else { Layer::Lower }),
            2 => Some(if shift { Layer::RaiseShift } else { Layer::Raise }),
            _ => None,
        }
    }
}

} // verus!
