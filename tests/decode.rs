use layouter::decode::decode;
use layouter::error::DecodeError;
use layouter::layer::Layer;

const ALL_LAYERS: [Layer; 6] = [
    Layer::Base,
    Layer::BaseShift,
    Layer::Lower,
    Layer::LowerShift,
    Layer::Raise,
    Layer::RaiseShift,
];

#[test]
fn non_layer_reports_keep_previous_layer() {
    for previous in ALL_LAYERS {
        for tag in [0x00u8, 0x01, 0x7f, 0x81, 0xff] {
            assert_eq!(decode([tag, 1, 1, 9], previous), Ok(previous));
            assert_eq!(decode([tag, 7, 0, 0], previous), Ok(previous));
        }
    }
}

#[test]
fn empty_read_keeps_previous_layer() {
    assert_eq!(decode([0, 0, 0, 0], Layer::Raise), Ok(Layer::Raise));
}

#[test]
fn layer_change_reports_select_layers() {
    assert_eq!(decode([0x80, 0, 0, 0], Layer::Raise), Ok(Layer::Base));
    assert_eq!(decode([0x80, 0, 1, 0], Layer::Raise), Ok(Layer::BaseShift));
    assert_eq!(decode([0x80, 1, 0, 0], Layer::Base), Ok(Layer::Lower));
    assert_eq!(decode([0x80, 1, 1, 0], Layer::Base), Ok(Layer::LowerShift));
    assert_eq!(decode([0x80, 2, 0, 0], Layer::Base), Ok(Layer::Raise));
    assert_eq!(decode([0x80, 2, 1, 0], Layer::Base), Ok(Layer::RaiseShift));
}

#[test]
fn unused_fourth_byte_is_ignored() {
    assert_eq!(decode([0x80, 1, 0, 0xff], Layer::Base), Ok(Layer::Lower));
    assert_eq!(decode([0x80, 2, 1, 0x42], Layer::Base), Ok(Layer::RaiseShift));
}

#[test]
fn any_nonzero_shift_byte_means_shift() {
    assert_eq!(decode([0x80, 0, 2, 0], Layer::Base), Ok(Layer::BaseShift));
    assert_eq!(decode([0x80, 1, 0xff, 0], Layer::Base), Ok(Layer::LowerShift));
}

#[test]
fn layer_index_above_two_is_invalid() {
    assert_eq!(decode([0x80, 3, 0, 0], Layer::Base), Err(DecodeError::InvalidLayer));
    assert_eq!(decode([0x80, 3, 1, 0], Layer::Lower), Err(DecodeError::InvalidLayer));
    assert_eq!(decode([0x80, 0xff, 0, 0], Layer::Raise), Err(DecodeError::InvalidLayer));
}

#[test]
fn from_index_covers_three_indices() {
    assert_eq!(Layer::from_index(0, false), Some(Layer::Base));
    assert_eq!(Layer::from_index(2, true), Some(Layer::RaiseShift));
    assert_eq!(Layer::from_index(3, false), None);
}
