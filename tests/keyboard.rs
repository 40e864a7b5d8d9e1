use layouter::error::LayouterError;
use layouter::keyboard::{find_keyboard, is_keyboard, DeviceIds, Keyboard, PRODUCT_ID, USAGE_PAGE, VENDOR_ID};
use layouter::layer::Layer;

fn ids(vendor_id: u16, product_id: u16, usage_page: u16) -> DeviceIds {
    DeviceIds { vendor_id, product_id, usage_page }
}

#[test]
fn keyboard_identifiers() {
    assert_eq!((VENDOR_ID, PRODUCT_ID, USAGE_PAGE), (0x4653, 0x1, 0xff60));
    assert!(is_keyboard(&ids(0x4653, 0x1, 0xff60)));
    assert!(!is_keyboard(&ids(0x4653, 0x1, 0x0001)));
    assert!(!is_keyboard(&ids(0x4653, 0x2, 0xff60)));
    assert!(!is_keyboard(&ids(0x046d, 0x1, 0xff60)));
}

#[test]
fn first_matching_device_is_chosen() {
    let devices = vec![
        ids(0x046d, 0xc52b, 0x0001),
        ids(0x4653, 0x1, 0x0001),
        ids(0x4653, 0x1, 0xff60),
        ids(0x4653, 0x1, 0xff60),
    ];
    assert_eq!(find_keyboard(&devices), Some(2));
    let keyboard = Keyboard::new(&devices).unwrap();
    assert_eq!(keyboard.device_index(), 2);
    assert_eq!(keyboard.current_layer, Layer::Base);
}

#[test]
fn missing_device_is_not_found() {
    assert_eq!(find_keyboard(&vec![]), None);
    assert_eq!(Keyboard::new(&vec![]), Err(LayouterError::DeviceNotFound));
    let devices = vec![ids(0x4653, 0x1, 0x0001), ids(0x1234, 0x1, 0xff60)];
    assert_eq!(Keyboard::new(&devices), Err(LayouterError::DeviceNotFound));
}

#[test]
fn session_tracks_current_layer() {
    let mut keyboard = Keyboard::new(&vec![ids(0x4653, 0x1, 0xff60)]).unwrap();
    assert_eq!(keyboard.get_current_layer([0, 0, 0, 0]), Ok(Layer::Base));
    assert_eq!(keyboard.get_current_layer([0x80, 2, 1, 0]), Ok(Layer::RaiseShift));
    assert_eq!(keyboard.current_layer, Layer::RaiseShift);
    assert_eq!(keyboard.get_current_layer([0x01, 0, 0, 0]), Ok(Layer::RaiseShift));
    assert_eq!(keyboard.get_current_layer([0x80, 5, 0, 0]), Err(LayouterError::InvalidLayer));
    assert_eq!(keyboard.current_layer, Layer::RaiseShift);
}
