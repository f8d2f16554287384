//! The session's descriptor conversion: one library descriptor per vendor
//! descriptor, fields carried over one for one.

use libftd2xx::{DeviceInfo, DeviceType, Speed};
use open_dmx::session::convert_infos;

#[test]
fn convert_infos_keeps_one_descriptor_per_device_in_order() {
    let first = DeviceInfo {
        port_open: true,
        speed: Some(Speed::HighSpeed),
        device_type: DeviceType::FT232R,
        vendor_id: 0x0403,
        product_id: 0x6001,
        serial_number: String::from("AL05O9B5"),
        description: String::from("FT232R USB UART"),
    };
    let second = DeviceInfo {
        port_open: false,
        speed: None,
        device_type: DeviceType::FT232H,
        vendor_id: 0x0403,
        product_id: 0x6014,
        serial_number: String::from("B0000001"),
        description: String::from("FT232H"),
    };
    let out = convert_infos(&vec![first, second]);

    assert_eq!(out.len(), 2);
    assert!(out[0].port_open);
    assert_eq!(out[0].speed_code, Some(Speed::HighSpeed as u8));
    assert_eq!(out[0].device_type_code, DeviceType::FT232R as u32);
    assert_eq!(out[0].vendor_id, 0x0403);
    assert_eq!(out[0].product_id, 0x6001);
    assert_eq!(out[0].serial_number, "AL05O9B5");
    assert_eq!(out[0].description, "FT232R USB UART");

    assert!(!out[1].port_open);
    assert_eq!(out[1].speed_code, None);
    assert_eq!(out[1].device_type_code, DeviceType::FT232H as u32);
    assert_eq!(out[1].description, "FT232H");
}

#[test]
fn convert_infos_of_nothing_is_empty() {
    let out = convert_infos(&Vec::new());
    assert!(out.is_empty());
}
