//! Error naming and the session-free enumeration entry points.

use open_dmx::errors::{status_name, DeviceOp, DmxError};
use open_dmx::session::OpenDMX;

#[test]
fn status_codes_carry_the_vendor_names() {
    assert_eq!(status_name(1), "INVALID_HANDLE");
    assert_eq!(status_name(2), "DEVICE_NOT_FOUND");
    assert_eq!(status_name(3), "DEVICE_NOT_OPENED");
    assert_eq!(status_name(4), "IO_ERROR");
    assert_eq!(status_name(5), "INSUFFICIENT_RESOURCES");
    assert_eq!(status_name(6), "INVALID_PARAMETER");
    assert_eq!(status_name(7), "INVALID_BAUD_RATE");
    assert_eq!(status_name(8), "DEVICE_NOT_OPENED_FOR_ERASE");
    assert_eq!(status_name(9), "DEVICE_NOT_OPENED_FOR_WRITE");
    assert_eq!(status_name(10), "FAILED_TO_WRITE_DEVICE");
    assert_eq!(status_name(11), "EEPROM_READ_FAILED");
    assert_eq!(status_name(12), "EEPROM_WRITE_FAILED");
    assert_eq!(status_name(13), "EEPROM_ERASE_FAILED");
    assert_eq!(status_name(14), "EEPROM_NOT_PRESENT");
    assert_eq!(status_name(15), "EEPROM_NOT_PROGRAMMED");
    assert_eq!(status_name(16), "INVALID_ARGS");
    assert_eq!(status_name(17), "NOT_SUPPORTED");
    assert_eq!(status_name(18), "OTHER_ERROR");
    assert_eq!(status_name(19), "DEVICE_LIST_NOT_READY");
}

#[test]
fn unknown_status_codes_fall_back() {
    assert_eq!(status_name(0), "OTHER_ERROR");
    assert_eq!(status_name(42), "OTHER_ERROR");
    assert_eq!(status_name(u32::MAX), "OTHER_ERROR");
}

#[test]
fn bounds_error_is_the_invalid_channel_variant() {
    let mut frame = open_dmx::frame::DmxFrame::new();
    assert_eq!(frame.set(513, 1), Err(DmxError::InvalidChannel));
    assert_eq!(frame.get(0), Err(DmxError::InvalidChannel));
}

#[test]
fn enumeration_without_hardware_reports_cleanly() {
    // With no device attached, counting must either succeed with zero or
    // fail with an enumeration-tagged error — never panic.
    match OpenDMX::get_num_of_devices() {
        Ok(n) => assert_eq!(n, 0),
        Err(DmxError::Device {
            op: DeviceOp::Enumerate,
            ..
        }) => {}
        Err(e) => panic!("unexpected error kind: {e:?}"),
    }
    match OpenDMX::list_devices() {
        Ok(l) => assert!(l.is_empty()),
        Err(DmxError::Device {
            op: DeviceOp::Enumerate,
            ..
        }) => {}
        Err(e) => panic!("unexpected error kind: {e:?}"),
    }
}
