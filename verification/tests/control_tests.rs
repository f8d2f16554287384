//! The drain step of the transmission loop: command application order, the
//! stop decision, and the side effects owed per batch.

use open_dmx::control::{
    device_list_response, drain_frame_commands, OpenDmxProtocol, SideEffect,
};
use open_dmx::errors::{DeviceOp, DmxError};
use open_dmx::frame::DmxFrame;
use open_dmx::session::DmxDeviceInfo;

#[test]
fn last_write_wins_within_a_cycle() {
    let mut frame = DmxFrame::new();
    let cmds = vec![
        OpenDmxProtocol::SetValue(2, 5),
        OpenDmxProtocol::SetValue(2, 200),
    ];
    let (stop, effects) = drain_frame_commands(&mut frame, &cmds);
    assert!(!stop);
    assert!(effects.is_empty());
    // The frame handed to the transport carries exactly 200 for channel 2.
    assert_eq!(frame.get(2).unwrap(), 200);
    assert_eq!(frame.bytes()[2], 200);
}

#[test]
fn stop_command_stops_after_the_batch() {
    let mut frame = DmxFrame::new();
    let cmds = vec![
        OpenDmxProtocol::SetValue(1, 7),
        OpenDmxProtocol::Stop,
        OpenDmxProtocol::SetValue(3, 9),
    ];
    let (stop, effects) = drain_frame_commands(&mut frame, &cmds);
    assert!(stop);
    assert!(effects.is_empty());
    // Draining continues past the Stop: later commands are still applied.
    assert_eq!(frame.get(1).unwrap(), 7);
    assert_eq!(frame.get(3).unwrap(), 9);
}

#[test]
fn without_stop_the_loop_keeps_running() {
    let mut frame = DmxFrame::new();
    let cmds = vec![
        OpenDmxProtocol::SetValue(1, 1),
        OpenDmxProtocol::Reset,
        OpenDmxProtocol::ListDevices,
        OpenDmxProtocol::SetValue(2, 2),
    ];
    let (stop, _) = drain_frame_commands(&mut frame, &cmds);
    // Only a Stop command stops the loop; in particular no transport
    // failure can, since the decision is a function of the commands alone.
    assert!(!stop);
}

#[test]
fn list_devices_requests_exactly_one_enumeration() {
    let mut frame = DmxFrame::new();
    frame.set(4, 40).unwrap();
    let cmds = vec![OpenDmxProtocol::ListDevices];
    let (stop, effects) = drain_frame_commands(&mut frame, &cmds);
    assert!(!stop);
    assert_eq!(effects, vec![SideEffect::Enumerate]);
    // The frame is untouched: transmission continues uninterrupted around
    // the enumeration.
    assert_eq!(frame.get(4).unwrap(), 40);
    for c in 1..=512usize {
        if c != 4 {
            assert_eq!(frame.get(c).unwrap(), 0);
        }
    }
}

#[test]
fn effects_come_in_command_order() {
    let mut frame = DmxFrame::new();
    let cmds = vec![
        OpenDmxProtocol::ListDevices,
        OpenDmxProtocol::Reset,
        OpenDmxProtocol::ListDevices,
    ];
    let (_, effects) = drain_frame_commands(&mut frame, &cmds);
    assert_eq!(
        effects,
        vec![
            SideEffect::Enumerate,
            SideEffect::LineReset,
            SideEffect::Enumerate,
        ]
    );
}

#[test]
fn reset_buffer_command_zeroes_every_channel() {
    let mut frame = DmxFrame::new();
    let cmds = vec![
        OpenDmxProtocol::SetValue(3, 9),
        OpenDmxProtocol::ResetBuffer,
    ];
    let (stop, effects) = drain_frame_commands(&mut frame, &cmds);
    assert!(!stop);
    assert!(effects.is_empty());
    for c in 1..=512usize {
        assert_eq!(frame.get(c).unwrap(), 0);
    }
}

#[test]
fn inbound_device_list_is_ignored() {
    let mut frame = DmxFrame::new();
    frame.set(1, 11).unwrap();
    let cmds = vec![OpenDmxProtocol::DeviceList(Vec::new())];
    let (stop, effects) = drain_frame_commands(&mut frame, &cmds);
    assert!(!stop);
    assert!(effects.is_empty());
    assert_eq!(frame.get(1).unwrap(), 11);
}

#[test]
fn invalid_channel_in_batch_is_dropped_silently() {
    let mut frame = DmxFrame::new();
    let cmds = vec![
        OpenDmxProtocol::SetValue(0, 10),
        OpenDmxProtocol::SetValue(600, 10),
        OpenDmxProtocol::SetValue(2, 20),
    ];
    let (stop, _) = drain_frame_commands(&mut frame, &cmds);
    assert!(!stop);
    assert_eq!(frame.get(2).unwrap(), 20);
    assert_eq!(frame.bytes()[0], 0);
}

#[test]
fn device_list_response_carries_the_list() {
    let infos = vec![DmxDeviceInfo {
        port_open: true,
        speed_code: Some(0),
        device_type_code: 5,
        vendor_id: 0x0403,
        product_id: 0x6001,
        serial_number: String::from("A1B2C3"),
        description: String::from("FT232R USB UART"),
    }];
    match device_list_response(Ok(infos)) {
        OpenDmxProtocol::DeviceList(l) => {
            assert_eq!(l.len(), 1);
            assert!(l[0].port_open);
            assert_eq!(l[0].serial_number, "A1B2C3");
            assert_eq!(l[0].description, "FT232R USB UART");
        }
        _ => panic!("expected a device list"),
    }
}

#[test]
fn device_list_response_on_failure_is_an_empty_list() {
    let err: Result<Vec<DmxDeviceInfo>, DmxError> = Err(DmxError::Device {
        op: DeviceOp::Enumerate,
        code: 4,
    });
    match device_list_response(err) {
        OpenDmxProtocol::DeviceList(l) => assert!(l.is_empty()),
        _ => panic!("expected a device list"),
    }
}
