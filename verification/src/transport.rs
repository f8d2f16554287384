//! The trusted boundary to the FTDI D2XX transport. Every item here is an
//! `external_body` wrapper around one function of the `libftd2xx` crate (or
//! a declaration of one of its types); their contracts are believed, not
//! proved. Vendor status codes cross the boundary as plain `u32` values and
//! are interpreted by verified code.

use vstd::prelude::*;

use libftd2xx::FtdiCommon;
use libftd2xx::{BitsPerWord, Parity, StopBits};

use crate::session::{DmxDeviceInfo, DmxDeviceStatus};

verus! {

/// Largest timeout, in milliseconds, that the vendor accepts: it passes
/// timeouts to the driver as 32-bit millisecond counts and panics on more.
pub const MAX_TIMEOUT_MS: u64 = 0xFFFF_FFFF;

/// Largest byte count the vendor moves in one bulk transfer: it passes
/// lengths to the driver as 32-bit counts and panics on more.
pub const MAX_TRANSFER_LEN: usize = 0xFFFF_FFFF;

/// Declaration of the vendor's device handle. A value of this type is
/// opaque: the library only carries it between transport calls.
#[verifier::external_type_specification]
#[verifier::external_body]
pub struct ExFtdi(libftd2xx::Ftdi);

/// Declaration of the vendor's device descriptor, converted to the
/// library's own descriptor by [`info_of`] before any logic reads it.
#[verifier::external_type_specification]
#[verifier::external_body]
pub struct ExDeviceInfo(libftd2xx::DeviceInfo);

/// Word length on the serial line.
#[derive(Clone, Copy, Debug, PartialEq, Eq, Structural)]
pub enum LineBits {
    /// 7 data bits per word.
    Seven,
    /// 8 data bits per word, as DMX requires.
    Eight,
}

/// Stop bits on the serial line.
#[derive(Clone, Copy, Debug, PartialEq, Eq, Structural)]
pub enum LineStopBits {
    /// 1 stop bit.
    One,
    /// 2 stop bits, as DMX requires.
    Two,
}

/// Parity on the serial line.
#[derive(Clone, Copy, Debug, PartialEq, Eq, Structural)]
pub enum LineParity {
    /// No parity, as DMX requires.
    No,
    /// Odd parity.
    Odd,
    /// Even parity.
    Even,
    /// Mark parity.
    Mark,
    /// Space parity.
    Space,
}

/// Failure of a bulk transfer: either a vendor status code, or a transfer
/// that moved fewer bytes than requested before the configured timeout.
#[derive(Clone, Copy, Debug, PartialEq, Eq, Structural)]
pub enum TransferFailure {
    /// The driver reported the given vendor status code.
    Status(u32),
    /// The transfer stopped short: `actual` of `expected` bytes moved.
    Short { actual: usize, expected: usize },
}

/// Relies on Ftdi::with_index: opens the device with the given index and
/// returns its handle, or the vendor status code; an index that is out of
/// range or a device that is already open fails.
#[verifier::external_body]
pub fn ftdi_with_index(index: i32) -> (r: Result<libftd2xx::Ftdi, u32>) {
    match libftd2xx::Ftdi::with_index(index) {
        Ok(ft) => Ok(ft),
        Err(e) => Err(e as u32),
    }
}

/// Relies on FtdiCommon::device_info: queries the descriptor of an open
/// device, or fails with the vendor status code.
#[verifier::external_body]
pub fn ftdi_device_info(ft: &mut libftd2xx::Ftdi) -> (r: Result<libftd2xx::DeviceInfo, u32>) {
    match ft.device_info() {
        Ok(d) => Ok(d),
        Err(e) => Err(e as u32),
    }
}

/// Relies on the public fields of libftd2xx::DeviceInfo: copies each field
/// of the vendor descriptor, one for one, into the library's descriptor
/// (the device type and link speed as their numeric vendor codes).
#[verifier::external_body]
pub fn info_of(d: &libftd2xx::DeviceInfo) -> (r: DmxDeviceInfo) {
    DmxDeviceInfo {
        port_open: d.port_open,
        speed_code: match d.speed {
            Some(s) => Some(s as u8),
            None => None,
        },
        device_type_code: d.device_type as u32,
        vendor_id: d.vendor_id,
        product_id: d.product_id,
        serial_number: d.serial_number.clone(),
        description: d.description.clone(),
    }
}

/// Relies on FtdiCommon::reset: sends a reset command to the device.
#[verifier::external_body]
pub fn ftdi_reset(ft: &mut libftd2xx::Ftdi) -> (r: Result<(), u32>) {
    match ft.reset() {
        Ok(()) => Ok(()),
        Err(e) => Err(e as u32),
    }
}

/// Relies on FtdiCommon::set_baud_rate: configures the line's baud rate.
#[verifier::external_body]
pub fn ftdi_set_baud_rate(ft: &mut libftd2xx::Ftdi, baud_rate: u32) -> (r: Result<(), u32>) {
    match ft.set_baud_rate(baud_rate) {
        Ok(()) => Ok(()),
        Err(e) => Err(e as u32),
    }
}

/// Relies on FtdiCommon::set_data_characteristics: configures word length,
/// stop bits and parity; the library's line values convert one for one to
/// the vendor's.
#[verifier::external_body]
pub fn ftdi_set_data_characteristics(
    ft: &mut libftd2xx::Ftdi,
    bits: LineBits,
    stop: LineStopBits,
    parity: LineParity,
) -> (r: Result<(), u32>) {
    let b = match bits { LineBits::Seven => BitsPerWord::Bits7, LineBits::Eight => BitsPerWord::Bits8 };
    let s = match stop { LineStopBits::One => StopBits::Bits1, LineStopBits::Two => StopBits::Bits2 };
    let p = match parity {
        LineParity::No => Parity::No,
        LineParity::Odd => Parity::Odd,
        LineParity::Even => Parity::Even,
        LineParity::Mark => Parity::Mark,
        LineParity::Space => Parity::Space,
    };
    match ft.set_data_characteristics(b, s, p) {
        Ok(()) => Ok(()),
        Err(e) => Err(e as u32),
    }
}

/// Relies on FtdiCommon::set_timeouts: sets the read and write timeouts,
/// given here in milliseconds. The vendor hands each timeout to the driver
/// as a 32-bit millisecond count and panics on a larger one, so larger
/// values are excluded.
#[verifier::external_body]
pub fn ftdi_set_timeouts(
    ft: &mut libftd2xx::Ftdi,
    read_timeout_ms: u64,
    write_timeout_ms: u64,
) -> (r: Result<(), u32>)
    requires
        read_timeout_ms <= MAX_TIMEOUT_MS,
        write_timeout_ms <= MAX_TIMEOUT_MS,
{
    let rt = core::time::Duration::from_millis(read_timeout_ms);
    let wt = core::time::Duration::from_millis(write_timeout_ms);
    match ft.set_timeouts(rt, wt) {
        Ok(()) => Ok(()),
        Err(e) => Err(e as u32),
    }
}

/// Relies on FtdiCommon::set_flow_control_none: disables flow control.
#[verifier::external_body]
pub fn ftdi_set_flow_control_none(ft: &mut libftd2xx::Ftdi) -> (r: Result<(), u32>) {
    match ft.set_flow_control_none() {
        Ok(()) => Ok(()),
        Err(e) => Err(e as u32),
    }
}

/// Relies on FtdiCommon::clear_rts: clears the request-to-send line.
#[verifier::external_body]
pub fn ftdi_clear_rts(ft: &mut libftd2xx::Ftdi) -> (r: Result<(), u32>) {
    match ft.clear_rts() {
        Ok(()) => Ok(()),
        Err(e) => Err(e as u32),
    }
}

/// Relies on FtdiCommon::purge_rx: discards the receive buffer.
#[verifier::external_body]
pub fn ftdi_purge_rx(ft: &mut libftd2xx::Ftdi) -> (r: Result<(), u32>) {
    match ft.purge_rx() {
        Ok(()) => Ok(()),
        Err(e) => Err(e as u32),
    }
}

/// Relies on FtdiCommon::purge_tx: discards the transmit buffer.
#[verifier::external_body]
pub fn ftdi_purge_tx(ft: &mut libftd2xx::Ftdi) -> (r: Result<(), u32>) {
    match ft.purge_tx() {
        Ok(()) => Ok(()),
        Err(e) => Err(e as u32),
    }
}

/// Relies on FtdiCommon::set_break_on: asserts the BREAK condition, holding
/// the line low until it is deasserted.
#[verifier::external_body]
pub fn ftdi_set_break_on(ft: &mut libftd2xx::Ftdi) -> (r: Result<(), u32>) {
    match ft.set_break_on() {
        Ok(()) => Ok(()),
        Err(e) => Err(e as u32),
    }
}

/// Relies on FtdiCommon::set_break_off: deasserts the BREAK condition,
/// beginning the Mark-After-Break.
#[verifier::external_body]
pub fn ftdi_set_break_off(ft: &mut libftd2xx::Ftdi) -> (r: Result<(), u32>) {
    match ft.set_break_off() {
        Ok(()) => Ok(()),
        Err(e) => Err(e as u32),
    }
}

/// Relies on FtdiCommon::queue_status: the number of received bytes waiting
/// in the driver's queue.
#[verifier::external_body]
pub fn ftdi_queue_status(ft: &mut libftd2xx::Ftdi) -> (r: Result<usize, u32>) {
    match ft.queue_status() {
        Ok(n) => Ok(n),
        Err(e) => Err(e as u32),
    }
}

/// Relies on FtdiCommon::read_all: fills the first `n` slots of `buf` with
/// received bytes, or fails; the buffer keeps its length, and the slots at
/// `n` and beyond are never touched. The vendor hands the length to the
/// driver as a 32-bit count and panics on a larger one, so larger requests
/// are excluded.
#[verifier::external_body]
pub fn ftdi_read_all(ft: &mut libftd2xx::Ftdi, buf: &mut Vec<u8>, n: usize) -> (r: Result<
    (),
    TransferFailure,
>)
    requires
        n <= old(buf).len(),
        n <= MAX_TRANSFER_LEN,
    ensures
        final(buf)@.len() == old(buf)@.len(),
        final(buf)@.subrange(n as int, final(buf)@.len() as int) == old(buf)@.subrange(
            n as int,
            old(buf)@.len() as int,
        ),
{
    match ft.read_all(&mut buf[0..n]) {
        Ok(()) => Ok(()),
        Err(libftd2xx::TimeoutError::FtStatus(s)) => Err(TransferFailure::Status(s as u32)),
        Err(libftd2xx::TimeoutError::Timeout { actual, expected }) => Err(TransferFailure::Short {
            actual,
            expected,
        }),
    }
}

/// Relies on FtdiCommon::write_all: hands exactly the bytes of `data`, in
/// order, to the device for transmission, or fails having possibly sent a
/// prefix. The vendor hands the length to the driver as a 32-bit count and
/// panics on a larger one, so larger payloads are excluded.
#[verifier::external_body]
pub fn ftdi_write_all(ft: &mut libftd2xx::Ftdi, data: &Vec<u8>) -> (r: Result<
    (),
    TransferFailure,
>)
    requires
        data@.len() <= MAX_TRANSFER_LEN,
{
    match ft.write_all(data.as_slice()) {
        Ok(()) => Ok(()),
        Err(libftd2xx::TimeoutError::FtStatus(s)) => Err(TransferFailure::Status(s as u32)),
        Err(libftd2xx::TimeoutError::Timeout { actual, expected }) => Err(TransferFailure::Short {
            actual,
            expected,
        }),
    }
}

/// Relies on FtdiCommon::status: the receive-queue, transmit-queue and
/// event-status counters of the device, copied field for field.
#[verifier::external_body]
pub fn ftdi_status(ft: &mut libftd2xx::Ftdi) -> (r: Result<DmxDeviceStatus, u32>) {
    match ft.status() {
        Ok(s) => Ok(DmxDeviceStatus {
            in_rx_queue: s.ammount_in_rx_queue,
            in_tx_queue: s.ammount_in_tx_queue,
            event_status: s.event_status,
        }),
        Err(e) => Err(e as u32),
    }
}

/// Relies on FtdiCommon::close: releases the device handle, ending the
/// exclusive claim on the device.
#[verifier::external_body]
pub fn ftdi_close(ft: &mut libftd2xx::Ftdi) -> (r: Result<(), u32>) {
    match ft.close() {
        Ok(()) => Ok(()),
        Err(e) => Err(e as u32),
    }
}

/// Relies on libftd2xx::num_devices: how many devices the driver sees.
#[verifier::external_body]
pub fn ftdi_num_devices() -> (r: Result<u32, u32>) {
    match libftd2xx::num_devices() {
        Ok(n) => Ok(n),
        Err(e) => Err(e as u32),
    }
}

/// Relies on libftd2xx::list_devices: the descriptors of all attached
/// devices, in the vendor's sorted order (the vendor sorts the list before
/// returning it).
#[verifier::external_body]
pub fn ftdi_list_devices() -> (r: Result<Vec<libftd2xx::DeviceInfo>, u32>) {
    match libftd2xx::list_devices() {
        Ok(l) => Ok(l),
        Err(e) => Err(e as u32),
    }
}

} // verus!
