//! Error taxonomy of the driver: channel bounds errors, transport status
//! errors tagged with the operation that failed, and short read/write
//! timeouts. Vendor status codes are carried as plain numbers and named by
//! a verified lookup.

use vstd::prelude::*;
use vstd::string::StringExecFns;

verus! {

/// The transport operation during which a device error arose.
#[derive(Clone, Copy, Debug, PartialEq, Eq, Structural)]
pub enum DeviceOp {
    /// Opening the device by index.
    Open,
    /// Querying the device descriptor.
    ReadInfo,
    /// The reset command of the line reconfiguration sequence.
    LineReset,
    /// Setting the baud rate.
    SetBaudRate,
    /// Setting word length, stop bits and parity.
    SetDataCharacteristics,
    /// Setting read and write timeouts.
    SetTimeouts,
    /// Disabling flow control.
    SetFlowControl,
    /// Clearing the request-to-send line.
    ClearRts,
    /// Purging the receive buffer.
    PurgeRx,
    /// Purging the transmit buffer.
    PurgeTx,
    /// Querying how many received bytes are queued.
    QueueStatus,
    /// Reading queued bytes.
    ReadData,
    /// Writing the frame payload.
    WriteData,
    /// Asserting the BREAK condition.
    BreakOn,
    /// Deasserting the BREAK condition.
    BreakOff,
    /// Querying the device status counters.
    QueryStatus,
    /// Releasing the handle.
    Close,
    /// Enumerating attached devices.
    Enumerate,
}

/// An error surfaced by the driver.
#[derive(Clone, Copy, Debug, PartialEq, Eq, Structural)]
pub enum DmxError {
    /// A channel index outside 1..=512 was passed to a frame accessor.
    InvalidChannel,
    /// A transport call failed with the given vendor status code.
    Device { op: DeviceOp, code: u32 },
    /// A bulk read or write moved fewer bytes than requested.
    Timeout { op: DeviceOp, actual: usize, expected: usize },
}

/// The name of a vendor status code, matching the vendor's own spelling.
/// Codes outside the documented range fall back to the catch-all name.
pub fn status_name(code: u32) -> (r: String)
    ensures
        code == 1 ==> r@ == "INVALID_HANDLE"@,
        code == 2 ==> r@ == "DEVICE_NOT_FOUND"@,
        code == 3 ==> r@ == "DEVICE_NOT_OPENED"@,
        code == 4 ==> r@ == "IO_ERROR"@,
        code == 5 ==> r@ == "INSUFFICIENT_RESOURCES"@,
        code == 6 ==> r@ == "INVALID_PARAMETER"@,
        code == 7 ==> r@ == "INVALID_BAUD_RATE"@,
        code == 8 ==> r@ == "DEVICE_NOT_OPENED_FOR_ERASE"@,
        code == 9 ==> r@ == "DEVICE_NOT_OPENED_FOR_WRITE"@,
        code == 10 ==> r@ == "FAILED_TO_WRITE_DEVICE"@,
        code == 11 ==> r@ == "EEPROM_READ_FAILED"@,
        code == 12 ==> r@ == "EEPROM_WRITE_FAILED"@,
        code == 13 ==> r@ == "EEPROM_ERASE_FAILED"@,
        code == 14 ==> r@ == "EEPROM_NOT_PRESENT"@,
        code == 15 ==> r@ == "EEPROM_NOT_PROGRAMMED"@,
        code == 16 ==> r@ == "INVALID_ARGS"@,
        code == 17 ==> r@ == "NOT_SUPPORTED"@,
        code == 19 ==> r@ == "DEVICE_LIST_NOT_READY"@,
        code == 18 || code == 0 || code > 19 ==> r@ == "OTHER_ERROR"@,
{
    if code == 1 {
        String::from_str("INVALID_HANDLE")
    } else if code == 2 {
        String::from_str("DEVICE_NOT_FOUND")
    } else if code == 3 {
        String::from_str("DEVICE_NOT_OPENED")
    } else if code == 4 {
        String::from_str("IO_ERROR")
    } else if code == 5 {
        String::from_str("INSUFFICIENT_RESOURCES")
    } else if code == 6 {
        String::from_str("INVALID_PARAMETER")
    } else if code == 7 {
        String::from_str("INVALID_BAUD_RATE")
    } else if code == 8 {
        String::from_str("DEVICE_NOT_OPENED_FOR_ERASE")
    } else if code == 9 {
        String::from_str("DEVICE_NOT_OPENED_FOR_WRITE")
    } else if code == 10 {
        String::from_str("FAILED_TO_WRITE_DEVICE")
    } else if code == 11 {
        String::from_str("EEPROM_READ_FAILED")
    } else if code == 12 {
        String::from_str("EEPROM_WRITE_FAILED")
    } else if code == 13 {
        String::from_str("EEPROM_ERASE_FAILED")
    } else if code == 14 {
        String::from_str("EEPROM_NOT_PRESENT")
    } else if code == 15 {
        String::from_str("EEPROM_NOT_PROGRAMMED")
    } else if code == 16 {
        String::from_str("INVALID_ARGS")
    } else if code == 17 {
        String::from_str("NOT_SUPPORTED")
    } else if code == 19 {
        String::from_str("DEVICE_LIST_NOT_READY")
    } else {
        String::from_str("OTHER_ERROR")
    }
}

} // verus!
