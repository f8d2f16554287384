//! The device session: one open transport handle bound to one channel frame
//! and one set of communication timeouts. The session owns the frame
//! exclusively; everything it does to the device goes through the trusted
//! transport layer, and everything it does to the frame is verified here.

use vstd::prelude::*;

use crate::control::{
    count_enumerate, device_list_response, drain_frame_commands, effects_of, frame_after,
    stop_requested, OpenDmxProtocol, SideEffect,
};
use crate::errors::{DeviceOp, DmxError};
use crate::frame::DmxFrame;
use crate::transport::{
    ftdi_clear_rts, ftdi_close, ftdi_device_info, ftdi_list_devices, ftdi_num_devices,
    ftdi_purge_rx, ftdi_purge_tx, ftdi_queue_status, ftdi_read_all, ftdi_reset,
    ftdi_set_baud_rate, ftdi_set_break_off, ftdi_set_break_on, ftdi_set_data_characteristics,
    ftdi_set_flow_control_none, ftdi_set_timeouts, ftdi_status, ftdi_with_index, ftdi_write_all,
    info_of, LineBits, LineParity, LineStopBits, MAX_TIMEOUT_MS,
};
use crate::BUFFER_SIZE;

verus! {

/// Size of the scratch buffer that receives queued device bytes.
pub const READ_BUFFER_SIZE: usize = 4096;

/// The library's image of a device descriptor: every field the logic or a
/// caller reads, as a plain value. The device type and link speed are the
/// vendor's numeric codes.
#[derive(Clone, Debug)]
pub struct DmxDeviceInfo {
    /// Whether the port is open.
    pub port_open: bool,
    /// USB link speed code, when the driver reports one.
    pub speed_code: Option<u8>,
    /// The vendor's numeric device-type tag.
    pub device_type_code: u32,
    /// USB vendor identifier.
    pub vendor_id: u16,
    /// USB product identifier.
    pub product_id: u16,
    /// Device serial number.
    pub serial_number: String,
    /// Device description.
    pub description: String,
}

/// The device's queue and event counters.
#[derive(Clone, Copy, Debug, PartialEq, Eq, Structural)]
pub struct DmxDeviceStatus {
    /// Number of bytes in the receive queue.
    pub in_rx_queue: u32,
    /// Number of bytes in the transmit queue.
    pub in_tx_queue: u32,
    /// Current state of the event status.
    pub event_status: u32,
}

/// The line and pacing configuration of a session.
#[derive(Clone, Copy, Debug, PartialEq, Eq, Structural)]
pub struct DmxConfig {
    /// Baud rate of the line; 250000 for DMX.
    pub baud_rate: u32,
    /// Word length on the line; 8 bits for DMX.
    pub line_bits: LineBits,
    /// Stop bits on the line; 2 for DMX.
    pub line_stop: LineStopBits,
    /// Parity on the line; none for DMX.
    pub line_parity: LineParity,
    /// Timeout for read operations, in milliseconds.
    pub read_timeout_ms: u64,
    /// Timeout for write operations, in milliseconds.
    pub write_timeout_ms: u64,
    /// Tuning knob for the frame period; 40000 by default, which some
    /// settings may want adjusted against flickering.
    pub update_frequency: u32,
}

/// The configuration a fresh session starts with: the DMX line format at
/// 250 kBd, half-second timeouts, and the default pacing knob.
pub fn default_config() -> (c: DmxConfig)
    ensures
        c == (DmxConfig {
            baud_rate: 250000,
            line_bits: LineBits::Eight,
            line_stop: LineStopBits::Two,
            line_parity: LineParity::No,
            read_timeout_ms: 500,
            write_timeout_ms: 500,
            update_frequency: 40000,
        }),
{
    DmxConfig {
        baud_rate: 250000,
        line_bits: LineBits::Eight,
        line_stop: LineStopBits::Two,
        line_parity: LineParity::No,
        read_timeout_ms: 500,
        write_timeout_ms: 500,
        update_frequency: 40000,
    }
}

/// An open session on one physical device: the exclusive transport handle,
/// the channel frame, and the line configuration.
pub struct OpenDMX {
    ftdi: libftd2xx::Ftdi,
    buffer: DmxFrame,
    info: DmxDeviceInfo,
    /// The line and pacing configuration.
    pub cfg: DmxConfig,
}

impl OpenDMX {
    /// The session's frame as a mathematical sequence, slot 0 first.
    pub closed spec fn frame_view(&self) -> Seq<u8> {
        self.buffer@
    }

    /// The session's device descriptor.
    pub closed spec fn info_spec(&self) -> DmxDeviceInfo {
        self.info
    }

    /// The session's configuration.
    pub closed spec fn cfg_spec(&self) -> DmxConfig {
        self.cfg
    }

    /// A session is well formed when its frame holds one slot per DMX
    /// position and its timeouts fit the 32-bit millisecond counts the
    /// transport accepts.
    pub open spec fn wf(&self) -> bool {
        self.frame_view().len() == BUFFER_SIZE
            && self.cfg_spec().read_timeout_ms <= MAX_TIMEOUT_MS
            && self.cfg_spec().write_timeout_ms <= MAX_TIMEOUT_MS
    }

    /// The session's settings and descriptor are as they were: no method
    /// but the caller's own writes to `cfg` ever changes them.
    pub open spec fn same_settings(&self, other: &Self) -> bool {
        self.cfg_spec() == other.cfg_spec() && self.info_spec() == other.info_spec()
    }

    /// Open the device with the given index and bind a fresh all-zero frame
    /// and the default line configuration to it. Fails when the transport
    /// cannot open the index (among else, when the device is already open:
    /// the handle is exclusive) or when the descriptor cannot be read.
    pub fn new(device_id: i32) -> (r: Result<OpenDMX, DmxError>)
        ensures
            r matches Ok(d) ==> d.wf() && d.frame_view() == crate::control::zero_frame()
                && d.cfg_spec() == (DmxConfig {
                baud_rate: 250000,
                line_bits: LineBits::Eight,
                line_stop: LineStopBits::Two,
                line_parity: LineParity::No,
                read_timeout_ms: 500,
                write_timeout_ms: 500,
                update_frequency: 40000,
            }),
            r matches Err(e) ==> e matches DmxError::Device { op, .. } && (op == DeviceOp::Open
                || op == DeviceOp::ReadInfo),
    {
        let mut ft = match ftdi_with_index(device_id) {
            Ok(ft) => ft,
            Err(code) => {
                return Err(DmxError::Device { op: DeviceOp::Open, code });
            },
        };
        let raw_info = match ftdi_device_info(&mut ft) {
            Ok(d) => d,
            Err(code) => {
                return Err(DmxError::Device { op: DeviceOp::ReadInfo, code });
            },
        };
        let buffer = DmxFrame::new();
        proof {
            assert(buffer@.len() == crate::control::zero_frame().len());
            assert forall|k: int| 0 <= k < buffer@.len() implies buffer@[k]
                == crate::control::zero_frame()[k] by {}
            assert(buffer@ =~= crate::control::zero_frame());
        }
        Ok(OpenDMX { ftdi: ft, buffer, info: info_of(&raw_info), cfg: default_config() })
    }

    /// Reset the device and rerun the whole line configuration: baud rate,
    /// word framing, timeouts, flow control, request-to-send, and both
    /// purges. The first transport failure stops the sequence and names the
    /// failed step; the frame is never touched.
    pub fn reset(&mut self) -> (r: Result<(), DmxError>)
        requires
            old(self).wf(),
        ensures
            final(self).wf(),
            final(self).same_settings(old(self)),
            final(self).frame_view() == old(self).frame_view(),
            r matches Err(e) ==> e matches DmxError::Device { op, .. } && (op
                == DeviceOp::LineReset || op == DeviceOp::SetBaudRate || op
                == DeviceOp::SetDataCharacteristics || op == DeviceOp::SetTimeouts || op
                == DeviceOp::SetFlowControl || op == DeviceOp::ClearRts || op == DeviceOp::PurgeRx
                || op == DeviceOp::PurgeTx),
    {
        if let Err(code) = ftdi_reset(&mut self.ftdi) {
            return Err(DmxError::Device { op: DeviceOp::LineReset, code });
        }
        if let Err(code) = ftdi_set_baud_rate(&mut self.ftdi, self.cfg.baud_rate) {
            return Err(DmxError::Device { op: DeviceOp::SetBaudRate, code });
        }
        if let Err(code) = ftdi_set_data_characteristics(
            &mut self.ftdi,
            self.cfg.line_bits,
            self.cfg.line_stop,
            self.cfg.line_parity,
        ) {
            return Err(DmxError::Device { op: DeviceOp::SetDataCharacteristics, code });
        }
        if let Err(code) = ftdi_set_timeouts(
            &mut self.ftdi,
            self.cfg.read_timeout_ms,
            self.cfg.write_timeout_ms,
        ) {
            return Err(DmxError::Device { op: DeviceOp::SetTimeouts, code });
        }
        if let Err(code) = ftdi_set_flow_control_none(&mut self.ftdi) {
            return Err(DmxError::Device { op: DeviceOp::SetFlowControl, code });
        }
        if let Err(code) = ftdi_clear_rts(&mut self.ftdi) {
            return Err(DmxError::Device { op: DeviceOp::ClearRts, code });
        }
        if let Err(code) = ftdi_purge_rx(&mut self.ftdi) {
            return Err(DmxError::Device { op: DeviceOp::PurgeRx, code });
        }
        if let Err(code) = ftdi_purge_tx(&mut self.ftdi) {
            return Err(DmxError::Device { op: DeviceOp::PurgeTx, code });
        }
        Ok(())
    }

    /// Store `value` for `channel` in the local frame; nothing reaches the
    /// device until the next write. A channel outside 1..=512 is rejected
    /// and nothing changes; a valid channel always succeeds.
    pub fn set_dmx_value(&mut self, channel: usize, value: u8) -> (r: Result<(), DmxError>)
        requires
            old(self).wf(),
        ensures
            final(self).wf(),
            final(self).same_settings(old(self)),
            DmxFrame::valid_channel(channel) ==> r is Ok && final(self).frame_view() == old(
                self,
            ).frame_view().update(channel as int, value),
            !DmxFrame::valid_channel(channel) ==> r == Result::<(), DmxError>::Err(
                DmxError::InvalidChannel,
            ) && final(self).frame_view() == old(self).frame_view(),
    {
        self.buffer.set(channel, value)
    }

    /// The value last stored for `channel` in the local frame — what was
    /// last commanded, not a live read-back from the wire (for that,
    /// synchronize first). A channel outside 1..=512 is rejected.
    pub fn get_dmx_value(&self, channel: usize) -> (r: Result<u8, DmxError>)
        requires
            self.wf(),
        ensures
            DmxFrame::valid_channel(channel) ==> r == Result::<u8, DmxError>::Ok(
                self.frame_view()[channel as int],
            ),
            !DmxFrame::valid_channel(channel) ==> r == Result::<u8, DmxError>::Err(
                DmxError::InvalidChannel,
            ),
    {
        self.buffer.get(channel)
    }

    /// Synchronize the local frame with the device: read the queued bytes
    /// and overwrite the frame element-wise from them. On a read failure
    /// the frame is left unchanged and the failure is returned.
    pub fn sync(&mut self) -> (r: Result<(), DmxError>)
        requires
            old(self).wf(),
        ensures
            final(self).wf(),
            final(self).same_settings(old(self)),
            r is Err ==> final(self).frame_view() == old(self).frame_view(),
            r matches Err(e) ==> ((e matches DmxError::Device { op, .. } && (op
                == DeviceOp::QueueStatus || op == DeviceOp::ReadData)) || (e matches
                DmxError::Timeout { op, .. } && op == DeviceOp::ReadData)),
    {
        let data = match self.read() {
            Ok(d) => d,
            Err(e) => {
                return Err(e);
            },
        };
        self.buffer.synchronize(&data);
        Ok(())
    }

    /// Read `n` queued bytes from the device into a fresh scratch buffer
    /// returned whole: on success the received bytes fill the first `n`
    /// slots and every slot from `n` on is zero. The frame is never
    /// touched. This carries the exact shape of the scratch buffer; `read`
    /// composes it with the device's own queued-byte count.
    pub fn read_queued(&mut self, n: usize) -> (r: Result<Vec<u8>, DmxError>)
        requires
            old(self).wf(),
            n <= READ_BUFFER_SIZE,
        ensures
            final(self).wf(),
            final(self).same_settings(old(self)),
            final(self).frame_view() == old(self).frame_view(),
            r matches Ok(v) ==> v@.len() == READ_BUFFER_SIZE && (forall|i: int|
                n <= i < READ_BUFFER_SIZE ==> v@[i] == 0u8),
            r matches Err(e) ==> (e matches DmxError::Device { op, .. } && op
                == DeviceOp::ReadData) || (e matches DmxError::Timeout { op, .. } && op
                == DeviceOp::ReadData),
    {
        let mut buf: Vec<u8> = Vec::new();
        let mut i: usize = 0;
        while i < READ_BUFFER_SIZE
            invariant
                i <= READ_BUFFER_SIZE,
                buf@.len() == i,
                forall|j: int| 0 <= j < i ==> buf@[j] == 0u8,
            decreases READ_BUFFER_SIZE - i,
        {
            buf.push(0u8);
            i = i + 1;
        }
        let ghost before = buf@;
        match ftdi_read_all(&mut self.ftdi, &mut buf, n) {
            Ok(()) => {
                proof {
                    assert forall|k: int| n <= k < READ_BUFFER_SIZE implies buf@[k] == 0u8 by {
                        assert(buf@.subrange(n as int, READ_BUFFER_SIZE as int)[k - n]
                            == before.subrange(n as int, READ_BUFFER_SIZE as int)[k - n]);
                    }
                }
                Ok(buf)
            },
            Err(f) => Err(transfer_error(DeviceOp::ReadData, f)),
        }
    }

    /// Read every byte the device has queued, into a fixed-size scratch
    /// buffer returned whole: the queued bytes come first, the remaining
    /// slots are zero (the queued count itself comes from the device, so
    /// the exact zero-tail statement stands on `read_queued`, which takes
    /// the count as an argument). The frame is never touched.
    pub fn read(&mut self) -> (r: Result<Vec<u8>, DmxError>)
        requires
            old(self).wf(),
        ensures
            final(self).wf(),
            final(self).same_settings(old(self)),
            final(self).frame_view() == old(self).frame_view(),
            r matches Ok(v) ==> v@.len() == READ_BUFFER_SIZE,
            r matches Err(e) ==> ((e matches DmxError::Device { op, .. } && (op
                == DeviceOp::QueueStatus || op == DeviceOp::ReadData)) || (e matches
                DmxError::Timeout { op, .. } && op == DeviceOp::ReadData)),
    {
        let size = match ftdi_queue_status(&mut self.ftdi) {
            Ok(s) => s,
            Err(code) => {
                return Err(DmxError::Device { op: DeviceOp::QueueStatus, code });
            },
        };
        let n = if size < READ_BUFFER_SIZE {
            size
        } else {
            READ_BUFFER_SIZE
        };
        self.read_queued(n)
    }

    /// Release the device handle. A device left open would stay blocked for
    /// every later open.
    pub(crate) fn close(&mut self) -> (r: Result<(), DmxError>)
        requires
            old(self).wf(),
        ensures
            final(self).wf(),
            final(self).same_settings(old(self)),
            final(self).frame_view() == old(self).frame_view(),
            r matches Err(e) ==> e matches DmxError::Device { op, .. } && op == DeviceOp::Close,
    {
        match ftdi_close(&mut self.ftdi) {
            Ok(()) => Ok(()),
            Err(code) => Err(DmxError::Device { op: DeviceOp::Close, code }),
        }
    }

    /// How many devices the driver sees, usable without an open session.
    pub fn get_num_of_devices() -> (r: Result<u32, DmxError>)
        ensures
            r matches Err(e) ==> e matches DmxError::Device { op, .. } && op
                == DeviceOp::Enumerate,
    {
        match ftdi_num_devices() {
            Ok(n) => Ok(n),
            Err(code) => Err(DmxError::Device { op: DeviceOp::Enumerate, code }),
        }
    }

    /// Enumerate the attached devices, usable without an open session. Each
    /// vendor descriptor is converted to the library's descriptor, one for
    /// one and in the vendor's sorted order, so the result holds one
    /// descriptor per enumerated device.
    pub fn list_devices() -> (r: Result<Vec<DmxDeviceInfo>, DmxError>)
        ensures
            r matches Err(e) ==> e matches DmxError::Device { op, .. } && op
                == DeviceOp::Enumerate,
    {
        match ftdi_list_devices() {
            Ok(raw) => Ok(convert_infos(&raw)),
            Err(code) => Err(DmxError::Device { op: DeviceOp::Enumerate, code }),
        }
    }

    /// The descriptor of this session's device, as read when it was opened.
    pub fn get_device_info(&self) -> (r: &DmxDeviceInfo)
        ensures
            *r == self.info_spec(),
    {
        &self.info
    }

    /// Assert (`on`) or deassert the BREAK condition. Returns whether the
    /// transport accepted the signal; a refusal is recoverable — the caller
    /// skips the rest of the cycle and tries again next cycle. The frame is
    /// never touched.
    pub fn set_break(&mut self, on: bool) -> (r: bool)
        requires
            old(self).wf(),
        ensures
            final(self).wf(),
            final(self).same_settings(old(self)),
            final(self).frame_view() == old(self).frame_view(),
    {
        if on {
            ftdi_set_break_on(&mut self.ftdi).is_ok()
        } else {
            ftdi_set_break_off(&mut self.ftdi).is_ok()
        }
    }

    /// The device's queue and event counters.
    pub fn get_device_status(&mut self) -> (r: Result<DmxDeviceStatus, DmxError>)
        requires
            old(self).wf(),
        ensures
            final(self).wf(),
            final(self).same_settings(old(self)),
            final(self).frame_view() == old(self).frame_view(),
            r matches Err(e) ==> e matches DmxError::Device { op, .. } && op
                == DeviceOp::QueryStatus,
    {
        match ftdi_status(&mut self.ftdi) {
            Ok(s) => Ok(s),
            Err(code) => Err(DmxError::Device { op: DeviceOp::QueryStatus, code }),
        }
    }

    /// Emit one frame: assert BREAK, deassert it, and hand the whole frame
    /// to the transport. Any step may fail; the error names the step, the
    /// frame is never touched, and the caller treats the failure as one
    /// dropped frame, never as fatal.
    pub fn write(&mut self) -> (r: Result<(), DmxError>)
        requires
            old(self).wf(),
        ensures
            final(self).wf(),
            final(self).same_settings(old(self)),
            final(self).frame_view() == old(self).frame_view(),
            r matches Err(e) ==> ((e matches DmxError::Device { op, .. } && (op
                == DeviceOp::BreakOn || op == DeviceOp::BreakOff || op == DeviceOp::WriteData))
                || (e matches DmxError::Timeout { op, .. } && op == DeviceOp::WriteData)),
    {
        if let Err(code) = ftdi_set_break_on(&mut self.ftdi) {
            return Err(DmxError::Device { op: DeviceOp::BreakOn, code });
        }
        if let Err(code) = ftdi_set_break_off(&mut self.ftdi) {
            return Err(DmxError::Device { op: DeviceOp::BreakOff, code });
        }
        match ftdi_write_all(&mut self.ftdi, self.buffer.bytes()) {
            Ok(()) => Ok(()),
            Err(f) => Err(transfer_error(DeviceOp::WriteData, f)),
        }
    }

    /// Zero every slot of the frame, the start code included.
    pub fn reset_buffer(&mut self)
        requires
            old(self).wf(),
        ensures
            final(self).wf(),
            final(self).same_settings(old(self)),
            forall|i: int| 0 <= i < BUFFER_SIZE ==> final(self).frame_view()[i] == 0u8,
    {
        self.buffer.clear();
    }

    /// Drain one batch of queued commands: apply every command to the frame
    /// in send order, perform the requested side effects (line resets and
    /// enumerations, whose failures are swallowed as the loop must survive
    /// them), and return the stop decision together with the owed
    /// responses: exactly one `DeviceList` per `ListDevices`, in order.
    pub fn drain(&mut self, cmds: &Vec<OpenDmxProtocol>) -> (r: (bool, Vec<OpenDmxProtocol>))
        requires
            old(self).wf(),
        ensures
            final(self).wf(),
            final(self).same_settings(old(self)),
            final(self).frame_view() == frame_after(old(self).frame_view(), cmds@),
            r.0 == stop_requested(cmds@),
            r.1@.len() == crate::control::list_devices_count(cmds@),
            forall|i: int| 0 <= i < r.1@.len() ==> r.1@[i] is DeviceList,
    {
        proof {
            crate::control::lemma_one_response_per_list_devices(cmds@);
        }
        let (stop, effects) = drain_frame_commands(&mut self.buffer, cmds);
        let mut responses: Vec<OpenDmxProtocol> = Vec::new();
        let mut i: usize = 0;
        while i < effects.len()
            invariant
                i <= effects@.len(),
                self.wf(),
                self.same_settings(old(self)),
                self.frame_view() == frame_after(old(self).frame_view(), cmds@),
                responses@.len() == count_enumerate(effects@.subrange(0, i as int)),
                forall|j: int| 0 <= j < responses@.len() ==> responses@[j] is DeviceList,
                effects@ == effects_of(cmds@),
            decreases effects@.len() - i,
        {
            proof {
                assert(effects@.subrange(0, i + 1) =~= effects@.subrange(0, i as int).push(
                    effects@[i as int],
                ));
                crate::control::lemma_count_enumerate_snoc(
                    effects@.subrange(0, i as int),
                    effects@[i as int],
                );
            }
            match effects[i] {
                SideEffect::LineReset => {
                    let _ = self.reset();
                },
                SideEffect::Enumerate => {
                    responses.push(device_list_response(Self::list_devices()));
                },
            }
            i = i + 1;
        }
        proof {
            assert(effects@.subrange(0, effects@.len() as int) =~= effects@);
        }
        (stop, responses)
    }

    /// End the session safely: zero the frame, write the all-zero frame to
    /// the transport, and release the handle. Each step is attempted even
    /// when an earlier one failed, so the device is released best-effort;
    /// the frame ends all zero, which makes the final frame on the wire the
    /// lights-off state.
    pub fn shutdown(&mut self)
        requires
            old(self).wf(),
        ensures
            final(self).wf(),
            final(self).same_settings(old(self)),
            final(self).frame_view() == crate::control::zero_frame(),
    {
        self.reset_buffer();
        proof {
            assert(self.frame_view() =~= crate::control::zero_frame());
        }
        let _ = self.write();
        let _ = self.close();
    }
}

/// Convert a sequence of vendor descriptors to the library's descriptors,
/// one for one and in order: one output descriptor per enumerated device,
/// none dropped, none duplicated.
pub fn convert_infos(raw: &Vec<libftd2xx::DeviceInfo>) -> (r: Vec<DmxDeviceInfo>)
    ensures
        r@.len() == raw@.len(),
{
    let mut out: Vec<DmxDeviceInfo> = Vec::new();
    let mut i: usize = 0;
    while i < raw.len()
        invariant
            i <= raw@.len(),
            out@.len() == i,
        decreases raw@.len() - i,
    {
        out.push(info_of(&raw[i]));
        i = i + 1;
    }
    out
}

/// Map a bulk-transfer failure to the library's error for the given
/// operation.
fn transfer_error(op: DeviceOp, f: crate::transport::TransferFailure) -> (r: DmxError)
    ensures
        f matches crate::transport::TransferFailure::Status(code) ==> r == (DmxError::Device {
            op,
            code,
        }),
        f matches crate::transport::TransferFailure::Short { actual, expected } ==> (r
            == (DmxError::Timeout { op, actual, expected })),
{
    match f {
        crate::transport::TransferFailure::Status(code) => DmxError::Device { op, code },
        crate::transport::TransferFailure::Short { actual, expected } => DmxError::Timeout {
            op,
            actual,
            expected,
        },
    }
}

} // verus!
