//! Driver core for a DMX512 lighting universe behind an FTDI USB-to-serial
//! bridge: a 513-slot channel frame (slot 0 is the start code), an
//! actor-style command protocol with a verified drain step, a timing
//! granularity probe and a frame pacer, and a device session whose transport
//! calls go through a small trusted layer.

use vstd::prelude::*;

pub mod control;
pub mod errors;
pub mod frame;
pub mod session;
pub mod timing;
pub mod transport;

verus! {

/// Number of byte slots in one DMX frame: the start code plus 512 channels.
pub const BUFFER_SIZE: usize = 513;

/// Nominal BREAK duration in microseconds, held by an explicit sleep when
/// the host timer is fine-grained enough.
pub const DMX_BREAK: u64 = 110;

/// Nominal Mark-After-Break duration in microseconds.
pub const DMX_MAB: u64 = 16;

} // verus!
