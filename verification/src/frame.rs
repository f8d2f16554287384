//! The local image of one DMX frame: 513 byte slots, of which slot 0 is the
//! protocol start code and slots 1..=512 are the addressable channels. The
//! frame is owned exclusively by the transmission loop; all outside mutation
//! arrives serialized through the command channel.

use vstd::prelude::*;

use crate::errors::DmxError;
use crate::BUFFER_SIZE;

verus! {

/// A DMX channel frame. The view is the sequence of all 513 slot values,
/// start code first.
pub struct DmxFrame {
    slots: Vec<u8>,
}

impl DmxFrame {
    /// The frame as a mathematical sequence of byte values, slot 0 first.
    pub closed spec fn view(&self) -> Seq<u8> {
        self.slots@
    }

    /// A frame is well formed when it holds exactly one slot per DMX
    /// position: the start code and 512 channels.
    pub open spec fn wf(&self) -> bool {
        self@.len() == BUFFER_SIZE
    }

    /// Channels address the payload slots 1..=512; slot 0 is the start code
    /// and is not addressable as a channel.
    pub open spec fn valid_channel(channel: usize) -> bool {
        1 <= channel < BUFFER_SIZE
    }

    /// A fresh frame: every slot zero.
    pub fn new() -> (frame: DmxFrame)
        ensures
            frame.wf(),
            forall|i: int| 0 <= i < BUFFER_SIZE ==> frame@[i] == 0u8,
    {
        let mut slots: Vec<u8> = Vec::new();
        let mut i: usize = 0;
        while i < BUFFER_SIZE
            invariant
                i <= BUFFER_SIZE,
                slots@.len() == i,
                forall|j: int| 0 <= j < i ==> slots@[j] == 0u8,
            decreases BUFFER_SIZE - i,
        {
            slots.push(0u8);
            i = i + 1;
        }
        DmxFrame { slots }
    }

    /// Store `value` in the slot of channel `channel`. A channel outside
    /// 1..=512 is rejected and the frame is left unchanged; a valid channel
    /// always succeeds, and no other slot moves.
    pub fn set(&mut self, channel: usize, value: u8) -> (r: Result<(), DmxError>)
        requires
            old(self).wf(),
        ensures
            final(self).wf(),
            Self::valid_channel(channel) ==> r is Ok
                && final(self)@ == old(self)@.update(channel as int, value),
            !Self::valid_channel(channel) ==> r == Result::<(), DmxError>::Err(
                DmxError::InvalidChannel,
            ) && final(self)@ == old(self)@,
    {
        if channel == 0 || channel >= BUFFER_SIZE {
            return Err(DmxError::InvalidChannel);
        }
        self.slots[channel] = value;
        Ok(())
    }

    /// The value last stored for `channel`, 0 for an untouched channel. A
    /// channel outside 1..=512 is rejected; the frame never changes.
    pub fn get(&self, channel: usize) -> (r: Result<u8, DmxError>)
        requires
            self.wf(),
        ensures
            Self::valid_channel(channel) ==> r == Result::<u8, DmxError>::Ok(
                self@[channel as int],
            ),
            !Self::valid_channel(channel) ==> r == Result::<u8, DmxError>::Err(
                DmxError::InvalidChannel,
            ),
    {
        if channel == 0 || channel >= BUFFER_SIZE {
            return Err(DmxError::InvalidChannel);
        }
        Ok(self.slots[channel])
    }

    /// Reset every slot to zero, the start code included.
    pub fn clear(&mut self)
        requires
            old(self).wf(),
        ensures
            final(self).wf(),
            forall|i: int| 0 <= i < BUFFER_SIZE ==> final(self)@[i] == 0u8,
    {
        let mut i: usize = 0;
        while i < BUFFER_SIZE
            invariant
                i <= BUFFER_SIZE,
                self.wf(),
                forall|j: int| 0 <= j < i ==> self@[j] == 0u8,
            decreases BUFFER_SIZE - i,
        {
            self.slots[i] = 0u8;
            i = i + 1;
        }
    }

    /// Overwrite the frame element-wise from a received byte sequence, up to
    /// the frame's length. A shorter input leaves the trailing slots
    /// unchanged: this mirrors a best-effort resync, not a full overwrite.
    pub fn synchronize(&mut self, raw: &Vec<u8>)
        requires
            old(self).wf(),
        ensures
            final(self).wf(),
            forall|i: int|
                0 <= i < BUFFER_SIZE && i < raw@.len() ==> final(self)@[i] == raw@[i],
            forall|i: int|
                raw@.len() <= i < BUFFER_SIZE ==> final(self)@[i] == old(self)@[i],
    {
        let mut i: usize = 0;
        while i < BUFFER_SIZE && i < raw.len()
            invariant
                self.wf(),
                i <= BUFFER_SIZE,
                i <= raw@.len(),
                forall|j: int| 0 <= j < i ==> self@[j] == raw@[j],
                forall|j: int| i <= j < BUFFER_SIZE ==> self@[j] == old(self)@[j],
            decreases BUFFER_SIZE - i,
        {
            self.slots[i] = raw[i];
            i = i + 1;
        }
    }

    /// The slots as a plain byte vector, for handing the frame to the
    /// transport.
    pub fn bytes(&self) -> (r: &Vec<u8>)
        ensures
            r@ == self@,
    {
        &self.slots
    }
}

/// Writing a channel and reading it back yields the written value, and no
/// other channel moves; an invalid index fails on both operations and
/// leaves the frame as it was.
pub proof fn lemma_set_then_get(frame0: DmxFrame, frame1: DmxFrame, channel: usize, value: u8)
    requires
        frame0.wf(),
        DmxFrame::valid_channel(channel) ==> frame1@ == frame0@.update(channel as int, value),
        !DmxFrame::valid_channel(channel) ==> frame1@ == frame0@,
    ensures
        DmxFrame::valid_channel(channel) ==> frame1@[channel as int] == value,
        DmxFrame::valid_channel(channel) ==> forall|i: int|
            0 <= i < BUFFER_SIZE && i != channel ==> frame1@[i] == frame0@[i],
        !DmxFrame::valid_channel(channel) ==> frame1@ == frame0@,
{
}

/// Clearing the frame and then reading any valid channel yields 0, the
/// default value of an untouched channel.
pub proof fn lemma_clear_then_get(frame: DmxFrame, channel: usize)
    requires
        frame.wf(),
        forall|i: int| 0 <= i < BUFFER_SIZE ==> frame@[i] == 0u8,
        DmxFrame::valid_channel(channel),
    ensures
        frame@[channel as int] == 0u8,
{
}

/// Writing the same channel twice leaves the second value: last write wins
/// within a cycle.
pub proof fn lemma_last_write_wins(s: Seq<u8>, channel: usize, v1: u8, v2: u8)
    requires
        s.len() == BUFFER_SIZE,
        DmxFrame::valid_channel(channel),
    ensures
        s.update(channel as int, v1).update(channel as int, v2) == s.update(
            channel as int,
            v2,
        ),
{
    assert(s.update(channel as int, v1).update(channel as int, v2) =~= s.update(
        channel as int,
        v2,
    ));
}

} // verus!
