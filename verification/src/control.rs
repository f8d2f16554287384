//! The actor protocol of the transmission loop and the verified drain step:
//! commands arrive serialized on a queue, are applied to the channel frame
//! in send order, and yield the side effects (line reconfiguration, device
//! enumeration) and the stop decision for the cycle. The loop shell that
//! pulls from the real queue performs the waiting and hands each batch to
//! the functions here.

use vstd::prelude::*;

use crate::errors::DmxError;
use crate::frame::DmxFrame;
use crate::session::DmxDeviceInfo;
use crate::BUFFER_SIZE;

verus! {

/// A message of the actor protocol, into or out of the transmission loop.
#[derive(Debug)]
pub enum OpenDmxProtocol {
    /// Into the loop: store the value for the given channel in the frame.
    SetValue(usize, u8),
    /// Into the loop: stop transmitting and release the session.
    Stop,
    /// Into the loop: rerun the line configuration without terminating.
    Reset,
    /// Into the loop: zero every slot of the frame.
    ResetBuffer,
    /// Into the loop: enumerate attached devices asynchronously.
    ListDevices,
    /// Out of the loop: the reply to `ListDevices`, and the only reply the
    /// loop ever sends.
    DeviceList(Vec<DmxDeviceInfo>),
}

/// A side effect that a drained command asks the session to perform.
#[derive(Clone, Copy, Debug, PartialEq, Eq, Structural)]
pub enum SideEffect {
    /// Rerun the transport's line configuration.
    LineReset,
    /// Enumerate attached devices and post one `DeviceList` response.
    Enumerate,
}

/// The all-zero frame: the state at session start and the safe state
/// written at shutdown.
pub open spec fn zero_frame() -> Seq<u8> {
    Seq::new(BUFFER_SIZE as nat, |i: int| 0u8)
}

/// What one command does to the frame: a `SetValue` on a valid channel
/// writes that slot, `ResetBuffer` zeroes everything, and every other
/// command leaves the frame untouched.
pub open spec fn apply_cmd_spec(frame: Seq<u8>, cmd: OpenDmxProtocol) -> Seq<u8> {
    match cmd {
        OpenDmxProtocol::SetValue(c, v) => if DmxFrame::valid_channel(c) {
            frame.update(c as int, v)
        } else {
            frame
        },
        OpenDmxProtocol::ResetBuffer => zero_frame(),
        _ => frame,
    }
}

/// The frame after draining a whole command batch, first command first.
pub open spec fn frame_after(frame: Seq<u8>, cmds: Seq<OpenDmxProtocol>) -> Seq<u8>
    decreases cmds.len(),
{
    if cmds.len() == 0 {
        frame
    } else {
        frame_after(apply_cmd_spec(frame, cmds[0]), cmds.subrange(1, cmds.len() as int))
    }
}

/// Whether a command batch asks the loop to stop. Draining continues past a
/// `Stop`: later commands are still applied, but no further frame is
/// transmitted once the batch is drained.
pub open spec fn stop_requested(cmds: Seq<OpenDmxProtocol>) -> bool
    decreases cmds.len(),
{
    if cmds.len() == 0 {
        false
    } else {
        (cmds[0] is Stop) || stop_requested(cmds.subrange(1, cmds.len() as int))
    }
}

/// The side effect a single command requests, if any.
pub open spec fn effect_of(cmd: OpenDmxProtocol) -> Option<SideEffect> {
    match cmd {
        OpenDmxProtocol::Reset => Some(SideEffect::LineReset),
        OpenDmxProtocol::ListDevices => Some(SideEffect::Enumerate),
        _ => None,
    }
}

/// The side effects a command batch requests, in command order.
pub open spec fn effects_of(cmds: Seq<OpenDmxProtocol>) -> Seq<SideEffect>
    decreases cmds.len(),
{
    if cmds.len() == 0 {
        Seq::empty()
    } else {
        let rest = effects_of(cmds.subrange(1, cmds.len() as int));
        match effect_of(cmds[0]) {
            Some(e) => seq![e] + rest,
            None => rest,
        }
    }
}

/// How many enumerations a side-effect sequence holds: one `DeviceList`
/// response is owed for each.
pub open spec fn count_enumerate(effects: Seq<SideEffect>) -> nat
    decreases effects.len(),
{
    if effects.len() == 0 {
        0nat
    } else {
        (if effects[0] is Enumerate {
            1nat
        } else {
            0nat
        }) + count_enumerate(effects.subrange(1, effects.len() as int))
    }
}

/// Appending one command to a batch applies it last.
pub proof fn lemma_frame_after_snoc(frame: Seq<u8>, cmds: Seq<OpenDmxProtocol>, cmd: OpenDmxProtocol)
    ensures
        frame_after(frame, cmds.push(cmd)) == apply_cmd_spec(frame_after(frame, cmds), cmd),
    decreases cmds.len(),
{
    let s = cmds.push(cmd);
    if cmds.len() == 0 {
        assert(s[0] == cmd);
        assert(s.subrange(1, s.len() as int) =~= Seq::<OpenDmxProtocol>::empty());
        assert(frame_after(apply_cmd_spec(frame, cmd), Seq::<OpenDmxProtocol>::empty())
            == apply_cmd_spec(frame, cmd));
        assert(frame_after(frame, s) == apply_cmd_spec(frame, cmd));
    } else {
        assert(s[0] == cmds[0]);
        assert(s.subrange(1, s.len() as int) =~= cmds.subrange(1, cmds.len() as int).push(cmd));
        lemma_frame_after_snoc(
            apply_cmd_spec(frame, cmds[0]),
            cmds.subrange(1, cmds.len() as int),
            cmd,
        );
    }
}

/// Appending one command to a batch can only add a stop request.
pub proof fn lemma_stop_requested_snoc(cmds: Seq<OpenDmxProtocol>, cmd: OpenDmxProtocol)
    ensures
        stop_requested(cmds.push(cmd)) == (stop_requested(cmds) || cmd is Stop),
    decreases cmds.len(),
{
    let s = cmds.push(cmd);
    if cmds.len() == 0 {
        assert(s[0] == cmd);
        assert(s.subrange(1, s.len() as int) =~= Seq::<OpenDmxProtocol>::empty());
        assert(stop_requested(Seq::<OpenDmxProtocol>::empty()) == false);
        assert(stop_requested(s) == (cmd is Stop));
    } else {
        assert(s[0] == cmds[0]);
        assert(s.subrange(1, s.len() as int) =~= cmds.subrange(1, cmds.len() as int).push(cmd));
        lemma_stop_requested_snoc(cmds.subrange(1, cmds.len() as int), cmd);
    }
}

/// Appending one command to a batch appends its side effect, if it has one.
pub proof fn lemma_effects_snoc(cmds: Seq<OpenDmxProtocol>, cmd: OpenDmxProtocol)
    ensures
        effects_of(cmds.push(cmd)) == (match effect_of(cmd) {
            Some(e) => effects_of(cmds).push(e),
            None => effects_of(cmds),
        }),
    decreases cmds.len(),
{
    let s = cmds.push(cmd);
    if cmds.len() == 0 {
        assert(s[0] == cmd);
        assert(s.subrange(1, s.len() as int) =~= Seq::<OpenDmxProtocol>::empty());
        assert(effects_of(Seq::<OpenDmxProtocol>::empty()) =~= Seq::<SideEffect>::empty());
        match effect_of(cmd) {
            Some(e) => {
                assert(effects_of(s) =~= effects_of(cmds).push(e));
            },
            None => {
                assert(effects_of(s) =~= effects_of(cmds));
            },
        }
    } else {
        assert(s[0] == cmds[0]);
        assert(s.subrange(1, s.len() as int) =~= cmds.subrange(1, cmds.len() as int).push(cmd));
        lemma_effects_snoc(cmds.subrange(1, cmds.len() as int), cmd);
        match effect_of(cmd) {
            Some(e) => {
                assert(effects_of(s) =~= effects_of(cmds).push(e));
            },
            None => {
                assert(effects_of(s) =~= effects_of(cmds));
            },
        }
    }
}

/// Appending one side effect to a sequence raises the enumeration count by
/// one exactly when it is an enumeration.
pub proof fn lemma_count_enumerate_snoc(effects: Seq<SideEffect>, e: SideEffect)
    ensures
        count_enumerate(effects.push(e)) == count_enumerate(effects) + (if e is Enumerate {
            1nat
        } else {
            0nat
        }),
    decreases effects.len(),
{
    let s = effects.push(e);
    if effects.len() == 0 {
        assert(s[0] == e);
        assert(s.subrange(1, s.len() as int) =~= Seq::<SideEffect>::empty());
        assert(count_enumerate(Seq::<SideEffect>::empty()) == 0);
    } else {
        assert(s[0] == effects[0]);
        assert(s.subrange(1, s.len() as int) =~= effects.subrange(1, effects.len() as int).push(
            e,
        ));
        lemma_count_enumerate_snoc(effects.subrange(1, effects.len() as int), e);
    }
}

/// Drain one command batch into the frame. The frame ends exactly as the
/// batch prescribes, the stop flag is raised exactly when the batch holds a
/// `Stop`, and the requested side effects come back in command order; no
/// transport outcome has any part in the stop decision.
pub fn drain_frame_commands(frame: &mut DmxFrame, cmds: &Vec<OpenDmxProtocol>) -> (r: (
    bool,
    Vec<SideEffect>,
))
    requires
        old(frame).wf(),
    ensures
        final(frame).wf(),
        final(frame)@ == frame_after(old(frame)@, cmds@),
        r.0 == stop_requested(cmds@),
        r.1@ == effects_of(cmds@),
{
    let mut stop: bool = false;
    let mut effects: Vec<SideEffect> = Vec::new();
    let mut i: usize = 0;
    while i < cmds.len()
        invariant
            i <= cmds@.len(),
            frame.wf(),
            frame@ == frame_after(old(frame)@, cmds@.subrange(0, i as int)),
            stop == stop_requested(cmds@.subrange(0, i as int)),
            effects@ == effects_of(cmds@.subrange(0, i as int)),
        decreases cmds@.len() - i,
    {
        proof {
            assert(cmds@.subrange(0, i + 1) =~= cmds@.subrange(0, i as int).push(cmds@[i as int]));
            lemma_frame_after_snoc(old(frame)@, cmds@.subrange(0, i as int), cmds@[i as int]);
            lemma_stop_requested_snoc(cmds@.subrange(0, i as int), cmds@[i as int]);
            lemma_effects_snoc(cmds@.subrange(0, i as int), cmds@[i as int]);
        }
        match &cmds[i] {
            OpenDmxProtocol::SetValue(c, v) => {
                let _ = frame.set(*c, *v);
            },
            OpenDmxProtocol::Stop => {
                stop = true;
            },
            OpenDmxProtocol::Reset => {
                effects.push(SideEffect::LineReset);
            },
            OpenDmxProtocol::ResetBuffer => {
                frame.clear();
                proof {
                    assert(frame@.len() == zero_frame().len());
                    assert forall|k: int| 0 <= k < frame@.len() implies frame@[k]
                        == zero_frame()[k] by {}
                    assert(frame@ =~= zero_frame());
                }
            },
            OpenDmxProtocol::ListDevices => {
                effects.push(SideEffect::Enumerate);
            },
            OpenDmxProtocol::DeviceList(_) => {},
        }
        i = i + 1;
    }
    proof {
        assert(cmds@.subrange(0, cmds@.len() as int) =~= cmds@);
    }
    (stop, effects)
}

/// Build the single response owed for one enumeration: always a
/// `DeviceList`, carrying the enumerated descriptors on success and an
/// empty list when enumeration failed.
pub fn device_list_response(result: Result<Vec<DmxDeviceInfo>, DmxError>) -> (r: OpenDmxProtocol)
    ensures
        r is DeviceList,
        result matches Ok(l) ==> r == OpenDmxProtocol::DeviceList(l),
        result is Err ==> (r matches OpenDmxProtocol::DeviceList(v) && v@.len() == 0),
{
    match result {
        Ok(l) => OpenDmxProtocol::DeviceList(l),
        Err(_) => OpenDmxProtocol::DeviceList(Vec::new()),
    }
}

/// A batch asks the loop to stop exactly when one of its commands is
/// `Stop`: no other command, and no transport failure, ever stops the
/// transmission loop.
pub proof fn lemma_stop_requested_iff(cmds: Seq<OpenDmxProtocol>)
    ensures
        stop_requested(cmds) <==> exists|i: int| 0 <= i < cmds.len() && cmds[i] is Stop,
    decreases cmds.len(),
{
    if cmds.len() > 0 {
        lemma_stop_requested_iff(cmds.subrange(1, cmds.len() as int));
        let rest = cmds.subrange(1, cmds.len() as int);
        if stop_requested(cmds) {
            if cmds[0] is Stop {
                assert(cmds[0] is Stop);
            } else {
                let j = choose|j: int| 0 <= j < rest.len() && rest[j] is Stop;
                assert(cmds[j + 1] is Stop);
            }
        }
        if exists|i: int| 0 <= i < cmds.len() && cmds[i] is Stop {
            let i = choose|i: int| 0 <= i < cmds.len() && cmds[i] is Stop;
            if i > 0 {
                assert(rest[i - 1] is Stop);
            }
        }
    }
}

/// How many `ListDevices` commands a batch holds.
pub open spec fn list_devices_count(cmds: Seq<OpenDmxProtocol>) -> nat
    decreases cmds.len(),
{
    if cmds.len() == 0 {
        0nat
    } else {
        (if cmds[0] is ListDevices {
            1nat
        } else {
            0nat
        }) + list_devices_count(cmds.subrange(1, cmds.len() as int))
    }
}

/// Exactly one enumeration — and with it exactly one `DeviceList` response —
/// is owed per `ListDevices` command in a batch, whatever else the batch
/// holds.
pub proof fn lemma_one_response_per_list_devices(cmds: Seq<OpenDmxProtocol>)
    ensures
        count_enumerate(effects_of(cmds)) == list_devices_count(cmds),
    decreases cmds.len(),
{
    if cmds.len() > 0 {
        let rest = cmds.subrange(1, cmds.len() as int);
        lemma_one_response_per_list_devices(rest);
        match effect_of(cmds[0]) {
            Some(e) => {
                let s = seq![e] + effects_of(rest);
                assert(s[0] == e);
                assert(s.subrange(1, s.len() as int) =~= effects_of(rest));
            },
            None => {},
        }
    }
}

/// Two writes to the same channel in one batch leave the second value in
/// the frame: within a cycle, the last write wins, and that value is what
/// the next transmitted frame carries for the channel.
pub proof fn lemma_set_twice_last_wins(frame: Seq<u8>, channel: usize, v1: u8, v2: u8)
    requires
        frame.len() == BUFFER_SIZE,
        DmxFrame::valid_channel(channel),
    ensures
        frame_after(
            frame,
            seq![
                OpenDmxProtocol::SetValue(channel, v1),
                OpenDmxProtocol::SetValue(channel, v2),
            ],
        ) == frame.update(channel as int, v2),
{
    let cmds = seq![
        OpenDmxProtocol::SetValue(channel, v1),
        OpenDmxProtocol::SetValue(channel, v2),
    ];
    let rest = cmds.subrange(1, cmds.len() as int);
    assert(rest[0] == OpenDmxProtocol::SetValue(channel, v2));
    assert(rest.subrange(1, rest.len() as int) =~= Seq::<OpenDmxProtocol>::empty());
    let once = frame.update(channel as int, v1);
    let twice = once.update(channel as int, v2);
    assert(cmds[0] == OpenDmxProtocol::SetValue(channel, v1));
    assert(frame_after(frame, cmds) == frame_after(once, rest));
    assert(frame_after(once, rest) == frame_after(twice, rest.subrange(1, rest.len() as int)));
    assert(frame_after(twice, Seq::<OpenDmxProtocol>::empty()) == twice);
    assert(twice =~= frame.update(channel as int, v2));
}

/// A `ListDevices` command is pure toward the frame and the stop decision:
/// it requests exactly one enumeration (hence exactly one `DeviceList`
/// response), leaves every slot as it was, and keeps the loop running.
pub proof fn lemma_list_devices_is_pure(frame: Seq<u8>)
    ensures
        apply_cmd_spec(frame, OpenDmxProtocol::ListDevices) == frame,
        !stop_requested(seq![OpenDmxProtocol::ListDevices]),
        effects_of(seq![OpenDmxProtocol::ListDevices]) =~= seq![SideEffect::Enumerate],
        count_enumerate(seq![SideEffect::Enumerate]) == 1,
{
    let cmds = seq![OpenDmxProtocol::ListDevices];
    assert(cmds.subrange(1, cmds.len() as int) =~= Seq::<OpenDmxProtocol>::empty());
    assert(!stop_requested(Seq::<OpenDmxProtocol>::empty()));
    assert(effects_of(Seq::<OpenDmxProtocol>::empty()) =~= Seq::<SideEffect>::empty());
    assert(effects_of(cmds) =~= seq![SideEffect::Enumerate]);
    let effs = seq![SideEffect::Enumerate];
    assert(effs.subrange(1, effs.len() as int) =~= Seq::<SideEffect>::empty());
    assert(count_enumerate(Seq::<SideEffect>::empty()) == 0);
}

} // verus!
