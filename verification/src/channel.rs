//! The probe channel's control logic: the lifecycle of a channel instance
//! and the decision its capture loop takes on each event. The loop itself
//! performs blocking reads on a raw transport and forwards raw datagrams to
//! a single consumer, so it runs outside the library; each turn it hands the
//! event it observed to `capture_step` and obeys the returned decision.

use vstd::prelude::*;

verus! {

/// The lifecycle of one probe channel: not yet opened, opened with a live
/// capture loop, or torn down.
#[derive(Clone, Copy, Debug, PartialEq, Eq, Structural)]
pub enum ChannelState {
    Uninitialized,
    Running,
    Closed,
}

/// What the capture loop observed on one turn: a complete datagram read
/// from the raw transport, a failed read, or a forwarding queue whose
/// consumer is gone.
#[derive(Clone, Copy, Debug, PartialEq, Eq, Structural)]
pub enum CaptureEvent {
    DatagramRead,
    ReadFailed,
    ConsumerGone,
}

/// What the capture loop does next: forward the datagram it read and keep
/// looping, or exit.
#[derive(Clone, Copy, Debug, PartialEq, Eq, Structural)]
pub enum CaptureAction {
    Forward,
    Exit,
}

/// Decides one turn of the capture loop. A datagram read while the channel
/// runs is forwarded, unparsed, and the loop goes on; a failed read or a
/// departed consumer closes the channel and ends the loop, silently. The
/// loop never runs outside the Running state.
pub fn capture_step(state: ChannelState, event: CaptureEvent) -> (r: (ChannelState, CaptureAction))
    ensures
        r.1 == CaptureAction::Forward <==> (state == ChannelState::Running && event
            == CaptureEvent::DatagramRead),
        r.0 == ChannelState::Running <==> (state == ChannelState::Running && event
            == CaptureEvent::DatagramRead),
        r.0 == ChannelState::Running || r.0 == ChannelState::Closed,
{
    match (state, event) {
        (ChannelState::Running, CaptureEvent::DatagramRead) => (
            ChannelState::Running,
            CaptureAction::Forward,
        ),
        _ => (ChannelState::Closed, CaptureAction::Exit),
    }
}

} // verus!
