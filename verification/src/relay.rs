//! The relay loop's decisions: what to do with each thing that happens to a
//! stream's inbound track.
//!
//! Reading a packet and writing it to a sink are the caller's work. The
//! outcome of a write is not an input of the relay: a failed write changes
//! neither the loop nor the stream's receivers.

use vstd::prelude::*;
use crate::state::AppState;

verus! {

/// What happened while the relay waited.
#[derive(Debug, Clone, Copy, PartialEq, Eq, Structural)]
pub enum RelayEvent {
    /// The next packet was read from the inbound track.
    Packet,
    /// Reading from the inbound track failed, or the track closed.
    ReadFailed,
    /// The stream's cancellation signal was received.
    Shutdown,
}

/// What the relay's caller does next.
#[derive(Debug, Clone)]
pub enum RelayAction {
    /// Write the packet to each of `targets`, independently, and wait again.
    Deliver { targets: Vec<u64> },
    /// Leave the loop.
    Stop,
}

/// The relay of one stream.
#[derive(Debug, Clone)]
pub struct Relay {
    pub stream_id: String,
    pub source_track: u64,
    pub running: bool,
}

/// The receivers of `stream_id` as the registry holds them; none where the
/// stream is not live.
pub open spec fn snapshot(state: crate::state::AppStateView, stream_id: Seq<char>) -> Seq<u64> {
    if state.streams.dom().contains(stream_id) {
        state.streams[stream_id].receivers
    } else {
        Seq::empty()
    }
}

/// A relay for the stream `stream_id`, which reads from `source_track`.
pub fn start_relay_loop(stream_id: String, source_track: u64) -> (relay: Relay)
    ensures
        relay.stream_id@ == stream_id@,
        relay.source_track == source_track,
        relay.running,
{
    Relay { stream_id, source_track, running: true }
}

impl Relay {
    /// Decides on one event. A packet read while the relay runs goes to every
    /// receiver that the stream has at this moment, in the order in which they
    /// subscribed. A failed read or the cancellation signal ends the relay,
    /// and an ended relay stays ended. The registry is only read.
    pub fn on_event(&mut self, state: &AppState, event: RelayEvent) -> (action: RelayAction)
        ensures
            final(self).stream_id == old(self).stream_id,
            final(self).source_track == old(self).source_track,
            final(self).running == (old(self).running && event == RelayEvent::Packet),
            final(self).running ==> (action matches RelayAction::Deliver { targets }
                && targets@ == snapshot(state@, old(self).stream_id@)),
            !final(self).running ==> action is Stop,
    {
        if !self.running {
            return RelayAction::Stop;
        }
        match event {
            RelayEvent::Packet => {
                let targets = state.receivers_of(self.stream_id.as_str());
                RelayAction::Deliver { targets }
            },
            RelayEvent::ReadFailed => {
                self.running = false;
                RelayAction::Stop
            },
            RelayEvent::Shutdown => {
                self.running = false;
                RelayAction::Stop
            },
        }
    }
}

/// Every receiver subscribed before a packet is read is among the targets
/// of that packet, at its own position.
pub proof fn lemma_fan_out_reaches_all(state: crate::state::AppStateView, stream_id: Seq<char>, i: int)
    requires
        state.streams.dom().contains(stream_id),
        0 <= i < state.streams[stream_id].receivers.len(),
    ensures
        snapshot(state, stream_id).len() == state.streams[stream_id].receivers.len(),
        snapshot(state, stream_id)[i] == state.streams[stream_id].receivers[i],
{
}

/// A receiver is among the targets of every packet read after its
/// subscription, and the receivers before it keep their places.
pub proof fn lemma_late_subscriber(state: crate::state::AppStateView, stream_id: Seq<char>, track: u64)
    requires
        state.streams.dom().contains(stream_id),
    ensures
        snapshot(state.with_receiver(stream_id, track), stream_id) == snapshot(state, stream_id).push(track),
        snapshot(state.with_receiver(stream_id, track), stream_id).contains(track),
        forall|other: Seq<char>|
            other != stream_id ==> #[trigger] snapshot(state.with_receiver(stream_id, track), other)
                == snapshot(state, other),
{
    let after = snapshot(state.with_receiver(stream_id, track), stream_id);
    assert(after[after.len() - 1] == track);
}

} // verus!
