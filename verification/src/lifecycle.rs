//! Teardown of a connection and of the stream it sends.

use vstd::prelude::*;
use crate::state::{opt_view, sender_of, stream_id_for, stream_key, AppState, AppStateView, ConnectionRole};

verus! {

/// What is left to do outside the registry once a connection has been
/// removed: the transport session to close, and the stream whose
/// cancellation signal is to be fired.
#[derive(Debug, Clone)]
pub struct Teardown {
    pub close_session: Option<u64>,
    pub cancel_stream: Option<String>,
}

/// The registry after the teardown of `id`: without the connection and,
/// for a sender, without its stream. Unchanged where `id` is not registered.
pub open spec fn state_after_cleanup(pre: AppStateView, id: Seq<char>) -> AppStateView {
    if !pre.connections.dom().contains(id) {
        pre
    } else {
        AppStateView {
            streams: if pre.connections[id].role == ConnectionRole::Sender {
                pre.streams.remove(stream_key(id))
            } else {
                pre.streams
            },
            connections: pre.connections.remove(id),
        }
    }
}

/// The session that the teardown of `id` closes: that of the registered connection.
pub open spec fn session_to_close(pre: AppStateView, id: Seq<char>) -> Option<u64> {
    if pre.connections.dom().contains(id) {
        Some(pre.connections[id].pc)
    } else {
        None
    }
}

/// The stream that the teardown of `id` cancels: the live stream of a registered sender.
pub open spec fn stream_to_cancel(pre: AppStateView, id: Seq<char>) -> Option<Seq<char>> {
    if pre.connections.dom().contains(id) && pre.connections[id].role == ConnectionRole::Sender
        && pre.streams.dom().contains(stream_key(id)) {
        Some(stream_key(id))
    } else {
        None
    }
}

/// Teardown keeps the registry well formed, and afterwards neither the
/// connection nor its stream is registered; every other stream stays.
pub proof fn lemma_cleanup_wf(pre: AppStateView, id: Seq<char>)
    requires
        pre.wf(),
    ensures
        state_after_cleanup(pre, id).wf(),
        !state_after_cleanup(pre, id).connections.dom().contains(id),
        !state_after_cleanup(pre, id).streams.dom().contains(stream_key(id)),
        forall|s: Seq<char>|
            s != stream_key(id) ==> (#[trigger] state_after_cleanup(pre, id).streams.dom().contains(s)
                == pre.streams.dom().contains(s)),
{
    let post = state_after_cleanup(pre, id);
    crate::state::lemma_sender_of_stream_key(id);
    if pre.streams.dom().contains(stream_key(id)) {
        assert(pre.connections.dom().contains(sender_of(stream_key(id))));
    }
    assert forall|s: Seq<char>| #[trigger] post.streams.dom().contains(s) implies post.stream_in_order(s) by {
        assert(pre.streams.dom().contains(s));
        if sender_of(s) == id {
            assert(s == stream_key(id));
        }
    }
    assert forall|k: Seq<char>| #[trigger] post.connections.dom().contains(k) implies post.connections[k].connection_id == k by {
        assert(pre.connections.dom().contains(k));
    }
}

/// A second teardown of the same connection changes nothing, closes no
/// session and cancels no stream.
pub proof fn lemma_cleanup_idempotent(pre: AppStateView, id: Seq<char>)
    ensures
        state_after_cleanup(state_after_cleanup(pre, id), id) == state_after_cleanup(pre, id),
        session_to_close(state_after_cleanup(pre, id), id) is None,
        stream_to_cancel(state_after_cleanup(pre, id), id) is None,
{
}

/// The teardown of a connection that is not registered changes nothing,
/// closes no session and cancels no stream.
pub proof fn lemma_cleanup_of_absent(pre: AppStateView, id: Seq<char>)
    requires
        !pre.connections.dom().contains(id),
    ensures
        state_after_cleanup(pre, id) == pre,
        session_to_close(pre, id) is None,
        stream_to_cancel(pre, id) is None,
{
}

/// Removes the connection `connection_id` from the registry and, for a
/// sender, its stream. The result names the session to close and the stream
/// to cancel; both are absent where the connection was not registered.
pub fn cleanup_connection(state: &mut AppState, connection_id: &str) -> (teardown: Teardown)
    requires
        old(state)@.wf(),
    ensures
        final(state)@ == state_after_cleanup(old(state)@, connection_id@),
        final(state)@.wf(),
        teardown.close_session == session_to_close(old(state)@, connection_id@),
        opt_view(teardown.cancel_stream) == stream_to_cancel(old(state)@, connection_id@),
{
    proof {
        lemma_cleanup_wf(old(state)@, connection_id@);
    }
    let removed = state.take_connection(connection_id);
    assert(state@.connections =~= state_after_cleanup(old(state)@, connection_id@).connections);
    match removed {
        None => Teardown { close_session: None, cancel_stream: None },
        Some(connection) => {
            let cancel_stream = match connection.role {
                ConnectionRole::Receiver => None,
                ConnectionRole::Sender => {
                    let key = stream_id_for(connection_id);
                    if state.take_stream(key.as_str()) {
                        Some(key)
                    } else {
                        None
                    }
                },
            };
            assert(state@.streams =~= state_after_cleanup(old(state)@, connection_id@).streams);
            Teardown { close_session: Some(connection.pc), cancel_stream }
        },
    }
}

} // verus!
