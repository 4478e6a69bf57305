//! The registry of live connections and live streams.

use vstd::prelude::*;
use vstd::string::StringExecFns;
use crate::messages::string_views;
use crate::store::{
    connection_entries, connections_get, connections_insert, connections_len, connections_new,
    connections_remove, stream_entries, streams_get, streams_insert, streams_keys, streams_len,
    streams_new, streams_remove, ConnectionMap, StreamMap,
};

verus! {

/// What a connection does: it originates a stream or subscribes to one.
#[derive(Debug, Clone, Copy, PartialEq, Eq, Structural)]
pub enum ConnectionRole {
    Sender,
    Receiver,
}

/// One accepted control channel. `pc` is the handle of its transport session.
#[derive(Debug, Clone)]
pub struct Connection {
    pub connection_id: String,
    pub pc: u64,
    pub role: ConnectionRole,
    pub stream_id: Option<String>,
}

/// One active sender's stream. `source_track` is the handle of the inbound
/// track, `receivers` the handles of the outbound tracks, in the order in
/// which they subscribed.
#[derive(Debug, Clone)]
pub struct Stream {
    pub stream_id: String,
    pub source_track: u64,
    pub receivers: Vec<u64>,
}

/// A connection as contracts see it.
pub struct ConnectionView {
    pub connection_id: Seq<char>,
    pub pc: u64,
    pub role: ConnectionRole,
    pub stream_id: Option<Seq<char>>,
}

/// A stream as contracts see it.
pub struct StreamView {
    pub stream_id: Seq<char>,
    pub source_track: u64,
    pub receivers: Seq<u64>,
}

/// The registry as contracts see it: the entries of its two stores.
pub struct AppStateView {
    pub streams: Map<Seq<char>, StreamView>,
    pub connections: Map<Seq<char>, ConnectionView>,
}

/// The view of an optional string.
pub open spec fn opt_view(s: Option<String>) -> Option<Seq<char>> {
    match s {
        Some(t) => Some(t@),
        None => None,
    }
}

impl View for Connection {
    type V = ConnectionView;

    open spec fn view(&self) -> ConnectionView {
        ConnectionView {
            connection_id: self.connection_id@,
            pc: self.pc,
            role: self.role,
            stream_id: opt_view(self.stream_id),
        }
    }
}

impl View for Stream {
    type V = StreamView;

    open spec fn view(&self) -> StreamView {
        StreamView {
            stream_id: self.stream_id@,
            source_track: self.source_track,
            receivers: self.receivers@,
        }
    }
}

/// The registry: connections by id and streams by id. Its stores are
/// changed through the functions of this crate only, each of which keeps
/// the registry well formed.
pub struct AppState {
    streams: StreamMap,
    connections: ConnectionMap,
}

impl View for AppState {
    type V = AppStateView;

    closed spec fn view(&self) -> AppStateView {
        AppStateView {
            streams: stream_entries(self.streams),
            connections: connection_entries(self.connections),
        }
    }
}

/// The characters that every stream identifier starts with.
pub open spec fn stream_prefix() -> Seq<char> {
    seq!['s', 't', 'r', 'e', 'a', 'm', '_']
}

/// The identifier of the stream that the connection `connection_id` sends.
pub open spec fn stream_key(connection_id: Seq<char>) -> Seq<char> {
    stream_prefix() + connection_id
}

/// The identifier of the connection that sends the stream `stream_id`.
pub open spec fn sender_of(stream_id: Seq<char>) -> Seq<char> {
    stream_id.skip(7)
}

impl AppStateView {
    /// The stream `s` is in order: it stands under its own identifier, which
    /// is that of the stream of a registered sender.
    pub open spec fn stream_in_order(self, s: Seq<char>) -> bool {
        &&& self.streams[s].stream_id == s
        &&& s == stream_key(sender_of(s))
        &&& self.connections.dom().contains(sender_of(s))
        &&& self.connections[sender_of(s)].role == ConnectionRole::Sender
    }

    /// Every connection stands under its own identifier, and every stream is
    /// in order.
    pub open spec fn wf(self) -> bool {
        &&& forall|k: Seq<char>| #[trigger]
            self.connections.dom().contains(k) ==> self.connections[k].connection_id == k
        &&& forall|s: Seq<char>| #[trigger] self.streams.dom().contains(s) ==> self.stream_in_order(s)
    }

    /// The registry with `track` appended to the receivers of `stream_id`.
    pub open spec fn with_receiver(self, stream_id: Seq<char>, track: u64) -> AppStateView {
        AppStateView {
            streams: self.streams.insert(
                stream_id,
                StreamView {
                    stream_id: self.streams[stream_id].stream_id,
                    source_track: self.streams[stream_id].source_track,
                    receivers: self.streams[stream_id].receivers.push(track),
                },
            ),
            connections: self.connections,
        }
    }

    /// The registry with a connection put under `id`.
    pub open spec fn with_connection(
        self,
        id: Seq<char>,
        pc: u64,
        role: ConnectionRole,
        stream_id: Option<Seq<char>>,
    ) -> AppStateView {
        AppStateView {
            streams: self.streams,
            connections: self.connections.insert(
                id,
                ConnectionView { connection_id: id, pc, role, stream_id },
            ),
        }
    }

    /// The registry with a fresh stream, without receivers, for the sender `id`.
    pub open spec fn with_stream(self, id: Seq<char>, source_track: u64) -> AppStateView {
        AppStateView {
            streams: self.streams.insert(
                stream_key(id),
                StreamView { stream_id: stream_key(id), source_track, receivers: Seq::empty() },
            ),
            connections: self.connections,
        }
    }

    /// Whether a connection may be registered under `id` with `role`: a
    /// connection whose stream is live stays its sender.
    pub open spec fn may_register(self, id: Seq<char>, role: ConnectionRole) -> bool {
        role == ConnectionRole::Sender || !self.streams.dom().contains(stream_key(id))
    }

    /// Whether the inbound track of `id` opens a stream: `id` is a registered
    /// sender without a stream.
    pub open spec fn may_publish(self, id: Seq<char>) -> bool {
        &&& self.connections.dom().contains(id)
        &&& self.connections[id].role == ConnectionRole::Sender
        &&& !self.streams.dom().contains(stream_key(id))
    }
}

/// The sender's identifier is what follows the prefix in its stream's identifier.
pub proof fn lemma_sender_of_stream_key(id: Seq<char>)
    ensures
        sender_of(stream_key(id)) == id,
        stream_key(sender_of(stream_key(id))) == stream_key(id),
{
    assert(stream_key(id).skip(7) =~= id);
}

/// Streams of distinct connections have distinct identifiers.
pub proof fn lemma_stream_key_injective(a: Seq<char>, b: Seq<char>)
    requires
        stream_key(a) == stream_key(b),
    ensures
        a == b,
{
    lemma_sender_of_stream_key(a);
    lemma_sender_of_stream_key(b);
}

/// A sender has at most one stream: two live streams of one sender are one stream.
pub proof fn lemma_one_stream_per_sender(state: AppStateView, first: Seq<char>, second: Seq<char>)
    requires
        state.wf(),
        state.streams.dom().contains(first),
        state.streams.dom().contains(second),
        sender_of(first) == sender_of(second),
    ensures
        first == second,
{
}

/// Registering a connection keeps the registry well formed, where the
/// registration is allowed.
pub proof fn lemma_with_connection_wf(
    pre: AppStateView,
    id: Seq<char>,
    pc: u64,
    role: ConnectionRole,
    stream_id: Option<Seq<char>>,
)
    requires
        pre.wf(),
        pre.may_register(id, role),
    ensures
        pre.with_connection(id, pc, role, stream_id).wf(),
{
    let post = pre.with_connection(id, pc, role, stream_id);
    assert forall|s: Seq<char>| #[trigger] post.streams.dom().contains(s) implies post.stream_in_order(s) by {
        assert(pre.streams.dom().contains(s));
    }
    assert forall|k: Seq<char>| #[trigger] post.connections.dom().contains(k) implies post.connections[k].connection_id == k by {
        if k != id {
            assert(pre.connections.dom().contains(k));
        }
    }
}

/// Opening the stream of a registered sender keeps the registry well formed.
pub proof fn lemma_with_stream_wf(pre: AppStateView, id: Seq<char>, source_track: u64)
    requires
        pre.wf(),
        pre.may_publish(id),
    ensures
        pre.with_stream(id, source_track).wf(),
        pre.with_stream(id, source_track).streams.dom().contains(stream_key(id)),
{
    let post = pre.with_stream(id, source_track);
    lemma_sender_of_stream_key(id);
    assert forall|s: Seq<char>| #[trigger] post.streams.dom().contains(s) implies post.stream_in_order(s) by {
        if s != stream_key(id) {
            assert(pre.streams.dom().contains(s));
        }
    }
}

/// Appending a receiver to a live stream keeps the registry well formed.
pub proof fn lemma_with_receiver_wf(pre: AppStateView, stream_id: Seq<char>, track: u64)
    requires
        pre.wf(),
        pre.streams.dom().contains(stream_id),
    ensures
        pre.with_receiver(stream_id, track).wf(),
{
    let post = pre.with_receiver(stream_id, track);
    assert forall|s: Seq<char>| #[trigger] post.streams.dom().contains(s) implies post.stream_in_order(s) by {
        assert(pre.streams.dom().contains(s));
    }
}

/// The identifier of the stream that the connection `connection_id` sends:
/// the prefix `stream_` followed by the connection's identifier.
pub fn stream_id_for(connection_id: &str) -> (id: String)
    ensures
        id@ == stream_key(connection_id@),
{
    proof {
        reveal_strlit("stream_");
    }
    assert("stream_"@ =~= stream_prefix());
    String::from_str("stream_").concat(connection_id)
}

impl AppState {
    /// A registry without connections and without streams.
    pub fn new() -> (state: AppState)
        ensures
            state@.streams == Map::<Seq<char>, StreamView>::empty(),
            state@.connections == Map::<Seq<char>, ConnectionView>::empty(),
            state@.wf(),
    {
        let state = AppState { streams: streams_new(), connections: connections_new() };
        assert(state@.streams =~= Map::<Seq<char>, StreamView>::empty());
        assert(state@.connections =~= Map::<Seq<char>, ConnectionView>::empty());
        state
    }

    /// The identifiers of the live streams, each once, in no particular order.
    pub fn stream_ids(&self) -> (ids: Vec<String>)
        ensures
            string_views(ids@).no_duplicates(),
            string_views(ids@).to_set() == self@.streams.dom(),
    {
        streams_keys(&self.streams)
    }

    /// The number of live streams.
    pub fn stream_count(&self) -> (n: usize)
        ensures
            n == self@.streams.dom().len(),
    {
        streams_len(&self.streams)
    }

    /// The number of registered connections.
    pub fn connection_count(&self) -> (n: usize)
        ensures
            n == self@.connections.dom().len(),
    {
        connections_len(&self.connections)
    }

    /// The connection registered under `connection_id`, if there is one.
    pub fn find_connection(&self, connection_id: &str) -> (found: Option<Connection>)
        ensures
            found is Some == self@.connections.dom().contains(connection_id@),
            found matches Some(c) ==> c@ == self@.connections[connection_id@],
    {
        connections_get(&self.connections, connection_id)
    }

    /// The stream registered under `stream_id`, if there is one.
    pub fn find_stream(&self, stream_id: &str) -> (found: Option<Stream>)
        ensures
            found is Some == self@.streams.dom().contains(stream_id@),
            found matches Some(s) ==> s@ == self@.streams[stream_id@],
    {
        streams_get(&self.streams, stream_id)
    }

    /// The receivers of `stream_id` at this moment, in the order in which
    /// they subscribed; none if the stream is not live.
    pub fn receivers_of(&self, stream_id: &str) -> (targets: Vec<u64>)
        ensures
            self@.streams.dom().contains(stream_id@) ==> targets@ == self@.streams[stream_id@].receivers,
            !self@.streams.dom().contains(stream_id@) ==> targets@ == Seq::<u64>::empty(),
    {
        match streams_get(&self.streams, stream_id) {
            Some(stream) => stream.receivers,
            None => Vec::new(),
        }
    }

    /// The stream that a new receiver is to subscribe to: the requested one
    /// if it is live, some live stream if none was requested.
    pub fn resolve_stream(&self, requested: Option<String>) -> (target: Option<String>)
        ensures
            requested matches Some(id) ==> target is Some == self@.streams.dom().contains(id@),
            requested matches Some(id) ==> (target matches Some(t) ==> t@ == id@),
            requested is None ==> target is None == (self@.streams.dom() =~= Set::<Seq<char>>::empty()),
            target matches Some(t) ==> self@.streams.dom().contains(t@),
    {
        match requested {
            Some(id) => {
                if streams_get(&self.streams, id.as_str()).is_some() {
                    Some(id)
                } else {
                    None
                }
            },
            None => {
                let mut keys = streams_keys(&self.streams);
                let ghost views = string_views(keys@);
                let last = keys.pop();
                proof {
                    if views.len() > 0 {
                        assert(views.to_set().contains(views[views.len() - 1]));
                    } else {
                        assert(views.to_set() =~= Set::<Seq<char>>::empty());
                    }
                }
                last
            },
        }
    }

    /// Takes the connection `connection_id` out of the registry. The streams stay.
    pub(crate) fn take_connection(&mut self, connection_id: &str) -> (removed: Option<Connection>)
        ensures
            final(self)@.connections == old(self)@.connections.remove(connection_id@),
            final(self)@.streams == old(self)@.streams,
            removed is Some == old(self)@.connections.dom().contains(connection_id@),
            removed matches Some(c) ==> c@ == old(self)@.connections[connection_id@],
    {
        connections_remove(&mut self.connections, connection_id)
    }

    /// Takes the stream `stream_id` out of the registry. The connections stay.
    pub(crate) fn take_stream(&mut self, stream_id: &str) -> (removed: bool)
        ensures
            final(self)@.streams == old(self)@.streams.remove(stream_id@),
            final(self)@.connections == old(self)@.connections,
            removed == old(self)@.streams.dom().contains(stream_id@),
    {
        streams_remove(&mut self.streams, stream_id).is_some()
    }

    /// Registers a connection under `connection_id`, in place of an earlier
    /// one under that identifier. A connection whose stream is live is not
    /// replaced by a receiver: the registry is then left as it was.
    pub fn register(
        &mut self,
        connection_id: &str,
        pc: u64,
        role: ConnectionRole,
        stream_id: Option<String>,
    ) -> (done: bool)
        requires
            old(self)@.wf(),
        ensures
            final(self)@.wf(),
            done == old(self)@.may_register(connection_id@, role),
            done ==> final(self)@ == old(self)@.with_connection(
                connection_id@,
                pc,
                role,
                opt_view(stream_id),
            ),
            !done ==> final(self)@ == old(self)@,
    {
        let allowed = match role {
            ConnectionRole::Sender => true,
            ConnectionRole::Receiver => {
                let key = stream_id_for(connection_id);
                streams_get(&self.streams, key.as_str()).is_none()
            },
        };
        if allowed {
            let connection = Connection {
                connection_id: connection_id.to_owned(),
                pc,
                role,
                stream_id,
            };
            connections_insert(&mut self.connections, connection_id.to_owned(), connection);
            proof {
                lemma_with_connection_wf(old(self)@, connection_id@, pc, role, opt_view(stream_id));
            }
        }
        allowed
    }

    /// Opens the stream of the sender `connection_id`, whose inbound track
    /// `source_track` has arrived, and returns the stream's identifier. Nothing
    /// is opened, and the registry is left as it was, unless `connection_id`
    /// is a registered sender without a stream.
    pub fn publish_stream(&mut self, connection_id: &str, source_track: u64) -> (opened: Option<String>)
        requires
            old(self)@.wf(),
        ensures
            final(self)@.wf(),
            opened is Some == old(self)@.may_publish(connection_id@),
            opened matches Some(id) ==> id@ == stream_key(connection_id@),
            opened is Some ==> final(self)@ == old(self)@.with_stream(connection_id@, source_track),
            opened is None ==> final(self)@ == old(self)@,
    {
        let is_sender = match connections_get(&self.connections, connection_id) {
            Some(connection) => match connection.role {
                ConnectionRole::Sender => true,
                ConnectionRole::Receiver => false,
            },
            None => false,
        };
        if !is_sender {
            return None;
        }
        let key = stream_id_for(connection_id);
        if streams_get(&self.streams, key.as_str()).is_some() {
            return None;
        }
        let stream = Stream { stream_id: key.clone(), source_track, receivers: Vec::new() };
        streams_insert(&mut self.streams, key.clone(), stream);
        proof {
            lemma_with_stream_wf(old(self)@, connection_id@, source_track);
        }
        Some(key)
    }

    /// Appends the outbound track `track` to the receivers of `stream_id`.
    /// Where the stream is not live, the registry is left as it was.
    pub fn subscribe(&mut self, stream_id: &str, track: u64) -> (done: bool)
        requires
            old(self)@.wf(),
        ensures
            final(self)@.wf(),
            done == old(self)@.streams.dom().contains(stream_id@),
            done ==> final(self)@ == old(self)@.with_receiver(stream_id@, track),
            !done ==> final(self)@ == old(self)@,
    {
        match streams_get(&self.streams, stream_id) {
            Some(stream) => {
                let Stream { stream_id: id, source_track, receivers } = stream;
                let mut receivers = receivers;
                receivers.push(track);
                let updated = Stream { stream_id: id, source_track, receivers };
                streams_insert(&mut self.streams, stream_id.to_owned(), updated);
                proof {
                    lemma_with_receiver_wf(old(self)@, stream_id@, track);
                }
                true
            },
            None => false,
        }
    }
}

} // verus!
