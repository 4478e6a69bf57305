//! The per-connection signaling controller.
//!
//! The controller decides; its caller performs. A client message or the
//! outcome of transport work goes in, and an [`Action`] comes out: a message
//! to send, transport work to start, or nothing. Messages that do not fit
//! the controller's phase are dropped without a reply.

use vstd::prelude::*;
use crate::lifecycle::{cleanup_connection, session_to_close, state_after_cleanup, stream_to_cancel, Teardown};
use crate::messages::{no_stream_text, string_views, ClientMessage, SdpMessage, ServerMessage};
use crate::state::{
    lemma_with_connection_wf, lemma_with_receiver_wf, opt_view, stream_key, AppState, AppStateView,
    ConnectionRole,
};

verus! {

/// Where a connection stands in its negotiation.
#[derive(Debug, Clone, Copy, PartialEq, Eq, Structural)]
pub enum Phase {
    Idle,
    SenderPending,
    SenderActive,
    ReceiverNegotiating,
    ReceiverActive,
    Closed,
}

/// What the controller's caller is to do.
#[derive(Debug, Clone)]
pub enum Action {
    /// Nothing: the input was dropped, or needed no outside work.
    Nothing,
    /// Send the message to the client.
    Send(ServerMessage),
    /// Create a session for a sender and report the outcome.
    OpenSenderSession,
    /// Create a session with a fresh outbound track for a receiver of
    /// `stream_id`, and report the outcome.
    OpenReceiverSession { stream_id: String },
    /// Apply the remote offer `sdp` to `session`, create and set the local
    /// answer, and report the local description.
    AnswerOffer { session: u64, sdp: String },
    /// Apply the remote answer `sdp` to `session` and report the outcome.
    ApplyAnswer { session: u64, sdp: String },
    /// Create and set a local offer on `session`, and report the local description.
    CreateOffer { session: u64 },
    /// Start the relay of `stream_id`, reading from `source_track`.
    StartRelay { stream_id: String, source_track: u64 },
    /// Close the session and fire the cancellation signal that are named.
    Teardown(Teardown),
}

/// The outcome of transport work, reported back to the controller.
#[derive(Debug, Clone)]
pub enum EngineEvent {
    /// The session asked for by `OpenSenderSession` exists.
    SenderSessionOpened { session: u64 },
    /// No session could be created for `OpenSenderSession`. The step ends
    /// there: nothing is registered and the client is told nothing.
    SenderSessionFailed,
    /// Media began to flow on an inbound track of the sender's session.
    InboundTrack { track: u64 },
    /// The session asked for by `OpenReceiverSession` exists, with `track` attached.
    ReceiverSessionOpened { stream_id: String, session: u64, track: u64 },
    /// The local offer asked for by `CreateOffer` is set; `sdp` is the local description.
    OfferReady { sdp: String },
    /// The local answer asked for by `AnswerOffer` is set; `sdp` is the local description.
    AnswerReady { sdp: String },
    /// The remote answer given by `ApplyAnswer` was accepted.
    AnswerApplied,
}

/// The controller of one connection. `answered` and `has_track` record, for
/// a sender, that its offer was answered and that its inbound track arrived.
#[derive(Debug, Clone)]
pub struct Controller {
    pub connection_id: String,
    pub phase: Phase,
    pub answered: bool,
    pub has_track: bool,
}

/// The phase of a sender: active once its offer was answered and its track arrived.
pub open spec fn sender_phase(answered: bool, has_track: bool) -> Phase {
    if answered && has_track {
        Phase::SenderActive
    } else {
        Phase::SenderPending
    }
}

/// The controller is the same before and after.
pub open spec fn same_controller(c: Controller, d: Controller) -> bool {
    &&& d.connection_id@ == c.connection_id@
    &&& d.phase == c.phase
    &&& d.answered == c.answered
    &&& d.has_track == c.has_track
}

/// The controller is the same but for its phase, which is `phase`.
pub open spec fn moved_to(c: Controller, d: Controller, phase: Phase) -> bool {
    &&& d.connection_id@ == c.connection_id@
    &&& d.phase == phase
    &&& d.answered == c.answered
    &&& d.has_track == c.has_track
}

/// The action sends the identifiers of the streams of `pre`, each once.
pub open spec fn lists_streams(action: Action, pre: AppStateView) -> bool {
    action matches Action::Send(ServerMessage::AvailableStreams { streams })
        && string_views(streams@).no_duplicates()
        && string_views(streams@).to_set() == pre.streams.dom()
}

/// The action sends an error with the text `text`.
pub open spec fn sends_error(action: Action, text: Seq<char>) -> bool {
    action matches Action::Send(ServerMessage::Error { message }) && message@ == text
}

/// The action tears down what the teardown of `id` in `pre` names.
pub open spec fn tears_down(action: Action, pre: AppStateView, id: Seq<char>) -> bool {
    action matches Action::Teardown(t) && t.close_session == session_to_close(pre, id) && opt_view(
        t.cancel_stream,
    ) == stream_to_cancel(pre, id)
}

/// The action closes `session` and nothing else.
pub open spec fn discards(action: Action, session: u64) -> bool {
    action matches Action::Teardown(t) && t.close_session == Some(session) && t.cancel_stream is None
}

/// Whether a remote offer is taken up: by a pending sender, or by an idle
/// connection that is registered.
pub open spec fn takes_offer(c: Controller, pre: AppStateView) -> bool {
    (c.phase == Phase::SenderPending || c.phase == Phase::Idle) && pre.connections.dom().contains(
        c.connection_id@,
    )
}

/// Whether a remote answer is taken up: by a registered receiver that has sent its offer.
pub open spec fn takes_answer(c: Controller, pre: AppStateView) -> bool {
    c.phase == Phase::ReceiverNegotiating && pre.connections.dom().contains(c.connection_id@)
}

/// Whether an opened receiver session is taken up: by an idle connection,
/// for a live stream, unless the connection sends a live stream itself.
pub open spec fn takes_receiver_session(c: Controller, pre: AppStateView, stream_id: Seq<char>) -> bool {
    &&& c.phase == Phase::Idle
    &&& pre.streams.dom().contains(stream_id)
    &&& pre.may_register(c.connection_id@, ConnectionRole::Receiver)
}

/// Whether a local offer is passed on: by an idle connection registered as a receiver.
pub open spec fn passes_offer(c: Controller, pre: AppStateView) -> bool {
    &&& c.phase == Phase::Idle
    &&& pre.connections.dom().contains(c.connection_id@)
    &&& pre.connections[c.connection_id@].role == ConnectionRole::Receiver
}

/// Whether an inbound track opens the stream: the first track of a pending
/// sender that is registered and has no stream.
pub open spec fn takes_track(c: Controller, pre: AppStateView) -> bool {
    c.phase == Phase::SenderPending && !c.has_track && pre.may_publish(c.connection_id@)
}

/// The action opens a receiver session for the stream that was asked for,
/// or for some live stream where none was asked for. Where that stream is
/// not live the request is dropped; where no stream is live at all, the
/// client is told so.
pub open spec fn answers_receive_request(action: Action, pre: AppStateView, wanted: Option<String>) -> bool {
    match wanted {
        Some(id) => if pre.streams.dom().contains(id@) {
            action matches Action::OpenReceiverSession { stream_id } && stream_id@ == id@
        } else {
            action is Nothing
        },
        None => if pre.streams.dom() =~= Set::<Seq<char>>::empty() {
            sends_error(action, no_stream_text())
        } else {
            action matches Action::OpenReceiverSession { stream_id } && pre.streams.dom().contains(
                stream_id@,
            )
        },
    }
}

/// The action that answers a message other than `StopStream`.
pub open spec fn reply_to(c: Controller, pre: AppStateView, msg: ClientMessage, action: Action) -> bool {
    let id = c.connection_id@;
    match msg {
        ClientMessage::GetAvailableStreams => lists_streams(action, pre),
        ClientMessage::StartSending => if c.phase == Phase::Idle {
            action is OpenSenderSession
        } else {
            action is Nothing
        },
        ClientMessage::StartReceiving { stream_id } => if c.phase == Phase::Idle {
            answers_receive_request(action, pre, stream_id)
        } else {
            action is Nothing
        },
        ClientMessage::WebRtcOffer { offer } => if takes_offer(c, pre) {
            action matches Action::AnswerOffer { session, sdp } && session == pre.connections[id].pc
                && sdp@ == offer.sdp@
        } else {
            action is Nothing
        },
        ClientMessage::WebRtcAnswer { answer } => if takes_answer(c, pre) {
            action matches Action::ApplyAnswer { session, sdp } && session == pre.connections[id].pc
                && sdp@ == answer.sdp@
        } else {
            action is Nothing
        },
        ClientMessage::IceCandidate { candidate } => action is Nothing,
        ClientMessage::StopStream => action is Nothing,
    }
}

/// What a client message does: the controller `c` and the registry `pre`
/// before, the controller `d` and the registry `post` after, and the action.
/// `StopStream` tears the connection down and closes the controller. Every
/// other message leaves controller and registry as they were; a closed
/// controller drops it.
pub open spec fn message_step(
    c: Controller,
    pre: AppStateView,
    msg: ClientMessage,
    d: Controller,
    post: AppStateView,
    action: Action,
) -> bool {
    if msg is StopStream {
        &&& moved_to(c, d, Phase::Closed)
        &&& post == state_after_cleanup(pre, c.connection_id@)
        &&& tears_down(action, pre, c.connection_id@)
    } else {
        &&& same_controller(c, d)
        &&& post == pre
        &&& if c.phase == Phase::Closed {
            action is Nothing
        } else {
            reply_to(c, pre, msg, action)
        }
    }
}

/// What the outcome of transport work does: the controller `c` and the
/// registry `pre` before, the controller `d` and the registry `post` after,
/// and the action.
pub open spec fn engine_step(
    c: Controller,
    pre: AppStateView,
    event: EngineEvent,
    d: Controller,
    post: AppStateView,
    action: Action,
) -> bool {
    let id = c.connection_id@;
    match event {
        EngineEvent::SenderSessionOpened { session } => if c.phase == Phase::Idle {
            &&& d.connection_id@ == id
            &&& d.phase == Phase::SenderPending
            &&& !d.answered
            &&& !d.has_track
            &&& post == pre.with_connection(id, session, ConnectionRole::Sender, None)
            &&& action matches Action::Send(ServerMessage::SenderReady { connection_id })
                && connection_id@ == id
        } else {
            same_controller(c, d) && post == pre && discards(action, session)
        },
        EngineEvent::SenderSessionFailed => same_controller(c, d) && post == pre
            && action is Nothing,
        EngineEvent::InboundTrack { track } => if takes_track(c, pre) {
            &&& d.connection_id@ == id
            &&& d.phase == sender_phase(c.answered, true)
            &&& d.answered == c.answered
            &&& d.has_track
            &&& post == pre.with_stream(id, track)
            &&& action matches Action::StartRelay { stream_id, source_track } && stream_id@
                == stream_key(id) && source_track == track
        } else {
            same_controller(c, d) && post == pre && action is Nothing
        },
        EngineEvent::ReceiverSessionOpened { stream_id, session, track } => same_controller(c, d)
            && if takes_receiver_session(c, pre, stream_id@) {
            &&& post == pre.with_receiver(stream_id@, track).with_connection(
                id,
                session,
                ConnectionRole::Receiver,
                Some(stream_id@),
            )
            &&& action matches Action::CreateOffer { session: on } && on == session
        } else {
            post == pre && discards(action, session)
        },
        EngineEvent::OfferReady { sdp } => post == pre && if passes_offer(c, pre) {
            &&& moved_to(c, d, Phase::ReceiverNegotiating)
            &&& action matches Action::Send(ServerMessage::WebRtcOffer { offer }) && offer.sdp@
                == sdp@ && offer.kind@ == "offer"@
        } else {
            same_controller(c, d) && action is Nothing
        },
        EngineEvent::AnswerReady { sdp } => post == pre && if takes_offer(c, pre) {
            &&& action matches Action::Send(ServerMessage::WebRtcAnswer { answer }) && answer.sdp@
                == sdp@ && answer.kind@ == "answer"@
            &&& if c.phase == Phase::SenderPending {
                &&& d.connection_id@ == id
                &&& d.phase == sender_phase(true, c.has_track)
                &&& d.answered
                &&& d.has_track == c.has_track
            } else {
                same_controller(c, d)
            }
        } else {
            same_controller(c, d) && action is Nothing
        },
        EngineEvent::AnswerApplied => post == pre && action is Nothing && if c.phase
            == Phase::ReceiverNegotiating {
            moved_to(c, d, Phase::ReceiverActive)
        } else {
            same_controller(c, d)
        },
    }
}

/// The edges of the phase graph: a sender goes from idle over pending to
/// active, a receiver from idle over negotiating to active, and every phase
/// may stay or close.
pub open spec fn phase_edge(from: Phase, to: Phase) -> bool {
    ||| to == from
    ||| to == Phase::Closed
    ||| from == Phase::Idle && (to == Phase::SenderPending || to == Phase::ReceiverNegotiating)
    ||| from == Phase::SenderPending && to == Phase::SenderActive
    ||| from == Phase::ReceiverNegotiating && to == Phase::ReceiverActive
}

/// The flags agree with the phase: an active sender has both, a pending one
/// lacks at least one.
pub open spec fn flags_agree(c: Controller) -> bool {
    &&& c.phase == Phase::SenderActive ==> c.answered && c.has_track
    &&& c.phase == Phase::SenderPending ==> !(c.answered && c.has_track)
}

/// A client message moves the controller along an edge of the phase graph,
/// keeps its flags in agreement with its phase and keeps the registry well
/// formed.
pub proof fn lemma_message_step_sound(
    c: Controller,
    pre: AppStateView,
    msg: ClientMessage,
    d: Controller,
    post: AppStateView,
    action: Action,
)
    requires
        pre.wf(),
        flags_agree(c),
        message_step(c, pre, msg, d, post, action),
    ensures
        post.wf(),
        flags_agree(d),
        phase_edge(c.phase, d.phase),
        d.connection_id@ == c.connection_id@,
{
    crate::lifecycle::lemma_cleanup_wf(pre, c.connection_id@);
}

/// The outcome of transport work moves the controller along an edge of the
/// phase graph, keeps its flags in agreement with its phase and keeps the
/// registry well formed.
pub proof fn lemma_engine_step_sound(
    c: Controller,
    pre: AppStateView,
    event: EngineEvent,
    d: Controller,
    post: AppStateView,
    action: Action,
)
    requires
        pre.wf(),
        flags_agree(c),
        engine_step(c, pre, event, d, post, action),
    ensures
        post.wf(),
        flags_agree(d),
        phase_edge(c.phase, d.phase),
        d.connection_id@ == c.connection_id@,
{
    let id = c.connection_id@;
    match event {
        EngineEvent::SenderSessionOpened { session } => {
            if c.phase == Phase::Idle {
                lemma_with_connection_wf(pre, id, session, ConnectionRole::Sender, None);
            }
        },
        EngineEvent::InboundTrack { track } => {
            if takes_track(c, pre) {
                crate::state::lemma_with_stream_wf(pre, id, track);
            }
        },
        EngineEvent::ReceiverSessionOpened { stream_id, session, track } => {
            if takes_receiver_session(c, pre, stream_id@) {
                lemma_with_receiver_wf(pre, stream_id@, track);
                lemma_with_connection_wf(
                    pre.with_receiver(stream_id@, track),
                    id,
                    session,
                    ConnectionRole::Receiver,
                    Some(stream_id@),
                );
            }
        },
        _ => {},
    }
}

/// Every stream of `pre` but `gone` is a stream of `post`, with the
/// receivers it had, in their places, and possibly more behind them.
pub open spec fn streams_kept(pre: AppStateView, post: AppStateView, gone: Seq<char>) -> bool {
    forall|s: Seq<char>| #[trigger]
        pre.streams.dom().contains(s) && s != gone ==> post.streams.dom().contains(s)
            && pre.streams[s].receivers.is_prefix_of(post.streams[s].receivers)
}

/// A client message ends no stream but the sender's own, and takes no
/// receiver from a stream that stays.
pub proof fn lemma_message_keeps_streams(
    c: Controller,
    pre: AppStateView,
    msg: ClientMessage,
    d: Controller,
    post: AppStateView,
    action: Action,
)
    requires
        message_step(c, pre, msg, d, post, action),
    ensures
        streams_kept(pre, post, stream_key(c.connection_id@)),
        !(msg is StopStream) ==> post == pre,
{
}

/// The outcome of transport work ends no stream, and takes no receiver from any.
pub proof fn lemma_engine_keeps_streams(
    c: Controller,
    pre: AppStateView,
    event: EngineEvent,
    d: Controller,
    post: AppStateView,
    action: Action,
    s: Seq<char>,
)
    requires
        engine_step(c, pre, event, d, post, action),
        pre.streams.dom().contains(s),
    ensures
        post.streams.dom().contains(s),
        pre.streams[s].receivers.is_prefix_of(post.streams[s].receivers),
{
    match event {
        EngineEvent::ReceiverSessionOpened { stream_id, session, track } => {
            if takes_receiver_session(c, pre, stream_id@) {
                let before = pre.streams[stream_id@].receivers;
                assert(before.push(track).subrange(0, before.len() as int) =~= before);
            }
        },
        _ => {},
    }
}

/// A closed controller stays closed whatever transport work reports: it
/// registers nothing, and only hands a session that arrives late back to be
/// closed.
pub proof fn lemma_closed_is_terminal(
    c: Controller,
    pre: AppStateView,
    event: EngineEvent,
    d: Controller,
    post: AppStateView,
    action: Action,
)
    requires
        c.phase == Phase::Closed,
        engine_step(c, pre, event, d, post, action),
    ensures
        d.phase == Phase::Closed,
        post == pre,
        action is Nothing || action is Teardown,
{
}

/// A second `StopStream` closes no session, cancels no stream and leaves
/// the registry as the first left it.
pub proof fn lemma_second_stop_is_empty(
    c: Controller,
    pre: AppStateView,
    d: Controller,
    mid: AppStateView,
    first: Action,
    e: Controller,
    post: AppStateView,
    second: Action,
)
    requires
        message_step(c, pre, ClientMessage::StopStream, d, mid, first),
        message_step(d, mid, ClientMessage::StopStream, e, post, second),
    ensures
        e.phase == Phase::Closed,
        post == mid,
        second matches Action::Teardown(t) && t.close_session is None && t.cancel_stream is None,
{
    crate::lifecycle::lemma_cleanup_idempotent(pre, c.connection_id@);
}

/// Whether `c` is one of the sixteen hexadecimal digits, the letters
/// among them in lower case.
pub open spec fn is_lower_hex(c: char) -> bool {
    ('0' <= c && c <= '9') || ('a' <= c && c <= 'f')
}


impl Controller {
    /// The controller of a freshly accepted connection, under a random identifier.
    pub fn accept() -> (c: Controller)
        ensures
            is_uuid_text(c.connection_id@),
            c.phase == Phase::Idle,
            !c.answered,
            !c.has_track,
    {
        Controller::new(random_connection_id())
    }

    /// What a freshly accepted connection is sent first: the streams that are live.
    pub fn on_open(&self, state: &AppState) -> (action: Action)
        ensures
            lists_streams(action, state@),
    {
        Action::Send(ServerMessage::AvailableStreams { streams: state.stream_ids() })
    }

    /// The controller of a freshly accepted connection: idle.
    pub fn new(connection_id: String) -> (c: Controller)
        ensures
            c.connection_id@ == connection_id@,
            c.phase == Phase::Idle,
            !c.answered,
            !c.has_track,
    {
        Controller { connection_id, phase: Phase::Idle, answered: false, has_track: false }
    }

    /// Takes one client message. `StopStream`, which also stands for the
    /// channel's closing, is taken in every phase; a closed controller drops
    /// every other message.
    pub fn on_message(&mut self, state: &mut AppState, msg: ClientMessage) -> (action: Action)
        requires
            old(state)@.wf(),
        ensures
            final(state)@.wf(),
            message_step(*old(self), old(state)@, msg, *final(self), final(state)@, action),
    {
        let closed = match self.phase {
            Phase::Closed => true,
            _ => false,
        };
        match msg {
            ClientMessage::StopStream => {
                let teardown = cleanup_connection(state, self.connection_id.as_str());
                self.phase = Phase::Closed;
                return Action::Teardown(teardown);
            },
            _ => {},
        }
        if closed {
            return Action::Nothing;
        }
        match msg {
            ClientMessage::StopStream => Action::Nothing,
            ClientMessage::GetAvailableStreams => {
                let streams = state.stream_ids();
                Action::Send(ServerMessage::AvailableStreams { streams })
            },
            ClientMessage::StartSending => match self.phase {
                Phase::Idle => Action::OpenSenderSession,
                _ => Action::Nothing,
            },
            ClientMessage::StartReceiving { stream_id } => match self.phase {
                Phase::Idle => {
                    let asked = stream_id.is_some();
                    match state.resolve_stream(stream_id) {
                        Some(target) => Action::OpenReceiverSession { stream_id: target },
                        None => if asked {
                            Action::Nothing
                        } else {
                            Action::Send(
                                ServerMessage::Error { message: "No audio stream available".to_owned() },
                            )
                        },
                    }
                },
                _ => Action::Nothing,
            },
            ClientMessage::WebRtcOffer { offer } => {
                let open = match self.phase {
                    Phase::Idle => true,
                    Phase::SenderPending => true,
                    _ => false,
                };
                if !open {
                    return Action::Nothing;
                }
                match state.find_connection(self.connection_id.as_str()) {
                    Some(connection) => Action::AnswerOffer { session: connection.pc, sdp: offer.sdp },
                    None => Action::Nothing,
                }
            },
            ClientMessage::WebRtcAnswer { answer } => {
                match self.phase {
                    Phase::ReceiverNegotiating => {},
                    _ => {
                        return Action::Nothing;
                    },
                }
                match state.find_connection(self.connection_id.as_str()) {
                    Some(connection) => Action::ApplyAnswer { session: connection.pc, sdp: answer.sdp },
                    None => Action::Nothing,
                }
            },
            ClientMessage::IceCandidate { candidate } => Action::Nothing,
        }
    }

    /// Takes the outcome of transport work. A session that arrives where
    /// none is awaited is handed back to be closed.
    pub fn on_engine_event(&mut self, state: &mut AppState, event: EngineEvent) -> (action: Action)
        requires
            old(state)@.wf(),
        ensures
            final(state)@.wf(),
            engine_step(*old(self), old(state)@, event, *final(self), final(state)@, action),
    {
        match event {
            EngineEvent::SenderSessionOpened { session } => match self.phase {
                Phase::Idle => {
                    state.register(self.connection_id.as_str(), session, ConnectionRole::Sender, None);
                    self.phase = Phase::SenderPending;
                    self.answered = false;
                    self.has_track = false;
                    Action::Send(ServerMessage::SenderReady { connection_id: self.connection_id.clone() })
                },
                _ => Action::Teardown(Teardown { close_session: Some(session), cancel_stream: None }),
            },
            EngineEvent::SenderSessionFailed => Action::Nothing,
            EngineEvent::InboundTrack { track } => {
                let pending = match self.phase {
                    Phase::SenderPending => !self.has_track,
                    _ => false,
                };
                if !pending {
                    return Action::Nothing;
                }
                match state.publish_stream(self.connection_id.as_str(), track) {
                    Some(stream_id) => {
                        self.has_track = true;
                        if self.answered {
                            self.phase = Phase::SenderActive;
                        }
                        Action::StartRelay { stream_id, source_track: track }
                    },
                    None => Action::Nothing,
                }
            },
            EngineEvent::ReceiverSessionOpened { stream_id, session, track } => {
                let idle = match self.phase {
                    Phase::Idle => true,
                    _ => false,
                };
                let own = crate::state::stream_id_for(self.connection_id.as_str());
                if idle && state.find_stream(own.as_str()).is_none() && state.subscribe(
                    stream_id.as_str(),
                    track,
                ) {
                    state.register(
                        self.connection_id.as_str(),
                        session,
                        ConnectionRole::Receiver,
                        Some(stream_id),
                    );
                    Action::CreateOffer { session }
                } else {
                    Action::Teardown(Teardown { close_session: Some(session), cancel_stream: None })
                }
            },
            EngineEvent::OfferReady { sdp } => {
                let idle = match self.phase {
                    Phase::Idle => true,
                    _ => false,
                };
                let receiver = match state.find_connection(self.connection_id.as_str()) {
                    Some(connection) => match connection.role {
                        ConnectionRole::Receiver => true,
                        ConnectionRole::Sender => false,
                    },
                    None => false,
                };
                if idle && receiver {
                    self.phase = Phase::ReceiverNegotiating;
                    Action::Send(ServerMessage::WebRtcOffer { offer: SdpMessage::offer(sdp) })
                } else {
                    Action::Nothing
                }
            },
            EngineEvent::AnswerReady { sdp } => {
                let open = match self.phase {
                    Phase::Idle => true,
                    Phase::SenderPending => true,
                    _ => false,
                };
                if open && state.find_connection(self.connection_id.as_str()).is_some() {
                    match self.phase {
                        Phase::SenderPending => {
                            self.answered = true;
                            if self.has_track {
                                self.phase = Phase::SenderActive;
                            }
                        },
                        _ => {},
                    }
                    Action::Send(ServerMessage::WebRtcAnswer { answer: SdpMessage::answer(sdp) })
                } else {
                    Action::Nothing
                }
            },
            EngineEvent::AnswerApplied => {
                match self.phase {
                    Phase::ReceiverNegotiating => {
                        self.phase = Phase::ReceiverActive;
                    },
                    _ => {},
                }
                Action::Nothing
            },
        }
    }
}

/// The text form of a random UUID: 36 characters in five groups of
/// hexadecimal digits with hyphens between them, the first digit of the
/// third group the version, 4, and the first digit of the fourth group the
/// variant, one of 8, 9, a and b.
pub open spec fn is_uuid_text(s: Seq<char>) -> bool {
    &&& s.len() == 36
    &&& s[8] == '-' && s[13] == '-' && s[18] == '-' && s[23] == '-'
    &&& forall|i: int|
        0 <= i < 36 && i != 8 && i != 13 && i != 18 && i != 23 ==> is_lower_hex(#[trigger] s[i])
    &&& s[14] == '4'
    &&& (s[19] == '8' || s[19] == '9' || s[19] == 'a' || s[19] == 'b')
}

/// `uuid::Uuid::new_v4`, written out by `to_string`: a random identifier.
/// Which one is not stated, only its form: `new_v4` sets the version and
/// variant bits, and `to_string` writes the hyphenated lower-case form.
#[verifier::external_body]
fn random_connection_id() -> (id: String)
    ensures
        is_uuid_text(id@),
{
    uuid::Uuid::new_v4().to_string()
}

} // verus!
