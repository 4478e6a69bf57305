//! The tagged vocabulary exchanged over a connection's control channel.

use vstd::prelude::*;

verus! {

/// A session description as it travels over the control channel.
#[derive(Debug, Clone)]
pub struct SdpMessage {
    pub sdp: String,
    pub kind: String,
}

/// A connectivity candidate as it travels over the control channel.
#[derive(Debug, Clone)]
pub struct CandidateMessage {
    pub candidate: String,
    pub sdp_mid: Option<String>,
    pub sdp_mline_index: Option<u16>,
}

/// A message from a client to the hub.
#[derive(Debug, Clone)]
pub enum ClientMessage {
    StartSending,
    StartReceiving { stream_id: Option<String> },
    WebRtcOffer { offer: SdpMessage },
    WebRtcAnswer { answer: SdpMessage },
    IceCandidate { candidate: CandidateMessage },
    GetAvailableStreams,
    StopStream,
}

/// A message from the hub to a client.
#[derive(Debug, Clone)]
pub enum ServerMessage {
    SenderReady { connection_id: String },
    AvailableStreams { streams: Vec<String> },
    StreamAvailable { stream_id: String },
    StreamEnded { stream_id: String },
    WebRtcOffer { offer: SdpMessage },
    WebRtcAnswer { answer: SdpMessage },
    Error { message: String },
}

/// The text of the error sent when a client asks to receive and no stream is live.
pub open spec fn no_stream_text() -> Seq<char> {
    "No audio stream available"@
}

/// The views of a sequence of strings, element by element.
pub open spec fn string_views(v: Seq<String>) -> Seq<Seq<char>> {
    v.map_values(|s: String| s@)
}

impl SdpMessage {
    /// A local offer carrying `sdp`.
    pub fn offer(sdp: String) -> (m: SdpMessage)
        ensures
            m.sdp@ == sdp@,
            m.kind@ == "offer"@,
    {
        SdpMessage { sdp, kind: "offer".to_owned() }
    }

    /// A local answer carrying `sdp`.
    pub fn answer(sdp: String) -> (m: SdpMessage)
        ensures
            m.sdp@ == sdp@,
            m.kind@ == "answer"@,
    {
        SdpMessage { sdp, kind: "answer".to_owned() }
    }
}

} // verus!
