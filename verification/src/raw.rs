//! The native interface as the managed side sees it: which number stands for
//! which enumeration value, and what each native structure holds.
//!
//! A structure here is a borrowed picture of native memory. Where the native
//! structure has a pointer to text, the picture has a reference to a
//! [`NativeText`]; where it has a nullable pointer, an `Option` of one; where
//! it has a pointer and a count, a slice and the count. The lifetime ties the
//! picture to the buffers it points into.
//!
//! The view of a picture gives each text by its content and each enumeration
//! value by its number. In memory a null byte follows each content: see
//! [`NativeText::terminated`].

use libc::c_int;
use vstd::prelude::*;

use crate::text::NativeText;

verus! {

/// How to negotiate candidates when the remote peer does not support BUNDLE.
#[derive(Clone, Copy, Debug, PartialEq, Eq, Structural)]
pub enum BundelPolicy {
    /// One transport for each kind of content: audio, video and data.
    Balanced,
    /// One transport for each media track and one for data channels.
    MaxCompat,
    /// A single transport for everything.
    MaxBundle,
}

impl BundelPolicy {
    /// The number that the native side uses for this policy.
    pub open spec fn discriminant(self) -> int {
        match self {
            BundelPolicy::Balanced => 1,
            BundelPolicy::MaxCompat => 2,
            BundelPolicy::MaxBundle => 3,
        }
    }

    /// The policy as the native side expects it.
    pub fn to_raw(self) -> (r: c_int)
        ensures
            r == self.discriminant(),
    {
        match self {
            BundelPolicy::Balanced => 1,
            BundelPolicy::MaxCompat => 2,
            BundelPolicy::MaxBundle => 3,
        }
    }
}

/// Which ICE candidates are considered.
#[derive(Clone, Copy, Debug, PartialEq, Eq, Structural)]
pub enum IceTransportPolicy {
    /// No candidates.
    NoCandidates,
    /// Only candidates whose addresses are relayed, as through a TURN server.
    Relay,
    /// Only candidates with public addresses.
    Public,
    /// All candidates.
    All,
}

impl IceTransportPolicy {
    /// The number that the native side uses for this policy.
    pub open spec fn discriminant(self) -> int {
        match self {
            IceTransportPolicy::NoCandidates => 1,
            IceTransportPolicy::Relay => 2,
            IceTransportPolicy::Public => 3,
            IceTransportPolicy::All => 4,
        }
    }

    /// The policy as the native side expects it.
    pub fn to_raw(self) -> (r: c_int)
        ensures
            r == self.discriminant(),
    {
        match self {
            IceTransportPolicy::NoCandidates => 1,
            IceTransportPolicy::Relay => 2,
            IceTransportPolicy::Public => 3,
            IceTransportPolicy::All => 4,
        }
    }
}

/// Whether RTCP is multiplexed on the RTP transport.
#[derive(Clone, Copy, Debug, PartialEq, Eq, Structural)]
pub enum RtcpMuxPolicy {
    /// Gather candidates for both RTP and RTCP.
    Negotiate,
    /// Gather candidates for RTP only and multiplex RTCP on them.
    Require,
}

impl RtcpMuxPolicy {
    /// The number that the native side uses for this policy.
    pub open spec fn discriminant(self) -> int {
        match self {
            RtcpMuxPolicy::Negotiate => 1,
            RtcpMuxPolicy::Require => 2,
        }
    }

    /// The policy as the native side expects it.
    pub fn to_raw(self) -> (r: c_int)
        ensures
            r == self.discriminant(),
    {
        match self {
            RtcpMuxPolicy::Negotiate => 1,
            RtcpMuxPolicy::Require => 2,
        }
    }
}

/// The part that a session description plays in the offer/answer exchange.
#[derive(Clone, Copy, Debug, PartialEq, Eq, Structural)]
pub enum RtcSessionDescriptionType {
    /// The initial proposal.
    Offer,
    /// An answer that is not final.
    PrAnswer,
    /// The final answer.
    Answer,
    /// A return to the previous stable state.
    Rollback,
}

impl RtcSessionDescriptionType {
    /// The number that the native side uses for this type.
    pub open spec fn discriminant(self) -> int {
        match self {
            RtcSessionDescriptionType::Offer => 1,
            RtcSessionDescriptionType::PrAnswer => 2,
            RtcSessionDescriptionType::Answer => 3,
            RtcSessionDescriptionType::Rollback => 4,
        }
    }

    /// The type that the native side means by `value`, if it means one.
    pub open spec fn decode(value: int) -> Option<RtcSessionDescriptionType> {
        if value == 1 {
            Some(RtcSessionDescriptionType::Offer)
        } else if value == 2 {
            Some(RtcSessionDescriptionType::PrAnswer)
        } else if value == 3 {
            Some(RtcSessionDescriptionType::Answer)
        } else if value == 4 {
            Some(RtcSessionDescriptionType::Rollback)
        } else {
            None
        }
    }

    /// The type as the native side expects it.
    pub fn to_raw(self) -> (r: c_int)
        ensures
            r == self.discriminant(),
    {
        match self {
            RtcSessionDescriptionType::Offer => 1,
            RtcSessionDescriptionType::PrAnswer => 2,
            RtcSessionDescriptionType::Answer => 3,
            RtcSessionDescriptionType::Rollback => 4,
        }
    }

    /// Reads a number that came from the native side. `None` for a number
    /// that stands for no type.
    pub fn from_raw(value: c_int) -> (r: Option<RtcSessionDescriptionType>)
        ensures
            r == RtcSessionDescriptionType::decode(value as int),
    {
        if value == 1 {
            Some(RtcSessionDescriptionType::Offer)
        } else if value == 2 {
            Some(RtcSessionDescriptionType::PrAnswer)
        } else if value == 3 {
            Some(RtcSessionDescriptionType::Answer)
        } else if value == 4 {
            Some(RtcSessionDescriptionType::Rollback)
        } else {
            None
        }
    }

    /// Decoding inverts encoding: a number is read as a type exactly when it
    /// is the number of that type.
    pub proof fn lemma_decode_inverts_discriminant(self, value: int)
        ensures
            RtcSessionDescriptionType::decode(value) == Some(self) <==> value
                == self.discriminant(),
    {
    }
}

/// The state of a connection, as the native side reports it.
#[derive(Clone, Copy, Debug, PartialEq, Eq, Structural)]
pub enum ConnectionState {
    /// No transport has started to connect.
    New,
    /// At least one transport is establishing a connection.
    Checking,
    /// Every transport is connected or closed, and one is connected.
    Connected,
    /// At least one transport has lost its connection.
    Disconnected,
    /// The connection is closed.
    Close,
    /// At least one transport has failed.
    Failed,
}

impl ConnectionState {
    /// The number that the native side uses for this state.
    pub open spec fn discriminant(self) -> int {
        match self {
            ConnectionState::New => 1,
            ConnectionState::Checking => 2,
            ConnectionState::Connected => 3,
            ConnectionState::Disconnected => 4,
            ConnectionState::Close => 5,
            ConnectionState::Failed => 6,
        }
    }

    /// The state that the native side means by `value`, if it means one.
    pub open spec fn decode(value: int) -> Option<ConnectionState> {
        if value == 1 {
            Some(ConnectionState::New)
        } else if value == 2 {
            Some(ConnectionState::Checking)
        } else if value == 3 {
            Some(ConnectionState::Connected)
        } else if value == 4 {
            Some(ConnectionState::Disconnected)
        } else if value == 5 {
            Some(ConnectionState::Close)
        } else if value == 6 {
            Some(ConnectionState::Failed)
        } else {
            None
        }
    }

    /// The state as the native side expects it.
    pub fn to_raw(self) -> (r: c_int)
        ensures
            r == self.discriminant(),
    {
        match self {
            ConnectionState::New => 1,
            ConnectionState::Checking => 2,
            ConnectionState::Connected => 3,
            ConnectionState::Disconnected => 4,
            ConnectionState::Close => 5,
            ConnectionState::Failed => 6,
        }
    }

    /// Reads a number that came from the native side. `None` for a number
    /// that stands for no state.
    pub fn from_raw(value: c_int) -> (r: Option<ConnectionState>)
        ensures
            r == ConnectionState::decode(value as int),
    {
        if value == 1 {
            Some(ConnectionState::New)
        } else if value == 2 {
            Some(ConnectionState::Checking)
        } else if value == 3 {
            Some(ConnectionState::Connected)
        } else if value == 4 {
            Some(ConnectionState::Disconnected)
        } else if value == 5 {
            Some(ConnectionState::Close)
        } else if value == 6 {
            Some(ConnectionState::Failed)
        } else {
            None
        }
    }

    /// Decoding inverts encoding: a number is read as a state exactly when it
    /// is the number of that state.
    pub proof fn lemma_decode_inverts_discriminant(self, value: int)
        ensures
            ConnectionState::decode(value) == Some(self) <==> value == self.discriminant(),
    {
    }
}

/// The content of an optional text.
pub open spec fn text_content(text: Option<&NativeText>) -> Option<Seq<u8>> {
    match text {
        Some(t) => Some(t@),
        None => None,
    }
}

/// The contents of an array of texts, in order.
pub open spec fn text_contents(texts: Seq<NativeText>) -> Seq<Seq<u8>> {
    texts.map_values(|t: NativeText| t@)
}

/// What the native side reads from an ICE server descriptor.
pub struct IceServerLayout {
    pub credential: Option<Seq<u8>>,
    pub urls: Option<Seq<Seq<u8>>>,
    pub urls_size: int,
    pub username: Option<Seq<u8>>,
}

impl IceServerLayout {
    /// Whether the count is the length of the array it goes with, and zero
    /// where there is none.
    pub open spec fn consistent(self) -> bool {
        self.urls_size == match self.urls {
            Some(urls) => urls.len() as int,
            None => 0,
        }
    }
}

/// An ICE server as the native side reads it.
#[derive(Clone, Copy, Debug)]
pub struct RTCIceServer<'a> {
    /// The credential, or null.
    pub credential: Option<&'a NativeText>,
    /// The array of URLs, or null.
    pub urls: Option<&'a [NativeText]>,
    /// The number of entries in `urls`.
    pub urls_size: c_int,
    /// The user name, or null.
    pub username: Option<&'a NativeText>,
}

impl<'a> View for RTCIceServer<'a> {
    type V = IceServerLayout;

    open spec fn view(&self) -> IceServerLayout {
        IceServerLayout {
            credential: text_content(self.credential),
            urls: match self.urls {
                Some(urls) => Some(text_contents(urls@)),
                None => None,
            },
            urls_size: self.urls_size as int,
            username: text_content(self.username),
        }
    }
}

/// What the native side reads from a connection configuration.
pub struct ConfigurationLayout {
    pub bundle_policy: Option<int>,
    pub ice_transport_policy: Option<int>,
    pub peer_identity: Option<Seq<u8>>,
    pub rtcp_mux_policy: Option<int>,
    pub ice_servers: Option<Seq<IceServerLayout>>,
    pub ice_servers_size: int,
    pub ice_candidate_pool_size: Option<int>,
}

impl ConfigurationLayout {
    /// Whether each count is the length of the array it goes with, and zero
    /// where there is none, here and in every ICE server.
    pub open spec fn consistent(self) -> bool {
        &&& self.ice_servers_size == match self.ice_servers {
            Some(servers) => servers.len() as int,
            None => 0,
        }
        &&& self.ice_servers matches Some(servers) ==> forall|i: int|
            0 <= i < servers.len() ==> (#[trigger] servers[i]).consistent()
    }
}

/// The layouts of an array of ICE servers, in order.
pub open spec fn ice_server_layouts(servers: Seq<RTCIceServer<'_>>) -> Seq<IceServerLayout> {
    servers.map_values(|s: RTCIceServer<'_>| s@)
}

/// A connection configuration as the native side reads it.
#[derive(Debug)]
pub struct RTCPeerConnectionConfigure<'a> {
    /// The bundle policy, or unset.
    pub bundle_policy: Option<BundelPolicy>,
    /// The ICE transport policy, or unset.
    pub ice_transport_policy: Option<IceTransportPolicy>,
    /// The identity that the remote peer must prove, or null.
    pub peer_identity: Option<&'a NativeText>,
    /// The RTCP mux policy, or unset.
    pub rtcp_mux_policy: Option<RtcpMuxPolicy>,
    /// The array of ICE servers, or null.
    pub ice_servers: Option<Vec<RTCIceServer<'a>>>,
    /// The number of entries in `ice_servers`.
    pub ice_servers_size: c_int,
    /// The size of the prefetched ICE candidate pool, or unset.
    pub ice_candidate_pool_size: Option<c_int>,
}

impl<'a> View for RTCPeerConnectionConfigure<'a> {
    type V = ConfigurationLayout;

    open spec fn view(&self) -> ConfigurationLayout {
        ConfigurationLayout {
            bundle_policy: match self.bundle_policy {
                Some(p) => Some(p.discriminant()),
                None => None,
            },
            ice_transport_policy: match self.ice_transport_policy {
                Some(p) => Some(p.discriminant()),
                None => None,
            },
            peer_identity: text_content(self.peer_identity),
            rtcp_mux_policy: match self.rtcp_mux_policy {
                Some(p) => Some(p.discriminant()),
                None => None,
            },
            ice_servers: match self.ice_servers {
                Some(servers) => Some(ice_server_layouts(servers@)),
                None => None,
            },
            ice_servers_size: self.ice_servers_size as int,
            ice_candidate_pool_size: match self.ice_candidate_pool_size {
                Some(n) => Some(n as int),
                None => None,
            },
        }
    }
}

/// What the native side reads from, or writes to, a session description.
pub struct SessionDescriptionLayout {
    pub sdp_type: int,
    pub sdp: Seq<u8>,
}

/// A session description as the native side lays it out.
#[derive(Clone, Copy, Debug)]
pub struct RTCSessionDescription<'a> {
    /// The part that the description plays in the exchange.
    pub sdp_type: RtcSessionDescriptionType,
    /// The SDP text.
    pub sdp: &'a NativeText,
}

impl<'a> View for RTCSessionDescription<'a> {
    type V = SessionDescriptionLayout;

    open spec fn view(&self) -> SessionDescriptionLayout {
        SessionDescriptionLayout { sdp_type: self.sdp_type.discriminant(), sdp: self.sdp@ }
    }
}

/// An ICE candidate as the native side reads it.
#[derive(Clone, Copy, Debug)]
pub struct RTCIceCandidate<'a> {
    /// The candidate attribute. An empty text marks the end of the
    /// candidates.
    pub candidate: &'a NativeText,
    /// The identification tag of the media stream, or null.
    pub sdp_mid: Option<&'a NativeText>,
    /// The index of the media description that the candidate belongs to.
    pub sdp_mline_index: c_int,
}

/// A media track as the native side reads it.
#[derive(Clone, Copy, Debug)]
pub struct MediaStreamTrack<'a> {
    /// Whether the track may render its source.
    pub enabled: bool,
    /// The identifier of the track.
    pub id: &'a NativeText,
    /// `audio` or `video`.
    pub kind: &'a NativeText,
    /// The label of the source.
    pub label: &'a NativeText,
    /// Whether the track cannot provide data for a technical reason.
    pub muted: bool,
    /// Whether an input is connected.
    pub ready_state: bool,
    /// Whether the track comes from a peer connection.
    pub remote: bool,
    /// The width of a video frame.
    pub width: u32,
    /// The height of a video frame.
    pub height: u32,
    /// The number of frames in a second.
    pub frame_rate: c_int,
}

/// One frame of media as the native side reads it.
#[derive(Clone, Copy, Debug)]
pub struct MediaStreamTrackFrame<'a> {
    /// The bytes of the frame.
    pub buf: &'a [u8],
    /// The number of bytes in `buf`.
    pub len: u64,
}

impl<'a> MediaStreamTrackFrame<'a> {
    /// The frame that holds `buf`, with the length that goes with it.
    pub fn new(buf: &'a [u8]) -> (r: MediaStreamTrackFrame<'a>)
        ensures
            r.buf@ == buf@,
            r.len == buf@.len(),
    {
        MediaStreamTrackFrame { buf, len: buf.len() as u64 }
    }
}

/// A data channel as the native side reports it.
#[derive(Clone, Copy, Debug)]
pub struct RTCDataChannel<'a> {
    /// The identifier of the channel.
    pub id: &'a NativeText,
    /// The label of the channel.
    pub label: &'a NativeText,
}

} // verus!