//! Session descriptions and who has to free them.
//!
//! A description is written by the caller or delivered by the native side. One
//! that the native side delivered lives in native memory, which only the
//! native side can free: such a description remembers the address and hands
//! it out for freeing once, and only once.

use libc::c_int;
use vstd::prelude::*;

use crate::error::RtcError;
use crate::raw;
use crate::raw::{RtcSessionDescriptionType, SessionDescriptionLayout};
use crate::text::{marshal, marshal_bytes, unmarshal, NativeText};

verus! {

/// What a session description holds.
pub struct SessionDescriptionView {
    /// The part that the description plays in the exchange.
    pub sdp_type: RtcSessionDescriptionType,
    /// The content of the SDP text.
    pub sdp: Seq<u8>,
    /// The address of the native payload that still has to be freed, if the
    /// description came from the native side and has not been released.
    pub native: Option<usize>,
}

impl SessionDescriptionView {
    /// The description once its native payload, if any, was handed out.
    pub open spec fn released(self) -> SessionDescriptionView {
        SessionDescriptionView { native: None, ..self }
    }

    /// The description as the native side lays it out.
    pub open spec fn layout(self) -> SessionDescriptionLayout {
        SessionDescriptionLayout { sdp_type: self.sdp_type.discriminant(), sdp: self.sdp }
    }
}

/// What the native side delivered, read as a session description: `None`
/// where it delivered a null pointer, a type that does not exist, or text
/// with a null byte in it.
pub open spec fn read_native(address: usize, sdp_type: int, sdp: Seq<u8>) -> Option<
    SessionDescriptionView,
> {
    if address != 0 && RtcSessionDescriptionType::decode(sdp_type) is Some && marshal_bytes(sdp)
        is Some {
        Some(
            SessionDescriptionView {
                sdp_type: RtcSessionDescriptionType::decode(sdp_type)->0,
                sdp,
                native: Some(address),
            },
        )
    } else {
        None
    }
}

/// One end's description of a session: its part in the offer/answer exchange
/// and the SDP text.
#[derive(Debug)]
pub struct RTCSessionDescription {
    sdp_type: RtcSessionDescriptionType,
    sdp: NativeText,
    native: Option<usize>,
}

impl View for RTCSessionDescription {
    type V = SessionDescriptionView;

    closed spec fn view(&self) -> SessionDescriptionView {
        SessionDescriptionView { sdp_type: self.sdp_type, sdp: self.sdp@, native: self.native }
    }
}

impl RTCSessionDescription {
    /// A description that the caller wrote. It owns its text and owes the
    /// native side nothing. Fails if `sdp` holds a null character.
    pub fn new(sdp_type: RtcSessionDescriptionType, sdp: &str) -> (r: Result<
        RTCSessionDescription,
        RtcError,
    >)
        ensures
            match r {
                Ok(d) => {
                    &&& marshal(sdp@) is Some
                    &&& d@ == (SessionDescriptionView {
                        sdp_type,
                        sdp: marshal(sdp@)->0,
                        native: None,
                    })
                },
                Err(e) => e == RtcError::InvalidText && marshal(sdp@) is None,
            },
    {
        match NativeText::new(sdp) {
            Ok(text) => Ok(RTCSessionDescription { sdp_type, sdp: text, native: None }),
            Err(e) => Err(e),
        }
    }

    /// A description that the native side delivered: `address` is where its
    /// payload lies, `sdp_type` and `sdp` are what was read there, the text
    /// without its terminator. The description takes over the duty to have
    /// the payload freed. Fails with `NegotiationFailed` if the address is
    /// null or what was read is no description; the payload is then not
    /// taken over.
    pub fn from_raw(address: usize, sdp_type: c_int, sdp: &[u8]) -> (r: Result<
        RTCSessionDescription,
        RtcError,
    >)
        ensures
            match r {
                Ok(d) => read_native(address, sdp_type as int, sdp@) == Some(d@),
                Err(e) => {
                    &&& e == RtcError::NegotiationFailed
                    &&& read_native(address, sdp_type as int, sdp@) is None
                },
            },
    {
        if address == 0 {
            return Err(RtcError::NegotiationFailed);
        }
        match RtcSessionDescriptionType::from_raw(sdp_type) {
            Some(decoded) => match NativeText::from_bytes(sdp) {
                Ok(text) => Ok(
                    RTCSessionDescription { sdp_type: decoded, sdp: text, native: Some(address) },
                ),
                Err(_) => Err(RtcError::NegotiationFailed),
            },
            None => Err(RtcError::NegotiationFailed),
        }
    }

    /// The part that the description plays in the exchange.
    pub fn get_type(&self) -> (r: RtcSessionDescriptionType)
        ensures
            r == self@.sdp_type,
    {
        self.sdp_type
    }

    /// The SDP text. Fails if the native side delivered bytes that are not
    /// valid UTF-8.
    pub fn get_sdp(&self) -> (r: Result<&str, RtcError>)
        ensures
            match r {
                Ok(s) => unmarshal(self@.sdp) == Some(s@),
                Err(e) => e == RtcError::Utf8DecodingFailed && unmarshal(self@.sdp) is None,
            },
    {
        self.sdp.to_str()
    }

    /// The description as the native side reads it. The layout borrows the
    /// text from `self`.
    pub fn as_raw(&self) -> (r: raw::RTCSessionDescription<'_>)
        ensures
            r@ == self@.layout(),
    {
        raw::RTCSessionDescription { sdp_type: self.sdp_type, sdp: &self.sdp }
    }

    /// A copy of the type and the text that owes the native side nothing.
    /// The duty to have the payload freed stays with `self`.
    pub fn detached(&self) -> (r: RTCSessionDescription)
        ensures
            r@ == self@.released(),
    {
        RTCSessionDescription { sdp_type: self.sdp_type, sdp: self.sdp.clone(), native: None }
    }

    /// Hands out the address of the native payload for freeing. Only the
    /// first call on a description that the native side delivered returns
    /// an address; the type and the text stay readable.
    pub fn release(&mut self) -> (r: Option<usize>)
        ensures
            r == old(self)@.native,
            final(self)@ == old(self)@.released(),
    {
        self.native.take()
    }
}

/// A native payload is handed out for freeing at most once: whatever a
/// description holds, after one release it holds no address, so that a
/// second release hands out nothing and changes nothing. A release leaves
/// the type and the text as they were, and changes nothing at all in a
/// description that holds no address, as one that the caller wrote.
pub proof fn lemma_release_once(d: SessionDescriptionView)
    ensures
        d.released().native is None,
        d.released().released() == d.released(),
        d.released().sdp_type == d.sdp_type,
        d.released().sdp == d.sdp,
        d.native is None ==> d.released() == d,
{
}

/// What is read from a native payload matches the payload: the type is the
/// one that the payload's number stands for, the text is the payload's text,
/// byte for byte, and the address to free is the payload's own.
pub proof fn lemma_read_native_matches(address: usize, sdp_type: int, sdp: Seq<u8>)
    ensures
        read_native(address, sdp_type, sdp) matches Some(d) ==> {
            &&& d.sdp_type.discriminant() == sdp_type
            &&& d.sdp == sdp
            &&& d.native == Some(address)
            &&& address != 0
        },
        address == 0 ==> read_native(address, sdp_type, sdp) is None,
{
}

} // verus!
