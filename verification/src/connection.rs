//! The handle of a native connection and its life, from creation to close.

use vstd::prelude::*;

use crate::config::RTCConfiguration;
use crate::error::RtcError;
use crate::negotiation::{
    CreateSessionDescription, CreateSessionDescriptionKind, OperationView, StageView,
};
use crate::raw::ConfigurationLayout;

verus! {

/// What a connection holds.
pub struct ConnectionView {
    /// The address of the native connection. It is never null.
    pub handle: usize,
    /// The configuration that the connection was made with.
    pub config: ConfigurationLayout,
    /// Whether the connection has been closed.
    pub closed: bool,
}

/// A native connection together with the configuration it was made with.
///
/// The connection borrows the configuration for as long as it lives, so the
/// buffers that the native side may still point into can neither change nor
/// go away before the connection does.
#[derive(Debug)]
pub struct RTCPeerConnection<'a> {
    raw: usize,
    config: &'a RTCConfiguration,
    closed: bool,
}

impl<'a> View for RTCPeerConnection<'a> {
    type V = ConnectionView;

    closed spec fn view(&self) -> ConnectionView {
        ConnectionView { handle: self.raw, config: self.config@, closed: self.closed }
    }
}

impl<'a> RTCPeerConnection<'a> {
    #[verifier::type_invariant]
    spec fn well_formed(self) -> bool {
        self.raw != 0
    }

    /// Takes over the connection that the native side made from `config`:
    /// `raw` is the address that its creation entry point returned. Fails
    /// with `ConnectionCreationFailed`, and yields no handle, exactly when
    /// that address is null.
    pub fn new(config: &'a RTCConfiguration, raw: usize) -> (r: Result<
        RTCPeerConnection<'a>,
        RtcError,
    >)
        ensures
            match r {
                Ok(c) => raw != 0 && c@ == (ConnectionView {
                    handle: raw,
                    config: config@,
                    closed: false,
                }),
                Err(e) => e == RtcError::ConnectionCreationFailed && raw == 0,
            },
    {
        if raw == 0 {
            Err(RtcError::ConnectionCreationFailed)
        } else {
            Ok(RTCPeerConnection { raw, config, closed: false })
        }
    }

    /// The address of the native connection, for a native operation on it.
    /// Fails with `UseAfterClose` exactly when the connection has been
    /// closed.
    pub fn handle(&self) -> (r: Result<usize, RtcError>)
        ensures
            match r {
                Ok(h) => !self@.closed && h == self@.handle && h != 0,
                Err(e) => e == RtcError::UseAfterClose && self@.closed,
            },
    {
        proof {
            use_type_invariant(self);
        }
        if self.closed {
            Err(RtcError::UseAfterClose)
        } else {
            Ok(self.raw)
        }
    }

    /// Whether the connection has been closed.
    pub fn is_closed(&self) -> (r: bool)
        ensures
            r == self@.closed,
    {
        self.closed
    }

    /// The creation of an offer on this connection, not yet started. Fails
    /// with `UseAfterClose` exactly when the connection has been closed.
    pub fn create_offer(&self) -> (r: Result<CreateSessionDescription, RtcError>)
        ensures
            match r {
                Ok(op) => !self@.closed && op@ == (OperationView {
                    kind: CreateSessionDescriptionKind::Offer,
                    peer: self@.handle,
                    stage: StageView::NotStarted,
                }),
                Err(e) => e == RtcError::UseAfterClose && self@.closed,
            },
    {
        match self.handle() {
            Ok(peer) => Ok(CreateSessionDescription::new(peer, CreateSessionDescriptionKind::Offer)),
            Err(e) => Err(e),
        }
    }

    /// The creation of an answer on this connection, not yet started. Fails
    /// with `UseAfterClose` exactly when the connection has been closed.
    pub fn create_answer(&self) -> (r: Result<CreateSessionDescription, RtcError>)
        ensures
            match r {
                Ok(op) => !self@.closed && op@ == (OperationView {
                    kind: CreateSessionDescriptionKind::Answer,
                    peer: self@.handle,
                    stage: StageView::NotStarted,
                }),
                Err(e) => e == RtcError::UseAfterClose && self@.closed,
            },
    {
        match self.handle() {
            Ok(peer) => Ok(
                CreateSessionDescription::new(peer, CreateSessionDescriptionKind::Answer),
            ),
            Err(e) => Err(e),
        }
    }

    /// Closes the connection and returns the address to hand to the native
    /// close entry point. Fails with `UseAfterClose`, and changes nothing, if
    /// the connection has been closed before: the address is handed out once.
    pub fn close(&mut self) -> (r: Result<usize, RtcError>)
        ensures
            match r {
                Ok(h) => {
                    &&& !old(self)@.closed
                    &&& h == old(self)@.handle
                    &&& h != 0
                    &&& final(self)@ == (ConnectionView { closed: true, ..old(self)@ })
                },
                Err(e) => {
                    &&& e == RtcError::UseAfterClose
                    &&& old(self)@.closed
                    &&& final(self)@ == old(self)@
                },
            },
    {
        proof {
            use_type_invariant(&*self);
        }
        if self.closed {
            Err(RtcError::UseAfterClose)
        } else {
            self.closed = true;
            Ok(self.raw)
        }
    }
}

} // verus!
