//! Builders for what is handed to the native side when a connection is made.
//!
//! A builder owns every buffer. Its layout is derived on demand and borrows
//! from it, so no layout can outlive the builder or see it change.

use libc::c_int;
use vstd::prelude::*;

use crate::error::RtcError;
use crate::raw;
use crate::raw::{
    BundelPolicy, ConfigurationLayout, IceServerLayout, IceTransportPolicy, RtcpMuxPolicy,
};
use crate::text::{is_terminated, lemma_marshal_round_trip, marshal, unmarshal, NativeText};

verus! {

/// The contents of the buffers that hold `texts`, in order: `None` where one
/// of the texts cannot be marshalled.
pub open spec fn marshal_all(texts: Seq<&str>) -> Option<Seq<Seq<u8>>> {
    if forall|i: int| 0 <= i < texts.len() ==> marshal(#[trigger] texts[i]@) is Some {
        Some(Seq::new(texts.len(), |i: int| marshal(texts[i]@)->0))
    } else {
        None
    }
}

/// A list of texts is marshalled as a whole or not at all. It fails exactly
/// when one of the texts holds a null character. Otherwise there is one
/// buffer for each text, in order, and each buffer is terminated and reads
/// back as the text it was made from.
pub proof fn lemma_marshal_all(texts: Seq<&str>)
    ensures
        marshal_all(texts) is None <==> exists|i: int|
            0 <= i < texts.len() && (#[trigger] texts[i]@).contains('\0'),
        marshal_all(texts) matches Some(buffers) ==> {
            &&& buffers.len() == texts.len()
            &&& forall|i: int|
                0 <= i < texts.len() ==> {
                    &&& is_terminated((#[trigger] buffers[i]).push(0u8))
                    &&& unmarshal(buffers[i]) == Some(texts[i]@)
                }
        },
{
    assert forall|i: int| 0 <= i < texts.len() implies (marshal(#[trigger] texts[i]@) is Some
        <==> !texts[i]@.contains('\0')) by {
        lemma_marshal_round_trip(texts[i]@);
    }
    if let Some(buffers) = marshal_all(texts) {
        assert forall|i: int| 0 <= i < texts.len() implies {
            &&& is_terminated((#[trigger] buffers[i]).push(0u8))
            &&& unmarshal(buffers[i]) == Some(texts[i]@)
        } by {
            lemma_marshal_round_trip(texts[i]@);
        }
    }
}

/// One STUN or TURN server that the ICE agent may use.
#[derive(Debug)]
pub struct RTCIceServer {
    credential: Option<NativeText>,
    username: Option<NativeText>,
    urls: Option<Vec<NativeText>>,
}

impl View for RTCIceServer {
    type V = IceServerLayout;

    closed spec fn view(&self) -> IceServerLayout {
        IceServerLayout {
            credential: match self.credential {
                Some(t) => Some(t@),
                None => None,
            },
            urls: match self.urls {
                Some(urls) => Some(raw::text_contents(urls@)),
                None => None,
            },
            urls_size: match self.urls {
                Some(urls) => urls@.len() as int,
                None => 0,
            },
            username: match self.username {
                Some(t) => Some(t@),
                None => None,
            },
        }
    }
}

impl Default for RTCIceServer {
    /// A server with nothing set.
    fn default() -> (r: Self)
        ensures
            r@ == (IceServerLayout { credential: None, urls: None, urls_size: 0, username: None }),
    {
        RTCIceServer { credential: None, username: None, urls: None }
    }
}

impl RTCIceServer {
    #[verifier::type_invariant]
    spec fn well_formed(self) -> bool {
        self.urls matches Some(urls) ==> urls@.len() <= c_int::MAX
    }

    /// Sets the credential. Fails, and changes nothing, if `credential` holds
    /// a null character.
    pub fn set_credential(&mut self, credential: &str) -> (r: Result<(), RtcError>)
        ensures
            match r {
                Ok(_) => {
                    &&& marshal(credential@) is Some
                    &&& final(self)@ == (IceServerLayout {
                        credential: marshal(credential@),
                        ..old(self)@
                    })
                },
                Err(e) => {
                    &&& e == RtcError::InvalidText
                    &&& marshal(credential@) is None
                    &&& final(self)@ == old(self)@
                },
            },
    {
        proof {
            use_type_invariant(&*self);
        }
        match NativeText::new(credential) {
            Ok(text) => {
                self.credential = Some(text);
                Ok(())
            },
            Err(e) => Err(e),
        }
    }

    /// Sets the user name. Fails, and changes nothing, if `username` holds a
    /// null character.
    pub fn set_username(&mut self, username: &str) -> (r: Result<(), RtcError>)
        ensures
            match r {
                Ok(_) => {
                    &&& marshal(username@) is Some
                    &&& final(self)@ == (IceServerLayout {
                        username: marshal(username@),
                        ..old(self)@
                    })
                },
                Err(e) => {
                    &&& e == RtcError::InvalidText
                    &&& marshal(username@) is None
                    &&& final(self)@ == old(self)@
                },
            },
    {
        proof {
            use_type_invariant(&*self);
        }
        match NativeText::new(username) {
            Ok(text) => {
                self.username = Some(text);
                Ok(())
            },
            Err(e) => Err(e),
        }
    }

    /// Sets the URLs, one buffer for each, in order. Fails, and changes
    /// nothing, if one of `urls` holds a null character.
    pub fn set_urls(&mut self, urls: &[&str]) -> (r: Result<(), RtcError>)
        requires
            urls@.len() <= c_int::MAX,
        ensures
            match r {
                Ok(_) => {
                    &&& marshal_all(urls@) is Some
                    &&& final(self)@ == (IceServerLayout {
                        urls: marshal_all(urls@),
                        urls_size: urls@.len() as int,
                        ..old(self)@
                    })
                },
                Err(e) => {
                    &&& e == RtcError::InvalidText
                    &&& marshal_all(urls@) is None
                    &&& final(self)@ == old(self)@
                },
            },
    {
        let mut buffers: Vec<NativeText> = Vec::new();
        let mut i: usize = 0;
        while i < urls.len()
            invariant
                i <= urls@.len(),
                buffers@.len() == i,
                forall|j: int| 0 <= j < i ==> marshal(#[trigger] urls@[j]@) == Some(buffers@[j]@),
            decreases urls@.len() - i,
        {
            match NativeText::new(urls[i]) {
                Ok(text) => {
                    buffers.push(text);
                },
                Err(e) => {
                    assert(marshal(urls@[i as int]@) is None);
                    return Err(e);
                },
            }
            i = i + 1;
        }
        assert(raw::text_contents(buffers@) =~= marshal_all(urls@)->0);
        self.urls = Some(buffers);
        Ok(())
    }

    /// The server as the native side reads it. The layout borrows every
    /// buffer from `self`.
    pub fn as_raw(&self) -> (r: raw::RTCIceServer<'_>)
        ensures
            r@ == self@,
            r@.consistent(),
    {
        proof {
            use_type_invariant(self);
        }
        let urls: Option<&[NativeText]> = match &self.urls {
            Some(buffers) => Some(buffers.as_slice()),
            None => None,
        };
        let urls_size: c_int = match &self.urls {
            Some(buffers) => buffers.len() as c_int,
            None => 0,
        };
        raw::RTCIceServer {
            credential: self.credential.as_ref(),
            urls,
            urls_size,
            username: self.username.as_ref(),
        }
    }
}

/// The layouts of a list of ICE servers, in order.
pub open spec fn server_layouts(servers: Seq<RTCIceServer>) -> Seq<IceServerLayout> {
    servers.map_values(|s: RTCIceServer| s@)
}

/// What a connection is made with: policies, the identity that the remote
/// peer must prove, the ICE servers, and the size of the candidate pool. Each
/// of them may be left unset.
#[derive(Debug)]
pub struct RTCConfiguration {
    bundle_policy: Option<BundelPolicy>,
    ice_transport_policy: Option<IceTransportPolicy>,
    peer_identity: Option<NativeText>,
    rtcp_mux_policy: Option<RtcpMuxPolicy>,
    ice_servers: Option<Vec<RTCIceServer>>,
    ice_candidate_pool_size: Option<u8>,
}

impl View for RTCConfiguration {
    type V = ConfigurationLayout;

    closed spec fn view(&self) -> ConfigurationLayout {
        ConfigurationLayout {
            bundle_policy: match self.bundle_policy {
                Some(p) => Some(p.discriminant()),
                None => None,
            },
            ice_transport_policy: match self.ice_transport_policy {
                Some(p) => Some(p.discriminant()),
                None => None,
            },
            peer_identity: match self.peer_identity {
                Some(t) => Some(t@),
                None => None,
            },
            rtcp_mux_policy: match self.rtcp_mux_policy {
                Some(p) => Some(p.discriminant()),
                None => None,
            },
            ice_servers: match self.ice_servers {
                Some(servers) => Some(server_layouts(servers@)),
                None => None,
            },
            ice_servers_size: match self.ice_servers {
                Some(servers) => servers@.len() as int,
                None => 0,
            },
            ice_candidate_pool_size: match self.ice_candidate_pool_size {
                Some(n) => Some(n as int),
                None => None,
            },
        }
    }
}

impl Default for RTCConfiguration {
    /// A configuration with nothing set.
    fn default() -> (r: Self)
        ensures
            r@ == (ConfigurationLayout {
                bundle_policy: None,
                ice_transport_policy: None,
                peer_identity: None,
                rtcp_mux_policy: None,
                ice_servers: None,
                ice_servers_size: 0,
                ice_candidate_pool_size: None,
            }),
    {
        RTCConfiguration {
            bundle_policy: None,
            ice_transport_policy: None,
            peer_identity: None,
            rtcp_mux_policy: None,
            ice_servers: None,
            ice_candidate_pool_size: None,
        }
    }
}

impl RTCConfiguration {
    #[verifier::type_invariant]
    spec fn well_formed(self) -> bool {
        self.ice_servers matches Some(servers) ==> servers@.len() <= c_int::MAX
    }

    /// Sets the bundle policy.
    pub fn set_bundle_policy(&mut self, bundle_policy: BundelPolicy)
        ensures
            final(self)@ == (ConfigurationLayout {
                bundle_policy: Some(bundle_policy.discriminant()),
                ..old(self)@
            }),
    {
        proof {
            use_type_invariant(&*self);
        }
        self.bundle_policy = Some(bundle_policy);
    }

    /// Sets the ICE transport policy.
    pub fn set_ice_transport_policy(&mut self, ice_transport_policy: IceTransportPolicy)
        ensures
            final(self)@ == (ConfigurationLayout {
                ice_transport_policy: Some(ice_transport_policy.discriminant()),
                ..old(self)@
            }),
    {
        proof {
            use_type_invariant(&*self);
        }
        self.ice_transport_policy = Some(ice_transport_policy);
    }

    /// Sets the identity that the remote peer must prove. Fails, and changes
    /// nothing, if `peer_identity` holds a null character.
    pub fn set_peer_identity(&mut self, peer_identity: &str) -> (r: Result<(), RtcError>)
        ensures
            match r {
                Ok(_) => {
                    &&& marshal(peer_identity@) is Some
                    &&& final(self)@ == (ConfigurationLayout {
                        peer_identity: marshal(peer_identity@),
                        ..old(self)@
                    })
                },
                Err(e) => {
                    &&& e == RtcError::InvalidText
                    &&& marshal(peer_identity@) is None
                    &&& final(self)@ == old(self)@
                },
            },
    {
        proof {
            use_type_invariant(&*self);
        }
        match NativeText::new(peer_identity) {
            Ok(text) => {
                self.peer_identity = Some(text);
                Ok(())
            },
            Err(e) => Err(e),
        }
    }

    /// Sets the RTCP mux policy.
    pub fn set_rtcp_mux_policy(&mut self, rtcp_mux_policy: RtcpMuxPolicy)
        ensures
            final(self)@ == (ConfigurationLayout {
                rtcp_mux_policy: Some(rtcp_mux_policy.discriminant()),
                ..old(self)@
            }),
    {
        proof {
            use_type_invariant(&*self);
        }
        self.rtcp_mux_policy = Some(rtcp_mux_policy);
    }

    /// Sets the ICE servers. The configuration takes the servers over, so
    /// that their buffers live as long as it does.
    pub fn set_ice_servers(&mut self, ice_servers: Vec<RTCIceServer>)
        requires
            ice_servers@.len() <= c_int::MAX,
        ensures
            final(self)@ == (ConfigurationLayout {
                ice_servers: Some(server_layouts(ice_servers@)),
                ice_servers_size: ice_servers@.len() as int,
                ..old(self)@
            }),
    {
        proof {
            use_type_invariant(&*self);
        }
        self.ice_servers = Some(ice_servers);
    }

    /// Sets the size of the prefetched ICE candidate pool.
    pub fn set_ice_candidate_pool_size(&mut self, ice_candidate_pool_size: u8)
        ensures
            final(self)@ == (ConfigurationLayout {
                ice_candidate_pool_size: Some(ice_candidate_pool_size as int),
                ..old(self)@
            }),
    {
        proof {
            use_type_invariant(&*self);
        }
        self.ice_candidate_pool_size = Some(ice_candidate_pool_size);
    }

    /// The configuration as the native side reads it. The layout borrows
    /// every buffer from `self`; the array of ICE servers is derived anew on
    /// each call.
    pub fn as_raw(&self) -> (r: raw::RTCPeerConnectionConfigure<'_>)
        ensures
            r@ == self@,
            r@.consistent(),
    {
        proof {
            use_type_invariant(self);
        }
        let ice_servers: Option<Vec<raw::RTCIceServer<'_>>> = match &self.ice_servers {
            Some(servers) => {
                let mut layouts: Vec<raw::RTCIceServer<'_>> = Vec::new();
                let mut i: usize = 0;
                while i < servers.len()
                    invariant
                        i <= servers@.len(),
                        layouts@.len() == i,
                        forall|j: int|
                            0 <= j < i ==> {
                                &&& (#[trigger] layouts@[j])@ == servers@[j]@
                                &&& layouts@[j]@.consistent()
                            },
                    decreases servers@.len() - i,
                {
                    layouts.push(servers[i].as_raw());
                    i = i + 1;
                }
                assert(raw::ice_server_layouts(layouts@) =~= server_layouts(servers@));
                Some(layouts)
            },
            None => None,
        };
        let ice_servers_size: c_int = match &self.ice_servers {
            Some(servers) => servers.len() as c_int,
            None => 0,
        };
        let ice_candidate_pool_size: Option<c_int> = match self.ice_candidate_pool_size {
            Some(n) => Some(n as c_int),
            None => None,
        };
        raw::RTCPeerConnectionConfigure {
            bundle_policy: self.bundle_policy,
            ice_transport_policy: self.ice_transport_policy,
            peer_identity: self.peer_identity.as_ref(),
            rtcp_mux_policy: self.rtcp_mux_policy,
            ice_servers,
            ice_servers_size,
            ice_candidate_pool_size,
        }
    }
}

} // verus!
