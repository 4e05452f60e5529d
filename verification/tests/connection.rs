use rtc_binding::config::{RTCConfiguration, RTCIceServer};
use rtc_binding::connection::RTCPeerConnection;
use rtc_binding::error::RtcError;
use rtc_binding::negotiation::{
    CreateSessionDescriptionContext, CreateSessionDescriptionKind, NativeCall, PollStep,
};
use std::task::Waker;

#[test]
fn a_null_handle_is_a_failed_creation() {
    let config = RTCConfiguration::default();
    let r = RTCPeerConnection::new(&config, 0);
    assert_eq!(r.err(), Some(RtcError::ConnectionCreationFailed));
}

#[test]
fn creation_with_defaults_that_the_native_side_refuses_yields_no_handle() {
    let config = RTCConfiguration::default();
    let raw = config.as_raw();
    assert!(raw.ice_servers.is_none());
    assert_eq!(raw.ice_servers_size, 0);
    let native_returned: usize = 0;
    match RTCPeerConnection::new(&config, native_returned) {
        Ok(_) => panic!("a null handle must not give a connection"),
        Err(e) => assert_eq!(e, RtcError::ConnectionCreationFailed),
    }
}

#[test]
fn a_handle_is_kept_until_close() {
    let config = RTCConfiguration::default();
    let mut peer = RTCPeerConnection::new(&config, 0x5555_0000).unwrap();
    assert!(!peer.is_closed());
    assert_eq!(peer.handle(), Ok(0x5555_0000));
    assert_eq!(peer.close(), Ok(0x5555_0000));
    assert!(peer.is_closed());
}

#[test]
fn a_closed_connection_refuses_every_use() {
    let config = RTCConfiguration::default();
    let mut peer = RTCPeerConnection::new(&config, 0x5555_0000).unwrap();
    peer.close().unwrap();
    assert_eq!(peer.handle(), Err(RtcError::UseAfterClose));
    assert_eq!(peer.create_offer().err(), Some(RtcError::UseAfterClose));
    assert_eq!(peer.create_answer().err(), Some(RtcError::UseAfterClose));
    assert_eq!(peer.close(), Err(RtcError::UseAfterClose));
    assert!(peer.is_closed());
}

#[test]
fn an_offer_asks_for_the_offer_entry_point_on_this_connection() {
    let config = RTCConfiguration::default();
    let peer = RTCPeerConnection::new(&config, 0xabc0).unwrap();
    let mut op = peer.create_offer().unwrap();
    let mut context = CreateSessionDescriptionContext::new();
    assert_eq!(
        op.poll(&mut context, Waker::noop()),
        PollStep::Start(NativeCall { kind: CreateSessionDescriptionKind::Offer, peer: 0xabc0 })
    );
}

#[test]
fn an_answer_asks_for_the_answer_entry_point_on_this_connection() {
    let config = RTCConfiguration::default();
    let peer = RTCPeerConnection::new(&config, 0xabc0).unwrap();
    let mut op = peer.create_answer().unwrap();
    let mut context = CreateSessionDescriptionContext::new();
    assert_eq!(
        op.poll(&mut context, Waker::noop()),
        PollStep::Start(NativeCall { kind: CreateSessionDescriptionKind::Answer, peer: 0xabc0 })
    );
}

#[test]
fn a_connection_is_made_from_a_configuration_with_servers() {
    let mut server = RTCIceServer::default();
    server.set_urls(&["stun:example.com"]).unwrap();
    let mut config = RTCConfiguration::default();
    config.set_ice_servers(vec![server]);
    let peer = RTCPeerConnection::new(&config, 0x1).unwrap();
    assert_eq!(peer.handle(), Ok(0x1));
    assert_eq!(config.as_raw().ice_servers_size, 1);
}
