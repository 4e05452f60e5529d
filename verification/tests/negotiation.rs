use rtc_binding::config::{RTCConfiguration, RTCIceServer};
use rtc_binding::connection::RTCPeerConnection;
use rtc_binding::error::RtcError;
use rtc_binding::negotiation::{
    CreateSessionDescription, CreateSessionDescriptionContext, CreateSessionDescriptionKind,
    NativeCall, PollStep,
};
use rtc_binding::raw::RtcSessionDescriptionType;
use std::sync::atomic::{AtomicUsize, Ordering};
use std::sync::Arc;
use std::task::{Wake, Waker};

const OFFER: &str = "v=0\r\no=- 7614219274584779017 2 IN IP4 127.0.0.1\r\ns=-\r\nt=0 0\r\na=group:BUNDLE 0\r\n";

struct CountingWaker {
    woken: AtomicUsize,
}

impl Wake for CountingWaker {
    fn wake(self: Arc<Self>) {
        self.woken.fetch_add(1, Ordering::SeqCst);
    }
}

fn started(kind: CreateSessionDescriptionKind, peer: usize) -> (CreateSessionDescription, CreateSessionDescriptionContext) {
    let mut op = CreateSessionDescription::new(peer, kind);
    let mut context = CreateSessionDescriptionContext::new();
    assert_eq!(op.poll(&mut context, Waker::noop()), PollStep::Start(NativeCall { kind, peer }));
    (op, context)
}

#[test]
fn offer_scenario_from_configuration_to_description() {
    let mut server = RTCIceServer::default();
    server.set_urls(&["stun:example.com"]).unwrap();
    let mut config = RTCConfiguration::default();
    config.set_ice_servers(vec![server]);
    {
        let raw = config.as_raw();
        assert_eq!(raw.ice_servers_size, 1);
        let servers = raw.ice_servers.as_ref().unwrap();
        assert_eq!(servers[0].urls_size, 1);
        assert_eq!(servers[0].urls.unwrap()[0].as_bytes_with_nul(), b"stun:example.com\0");
        assert!(servers[0].credential.is_none());
        assert!(servers[0].username.is_none());
    }

    let peer = RTCPeerConnection::new(&config, 0x6000_0010).unwrap();
    let mut offer = peer.create_offer().unwrap();
    let mut context = CreateSessionDescriptionContext::new();

    let mut native_calls = Vec::new();
    match offer.poll(&mut context, Waker::noop()) {
        PollStep::Start(call) => native_calls.push(call),
        other => panic!("the first poll must start the native call, not {:?}", other),
    }
    assert_eq!(offer.poll(&mut context, Waker::noop()), PollStep::Pending);
    assert!(offer.outcome().is_none());

    assert_eq!(context.complete(0x6000_2000, 1, OFFER.as_bytes()), None);

    assert_eq!(offer.poll(&mut context, Waker::noop()), PollStep::Ready);
    let description = offer.outcome().unwrap().unwrap();
    assert_eq!(description.get_type(), RtcSessionDescriptionType::Offer);
    assert!(!description.get_sdp().unwrap().is_empty());
    assert_eq!(description.get_sdp(), Ok(OFFER));
    assert_eq!(
        native_calls,
        vec![NativeCall { kind: CreateSessionDescriptionKind::Offer, peer: 0x6000_0010 }]
    );
    assert_eq!(offer.release(), Some(0x6000_2000));
}

#[test]
fn the_native_call_is_asked_for_once_however_often_the_operation_is_polled() {
    let mut op = CreateSessionDescription::new(0x40, CreateSessionDescriptionKind::Offer);
    let mut context = CreateSessionDescriptionContext::new();
    let mut starts = 0;
    for _ in 0..5 {
        if let PollStep::Start(_) = op.poll(&mut context, Waker::noop()) {
            starts += 1;
        }
    }
    context.complete(0x9000, 1, OFFER.as_bytes());
    for _ in 0..5 {
        if let PollStep::Start(_) = op.poll(&mut context, Waker::noop()) {
            starts += 1;
        }
    }
    assert_eq!(starts, 1);
}

#[test]
fn an_operation_that_is_never_polled_asks_for_nothing() {
    let op = CreateSessionDescription::new(0x40, CreateSessionDescriptionKind::Answer);
    assert!(op.outcome().is_none());
}

#[test]
fn a_wake_without_a_completion_stays_pending() {
    let (mut op, mut context) = started(CreateSessionDescriptionKind::Offer, 0x40);
    for _ in 0..10 {
        assert_eq!(op.poll(&mut context, Waker::noop()), PollStep::Pending);
        assert!(op.outcome().is_none());
    }
    assert_eq!(context.complete(0x9000, 1, OFFER.as_bytes()), None);
    assert_eq!(op.poll(&mut context, Waker::noop()), PollStep::Ready);
    assert_eq!(op.outcome().unwrap().unwrap().get_sdp(), Ok(OFFER));
}

#[test]
fn a_null_completion_is_a_failed_negotiation() {
    let (mut op, mut context) = started(CreateSessionDescriptionKind::Offer, 0x40);
    assert_eq!(context.complete(0, 0, &[]), None);
    assert_eq!(op.poll(&mut context, Waker::noop()), PollStep::Ready);
    assert_eq!(op.outcome().unwrap().err(), Some(RtcError::NegotiationFailed));
    assert_eq!(op.release(), None);
}

#[test]
fn an_answer_resolves_to_an_answer() {
    let (mut op, mut context) = started(CreateSessionDescriptionKind::Answer, 0x40);
    assert_eq!(context.complete(0x9100, 3, b"v=0\r\n"), None);
    assert_eq!(op.poll(&mut context, Waker::noop()), PollStep::Ready);
    let d = op.outcome().unwrap().unwrap();
    assert_eq!(d.get_type(), RtcSessionDescriptionType::Answer);
    assert_eq!(d.get_sdp(), Ok("v=0\r\n"));
}

#[test]
fn polling_after_resolution_gives_the_same_outcome() {
    let (mut op, mut context) = started(CreateSessionDescriptionKind::Offer, 0x40);
    context.complete(0x9000, 1, OFFER.as_bytes());
    for _ in 0..4 {
        assert_eq!(op.poll(&mut context, Waker::noop()), PollStep::Ready);
        let d = op.outcome().unwrap().unwrap();
        assert_eq!(d.get_type(), RtcSessionDescriptionType::Offer);
        assert_eq!(d.get_sdp(), Ok(OFFER));
    }

    let (mut op, mut context) = started(CreateSessionDescriptionKind::Offer, 0x40);
    context.complete(0, 0, &[]);
    for _ in 0..4 {
        assert_eq!(op.poll(&mut context, Waker::noop()), PollStep::Ready);
        assert_eq!(op.outcome().unwrap().err(), Some(RtcError::NegotiationFailed));
    }
}

#[test]
fn a_second_invocation_of_the_callback_changes_nothing_and_its_payload_is_freed() {
    let (mut op, mut context) = started(CreateSessionDescriptionKind::Offer, 0x40);
    assert_eq!(context.complete(0x9000, 1, b"first"), None);
    assert_eq!(context.complete(0x9900, 3, b"second"), Some(0x9900));
    assert_eq!(context.complete(0, 0, &[]), None);
    assert_eq!(op.poll(&mut context, Waker::noop()), PollStep::Ready);
    let d = op.outcome().unwrap().unwrap();
    assert_eq!(d.get_type(), RtcSessionDescriptionType::Offer);
    assert_eq!(d.get_sdp(), Ok("first"));
    assert_eq!(context.complete(0x9a00, 1, b"third"), Some(0x9a00));
    assert_eq!(op.poll(&mut context, Waker::noop()), PollStep::Ready);
    assert_eq!(op.outcome().unwrap().unwrap().get_sdp(), Ok("first"));
    assert_eq!(op.release(), Some(0x9000));
    assert_eq!(op.release(), None);
}

#[test]
fn a_failure_is_not_overwritten_by_a_later_payload() {
    let (mut op, mut context) = started(CreateSessionDescriptionKind::Offer, 0x40);
    assert_eq!(context.complete(0, 0, &[]), None);
    assert_eq!(context.complete(0x9000, 1, OFFER.as_bytes()), Some(0x9000));
    assert_eq!(op.poll(&mut context, Waker::noop()), PollStep::Ready);
    assert_eq!(op.outcome().unwrap().err(), Some(RtcError::NegotiationFailed));
}

#[test]
fn a_payload_that_cannot_be_read_fails_the_negotiation_and_is_freed() {
    let (mut op, mut context) = started(CreateSessionDescriptionKind::Offer, 0x40);
    assert_eq!(context.complete(0x9000, 9, OFFER.as_bytes()), Some(0x9000));
    assert_eq!(op.poll(&mut context, Waker::noop()), PollStep::Ready);
    assert_eq!(op.outcome().unwrap().err(), Some(RtcError::NegotiationFailed));
    assert_eq!(op.release(), None);

    let (mut op, mut context) = started(CreateSessionDescriptionKind::Offer, 0x40);
    assert_eq!(context.complete(0x9000, 1, b"v=0\0"), Some(0x9000));
    assert_eq!(op.poll(&mut context, Waker::noop()), PollStep::Ready);
    assert_eq!(op.outcome().unwrap().err(), Some(RtcError::NegotiationFailed));
}

#[test]
fn a_completion_before_the_first_poll_is_found_by_the_second() {
    let mut op = CreateSessionDescription::new(0x40, CreateSessionDescriptionKind::Offer);
    let mut context = CreateSessionDescriptionContext::new();
    assert_eq!(context.complete(0x9000, 1, OFFER.as_bytes()), None);
    assert_eq!(
        op.poll(&mut context, Waker::noop()),
        PollStep::Start(NativeCall { kind: CreateSessionDescriptionKind::Offer, peer: 0x40 })
    );
    assert_eq!(op.poll(&mut context, Waker::noop()), PollStep::Ready);
    assert_eq!(op.outcome().unwrap().unwrap().get_sdp(), Ok(OFFER));
}

#[test]
fn every_payload_is_held_or_freed_exactly_once() {
    let (mut op, mut context) = started(CreateSessionDescriptionKind::Offer, 0x40);
    let mut freed = Vec::new();
    for (address, sdp_type) in [(0usize, 0), (0x100, 1), (0x200, 1), (0x300, 77), (0, 1)] {
        if let Some(a) = context.complete(address, sdp_type, b"v=0") {
            freed.push(a);
        }
        op.poll(&mut context, Waker::noop());
    }
    if let Some(a) = op.release() {
        freed.push(a);
    }
    freed.sort();
    assert_eq!(freed, vec![0x100, 0x200, 0x300]);
}

#[test]
fn a_completion_wakes_the_task_that_polled() {
    let counter = Arc::new(CountingWaker { woken: AtomicUsize::new(0) });
    let waker = Waker::from(counter.clone());
    let mut op = CreateSessionDescription::new(0x40, CreateSessionDescriptionKind::Offer);
    let mut context = CreateSessionDescriptionContext::new();
    op.poll(&mut context, &waker);
    assert_eq!(op.poll(&mut context, &waker), PollStep::Pending);
    assert_eq!(counter.woken.load(Ordering::SeqCst), 0);
    context.complete(0x9000, 1, OFFER.as_bytes());
    assert_eq!(counter.woken.load(Ordering::SeqCst), 1);
    assert_eq!(op.poll(&mut context, &waker), PollStep::Ready);
}

#[test]
fn a_completion_with_no_task_registered_wakes_nobody() {
    let mut context = CreateSessionDescriptionContext::new();
    assert_eq!(context.complete(0, 0, &[]), None);
}

#[test]
fn the_task_that_polled_last_is_the_one_that_is_woken() {
    let first = Arc::new(CountingWaker { woken: AtomicUsize::new(0) });
    let second = Arc::new(CountingWaker { woken: AtomicUsize::new(0) });
    let mut op = CreateSessionDescription::new(0x40, CreateSessionDescriptionKind::Answer);
    let mut context = CreateSessionDescriptionContext::new();
    op.poll(&mut context, &Waker::from(first.clone()));
    op.poll(&mut context, &Waker::from(second.clone()));
    context.complete(0, 0, &[]);
    assert_eq!(first.woken.load(Ordering::SeqCst), 0);
    assert_eq!(second.woken.load(Ordering::SeqCst), 1);
}
