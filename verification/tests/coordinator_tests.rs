use janus_client::coordinator::{
    Action, CoordState, Coordinator, Event, NegotiationState, REMOTE_CANDIDATE_CAP,
};
use janus_client::envelope::{Envelope, IceCandidate};
use janus_client::errors::GatewayError;

fn cand(mline: u64, s: &str) -> IceCandidate {
    IceCandidate { mline, candidate: String::from(s) }
}

fn new_client() -> Coordinator {
    Coordinator::new(String::from("videoroom"))
}

/// Drives a fresh coordinator to `OfferPending`: transport up, session 100
/// created, handle 200 attached. Consumes transaction identifiers 0 and 1.
fn client_at_offer_pending() -> Coordinator {
    let mut c = new_client();
    let acts = c.step(Event::TransportUp);
    assert!(matches!(acts[0], Action::Send(Envelope::CreateSession { txn: 0 })));
    let acts = c.step(Event::Inbound(Envelope::Success { txn: 0, id: 100 }));
    match &acts[0] {
        Action::Send(Envelope::AttachHandle { txn, session, plugin }) => {
            assert_eq!(*txn, 1);
            assert_eq!(*session, 100);
            assert_eq!(plugin, "videoroom");
        },
        _ => panic!("expected the attach-handle request"),
    }
    let acts = c.step(Event::Inbound(Envelope::Success { txn: 1, id: 200 }));
    assert_eq!(acts.len(), 1);
    assert!(matches!(acts[0], Action::RequestOffer));
    assert_eq!(c.state, CoordState::OfferPending);
    assert_eq!(c.neg, NegotiationState::OfferRequested);
    c
}

/// Drives on to `Negotiating`: the offer goes out as transaction 2.
fn client_negotiating() -> Coordinator {
    let mut c = client_at_offer_pending();
    let acts = c.step(Event::OfferReady { sdp: String::from("v=0 local-offer") });
    assert_eq!(acts.len(), 1);
    match &acts[0] {
        Action::Send(Envelope::Offer { txn, session, handle, sdp }) => {
            assert_eq!(*txn, 2);
            assert_eq!(*session, 100);
            assert_eq!(*handle, 200);
            assert_eq!(sdp, "v=0 local-offer");
        },
        _ => panic!("expected the offer envelope"),
    }
    assert_eq!(c.state, CoordState::Negotiating);
    assert_eq!(c.neg, NegotiationState::OfferSent);
    c
}

#[test]
fn connect_failure_is_transport_error_with_nothing_created() {
    let mut c = new_client();
    let acts = c.step(Event::ConnectFailed { timed_out: false });
    assert_eq!(acts.len(), 0);
    assert_eq!(c.state, CoordState::Failed);
    assert_eq!(c.outcome(), Some(Err(GatewayError::TransportError)));
    // No session or handle ever existed.
    assert!(c.mgr.session.is_none());
    assert!(c.mgr.handle.is_none());
}

#[test]
fn connect_timeout_is_timeout() {
    let mut c = new_client();
    c.step(Event::ConnectFailed { timed_out: true });
    assert_eq!(c.outcome(), Some(Err(GatewayError::Timeout)));
}

#[test]
fn session_error_code_propagates() {
    let mut c = new_client();
    c.step(Event::TransportUp);
    let acts = c.step(Event::Inbound(Envelope::Error {
        txn: 0,
        code: 458,
        reason: String::from("No such session"),
    }));
    assert_eq!(c.state, CoordState::Failed);
    assert_eq!(c.outcome(), Some(Err(GatewayError::ProtocolError { code: 458 })));
    // The pending wait resolved with the error, and the channel was closed.
    assert!(matches!(
        acts[0],
        Action::ResolveWait { txn: 0, outcome: GatewayError::ProtocolError { code: 458 } }
    ));
    assert!(matches!(acts[1], Action::CloseTransport));
}

#[test]
fn offer_answer_round_trip_reaches_connected() {
    let mut c = client_negotiating();
    let acts = c.step(Event::Inbound(Envelope::Answer {
        txn: 2,
        sdp: String::from("v=0 remote-answer"),
    }));
    assert_eq!(acts.len(), 1);
    match &acts[0] {
        Action::InstallAnswer { sdp } => assert_eq!(sdp, "v=0 remote-answer"),
        _ => panic!("expected the answer installation"),
    }
    assert_eq!(c.neg, NegotiationState::AnswerReceived);
    let acts = c.step(Event::AnswerApplied { accepted: true });
    assert_eq!(acts.len(), 0);
    assert_eq!(c.state, CoordState::Connected);
    assert_eq!(c.neg, NegotiationState::Stable);
    assert_eq!(c.outcome(), None);
}

#[test]
fn local_candidates_flush_in_generation_order() {
    let mut c = client_at_offer_pending();
    let acts = c.step(Event::LocalCandidate(cand(0, "candidate-one")));
    assert_eq!(acts.len(), 0);
    let acts = c.step(Event::LocalCandidate(cand(1, "candidate-two")));
    assert_eq!(acts.len(), 0);
    let acts = c.step(Event::OfferReady { sdp: String::from("v=0 local-offer") });
    assert_eq!(acts.len(), 3);
    assert!(matches!(acts[0], Action::Send(Envelope::Offer { txn: 2, .. })));
    match &acts[1] {
        Action::Send(Envelope::Trickle { txn, candidate: Some(cc), .. }) => {
            assert_eq!(*txn, 3);
            assert_eq!(cc.candidate, "candidate-one");
        },
        _ => panic!("expected the first queued candidate"),
    }
    match &acts[2] {
        Action::Send(Envelope::Trickle { txn, candidate: Some(cc), .. }) => {
            assert_eq!(*txn, 4);
            assert_eq!(cc.candidate, "candidate-two");
        },
        _ => panic!("expected the second queued candidate"),
    }
    assert_eq!(c.queued_local.len(), 0);
}

#[test]
fn local_candidate_after_offer_trickles_at_once() {
    let mut c = client_negotiating();
    let acts = c.step(Event::LocalCandidate(cand(0, "late-candidate")));
    assert_eq!(acts.len(), 1);
    match &acts[0] {
        Action::Send(Envelope::Trickle { session, handle, candidate: Some(cc), .. }) => {
            assert_eq!(*session, 100);
            assert_eq!(*handle, 200);
            assert_eq!(cc.candidate, "late-candidate");
        },
        _ => panic!("expected an immediate trickle"),
    }
}

#[test]
fn unroutable_answer_is_dropped() {
    let mut c = client_negotiating();
    let acts = c.step(Event::Inbound(Envelope::Answer {
        txn: 77,
        sdp: String::from("v=0 stray"),
    }));
    assert_eq!(acts.len(), 0);
    assert_eq!(c.state, CoordState::Negotiating);
    assert_eq!(c.neg, NegotiationState::OfferSent);
    // The real answer still routes afterwards.
    let acts = c.step(Event::Inbound(Envelope::Answer {
        txn: 2,
        sdp: String::from("v=0 remote-answer"),
    }));
    assert!(matches!(&acts[0], Action::InstallAnswer { .. }));
}

#[test]
fn keepalive_leaves_negotiation_state_alone() {
    let mut c = client_negotiating();
    let acts = c.step(Event::KeepaliveTick);
    assert_eq!(acts.len(), 1);
    assert!(matches!(acts[0], Action::Send(Envelope::Keepalive { session: 100, .. })));
    assert_eq!(c.state, CoordState::Negotiating);
    assert_eq!(c.neg, NegotiationState::OfferSent);
    // Resending for the already-live session changes nothing either.
    let acts = c.step(Event::KeepaliveTick);
    assert_eq!(acts.len(), 1);
    assert_eq!(c.state, CoordState::Negotiating);
    assert_eq!(c.neg, NegotiationState::OfferSent);
    assert_eq!(c.mgr.pending.len(), 1);
}

#[test]
fn keepalive_without_session_sends_nothing() {
    let mut c = new_client();
    let acts = c.step(Event::KeepaliveTick);
    assert_eq!(acts.len(), 0);
    assert_eq!(c.state, CoordState::Connecting);
}

#[test]
fn stop_while_negotiating_cancels_waits_and_closes() {
    let mut c = client_negotiating();
    let acts = c.step(Event::Stop);
    assert_eq!(c.state, CoordState::Closing);
    // The offer's wait resolves as cancelled, not as a timeout.
    assert!(matches!(
        acts[0],
        Action::ResolveWait { txn: 2, outcome: GatewayError::Cancelled }
    ));
    assert!(matches!(acts[1], Action::CloseTransport));
    assert!(c.mgr.session.is_none());
    assert!(c.mgr.handle.is_none());
    let acts = c.step(Event::ShutdownComplete);
    assert_eq!(acts.len(), 0);
    assert_eq!(c.state, CoordState::Closed);
    assert_eq!(c.outcome(), Some(Ok(())));
}

#[test]
fn rejected_answer_is_negotiation_error() {
    let mut c = client_negotiating();
    c.step(Event::Inbound(Envelope::Answer { txn: 2, sdp: String::from("v=0 bad") }));
    let acts = c.step(Event::AnswerApplied { accepted: false });
    assert_eq!(c.state, CoordState::Failed);
    assert_eq!(c.outcome(), Some(Err(GatewayError::NegotiationError)));
    assert!(matches!(acts[0], Action::CloseTransport));
}

#[test]
fn wait_timeout_is_fatal() {
    let mut c = new_client();
    c.step(Event::TransportUp);
    let acts = c.step(Event::WaitTimeout { txn: 0 });
    assert_eq!(c.state, CoordState::Failed);
    assert_eq!(c.outcome(), Some(Err(GatewayError::Timeout)));
    assert!(matches!(
        acts[0],
        Action::ResolveWait { txn: 0, outcome: GatewayError::Timeout }
    ));
    assert!(matches!(acts[1], Action::CloseTransport));
}

#[test]
fn stale_wait_timeout_is_ignored() {
    let mut c = client_negotiating();
    let acts = c.step(Event::WaitTimeout { txn: 0 });
    assert_eq!(acts.len(), 0);
    assert_eq!(c.state, CoordState::Negotiating);
}

#[test]
fn remote_candidates_buffer_until_answer_installed() {
    let mut c = client_negotiating();
    let acts = c.step(Event::Inbound(Envelope::Trickle {
        txn: 50,
        session: 100,
        handle: 200,
        candidate: Some(cand(0, "early-remote")),
    }));
    assert_eq!(acts.len(), 0);
    assert_eq!(c.buffered_remote.len(), 1);
    c.step(Event::Inbound(Envelope::Answer { txn: 2, sdp: String::from("v=0 answer") }));
    let acts = c.step(Event::AnswerApplied { accepted: true });
    // The buffered candidate is forwarded once the answer is installed.
    assert_eq!(acts.len(), 1);
    match &acts[0] {
        Action::ForwardCandidate(cc) => assert_eq!(cc.candidate, "early-remote"),
        _ => panic!("expected the buffered candidate"),
    }
    assert_eq!(c.buffered_remote.len(), 0);
    // Once connected, remote candidates forward immediately.
    let acts = c.step(Event::Inbound(Envelope::Trickle {
        txn: 51,
        session: 100,
        handle: 200,
        candidate: Some(cand(0, "late-remote")),
    }));
    assert_eq!(acts.len(), 1);
    assert!(matches!(&acts[0], Action::ForwardCandidate(_)));
}

#[test]
fn remote_buffer_drops_oldest_at_capacity() {
    let mut c = client_at_offer_pending();
    for k in 0..(REMOTE_CANDIDATE_CAP + 1) {
        c.step(Event::Inbound(Envelope::Trickle {
            txn: 90,
            session: 100,
            handle: 200,
            candidate: Some(cand(0, &format!("remote-{}", k))),
        }));
    }
    assert_eq!(c.buffered_remote.len(), REMOTE_CANDIDATE_CAP);
    // The oldest candidate was dropped; the buffer starts at the second.
    assert_eq!(c.buffered_remote[0].candidate, "remote-1");
    assert_eq!(
        c.buffered_remote[REMOTE_CANDIDATE_CAP - 1].candidate,
        format!("remote-{}", REMOTE_CANDIDATE_CAP)
    );
}

#[test]
fn end_of_candidates_marker_routes_nothing() {
    let mut c = client_negotiating();
    let acts = c.step(Event::Inbound(Envelope::Trickle {
        txn: 60,
        session: 100,
        handle: 200,
        candidate: None,
    }));
    assert_eq!(acts.len(), 0);
    assert_eq!(c.buffered_remote.len(), 0);
    assert_eq!(c.state, CoordState::Negotiating);
}

#[test]
fn transport_loss_is_fatal_in_flight() {
    let mut c = client_negotiating();
    let acts = c.step(Event::TransportClosed);
    assert_eq!(c.state, CoordState::Failed);
    assert_eq!(c.outcome(), Some(Err(GatewayError::TransportError)));
    // The pending offer wait resolves with the transport error; the channel
    // is already gone, so no close is requested.
    assert_eq!(acts.len(), 1);
    assert!(matches!(
        acts[0],
        Action::ResolveWait { txn: 2, outcome: GatewayError::TransportError }
    ));
}

#[test]
fn transport_close_completes_shutdown() {
    let mut c = client_negotiating();
    c.step(Event::Stop);
    c.step(Event::TransportClosed);
    assert_eq!(c.state, CoordState::Closed);
    assert_eq!(c.outcome(), Some(Ok(())));
}

#[test]
fn stale_success_is_ignored_when_connected() {
    let mut c = client_negotiating();
    c.step(Event::Inbound(Envelope::Answer { txn: 2, sdp: String::from("v=0 answer") }));
    c.step(Event::AnswerApplied { accepted: true });
    let acts = c.step(Event::Inbound(Envelope::Success { txn: 9, id: 5 }));
    assert_eq!(acts.len(), 0);
    assert_eq!(c.state, CoordState::Connected);
}

#[test]
fn ack_envelopes_are_ignored() {
    let mut c = client_negotiating();
    let acts = c.step(Event::Inbound(Envelope::Ack { txn: 2 }));
    assert_eq!(acts.len(), 0);
    assert_eq!(c.neg, NegotiationState::OfferSent);
}

#[test]
fn stop_is_idempotent_once_winding_down() {
    let mut c = client_negotiating();
    c.step(Event::Stop);
    let acts = c.step(Event::Stop);
    assert_eq!(acts.len(), 0);
    assert_eq!(c.state, CoordState::Closing);
}
