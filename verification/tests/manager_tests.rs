use janus_client::envelope::{Envelope, IceCandidate};
use janus_client::errors::GatewayError;
use janus_client::manager::{SessionHandleManager, TxnKind};

#[test]
fn attach_before_session_is_invalid_state() {
    let mut m = SessionHandleManager::new();
    let r = m.attach_handle(String::from("videoroom"));
    assert!(matches!(r, Err(GatewayError::InvalidState)));
    assert!(m.session.is_none());
    assert!(m.handle.is_none());
    assert_eq!(m.pending.len(), 0);
}

#[test]
fn attach_after_session_succeeds() {
    let mut m = SessionHandleManager::new();
    let (t0, _env) = m.create_session();
    assert_eq!(m.resolve(t0), Some(TxnKind::CreateSession));
    m.set_session(4815);
    let r = m.attach_handle(String::from("videoroom"));
    match r {
        Ok((t, Envelope::AttachHandle { txn, session, plugin })) => {
            assert_eq!(txn, t);
            assert_eq!(session, 4815);
            assert_eq!(plugin, "videoroom");
        },
        _ => panic!("expected an attach-handle envelope"),
    }
}

#[test]
fn transaction_ids_increase_and_never_repeat() {
    let mut m = SessionHandleManager::new();
    let (t0, _) = m.create_session();
    m.set_session(1);
    let t1 = match m.attach_handle(String::from("p")) {
        Ok((t, _)) => t,
        Err(_) => panic!("session exists"),
    };
    let t2 = match m.keepalive() {
        Ok((t, _)) => t,
        Err(_) => panic!("session exists"),
    };
    m.set_handle(2);
    let t3 = match m.offer(String::from("v=0")) {
        Ok((t, _)) => t,
        Err(_) => panic!("session and handle exist"),
    };
    assert_eq!(t0, 0);
    assert_eq!(t1, 1);
    assert_eq!(t2, 2);
    assert_eq!(t3, 3);
}

#[test]
fn resolve_matches_at_most_one_wait() {
    let mut m = SessionHandleManager::new();
    let (t, _) = m.create_session();
    assert_eq!(m.resolve(t), Some(TxnKind::CreateSession));
    // The identifier was resolved once; a duplicate response is unroutable.
    assert_eq!(m.resolve(t), None);
    assert_eq!(m.pending.len(), 0);
}

#[test]
fn resolve_unknown_id_changes_nothing() {
    let mut m = SessionHandleManager::new();
    let (_t, _) = m.create_session();
    assert_eq!(m.resolve(99), None);
    assert_eq!(m.pending.len(), 1);
}

#[test]
fn keepalive_is_fire_and_forget() {
    let mut m = SessionHandleManager::new();
    let (t0, _) = m.create_session();
    assert_eq!(m.resolve(t0), Some(TxnKind::CreateSession));
    m.set_session(7);
    let r = m.keepalive();
    match r {
        Ok((t, Envelope::Keepalive { txn, session })) => {
            assert_eq!(txn, t);
            assert_eq!(session, 7);
        },
        _ => panic!("expected a keepalive envelope"),
    }
    // No wait was recorded for the heartbeat.
    assert_eq!(m.pending.len(), 0);
}

#[test]
fn keepalive_without_session_is_invalid_state() {
    let mut m = SessionHandleManager::new();
    assert!(matches!(m.keepalive(), Err(GatewayError::InvalidState)));
}

#[test]
fn offer_before_handle_is_invalid_state() {
    let mut m = SessionHandleManager::new();
    m.set_session(7);
    assert!(matches!(m.offer(String::from("v=0")), Err(GatewayError::InvalidState)));
}

#[test]
fn trickle_builds_envelope_without_wait() {
    let mut m = SessionHandleManager::new();
    m.set_session(7);
    m.set_handle(8);
    let c = IceCandidate { mline: 0, candidate: String::from("candidate:1 1 UDP 1 10.0.0.1 9 typ host") };
    match m.trickle(c) {
        Ok((t, Envelope::Trickle { txn, session, handle, candidate: Some(cc) })) => {
            assert_eq!(txn, t);
            assert_eq!(session, 7);
            assert_eq!(handle, 8);
            assert_eq!(cc.mline, 0);
            assert_eq!(cc.candidate, "candidate:1 1 UDP 1 10.0.0.1 9 typ host");
        },
        _ => panic!("expected a trickle envelope"),
    }
    assert_eq!(m.pending.len(), 0);
}

#[test]
fn cancel_all_reports_ids_in_issue_order() {
    let mut m = SessionHandleManager::new();
    let (t0, _) = m.create_session();
    m.set_session(1);
    m.set_handle(2);
    let t1 = match m.offer(String::from("v=0")) {
        Ok((t, _)) => t,
        Err(_) => panic!("session and handle exist"),
    };
    let cancelled = m.cancel_all();
    assert_eq!(cancelled, vec![t0, t1]);
    assert_eq!(m.pending.len(), 0);
}
