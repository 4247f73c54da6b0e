//! The session/handle manager: owns the gateway-assigned session and handle
//! identifiers, builds the request envelopes, and correlates asynchronous
//! request/response pairs by transaction identifier.
//!
//! Transaction identifiers are handed out in increasing order starting from
//! zero, so an identifier is never reused; a well-formed manager never holds
//! two pending waits for the same identifier, so a response resolves at most
//! one wait.

use vstd::prelude::*;

use crate::envelope::{Envelope, IceCandidate};
use crate::errors::GatewayError;

verus! {

/// What a pending transaction is waiting for.
#[derive(Clone, Copy, PartialEq, Eq, Structural, Debug)]
pub enum TxnKind {
    /// A session-creation response carrying the session identifier.
    CreateSession,
    /// A handle-attachment response carrying the handle identifier.
    AttachHandle,
    /// The remote answer to the local offer.
    Offer,
}

/// Owns the session and handle identifiers and the pending waits.
pub struct SessionHandleManager {
    /// The next transaction identifier to hand out.
    pub next_txn: u64,
    /// Unresolved waits: each issued identifier still awaiting its response,
    /// with what the response is expected to carry, in issue order.
    pub pending: Vec<(u64, TxnKind)>,
    /// The gateway-assigned session identifier, once created.
    pub session: Option<u64>,
    /// The gateway-assigned plugin-handle identifier, once attached.
    pub handle: Option<u64>,
}

impl SessionHandleManager {
    /// Every pending identifier was issued earlier than `next_txn`, and no
    /// identifier waits twice.
    pub open spec fn wf(self) -> bool {
        &&& forall|i: int|
            0 <= i < self.pending@.len() ==> (#[trigger] self.pending@[i]).0 < self.next_txn
        &&& forall|i: int, j: int|
            #![trigger self.pending@[i], self.pending@[j]]
            0 <= i < self.pending@.len() && 0 <= j < self.pending@.len() && i != j
                ==> self.pending@[i].0 != self.pending@[j].0
    }

    /// Whether transaction identifier `t` has an unresolved wait.
    pub open spec fn is_pending(self, t: u64) -> bool {
        exists|i: int| 0 <= i < self.pending@.len() && (#[trigger] self.pending@[i]).0 == t
    }

    /// Whether `t` was issued at some point: identifiers are consumed in
    /// increasing order from zero.
    pub open spec fn txn_used(self, t: u64) -> bool {
        t < self.next_txn
    }

    /// The relation every identifier-issuing operation establishes: `t` is
    /// the identifier handed out, and it is consumed for good.
    pub open spec fn issues_txn(pre: Self, post: Self, t: u64) -> bool {
        &&& t == pre.next_txn
        &&& post.next_txn == pre.next_txn + 1
    }

    /// A manager with no session, no handle, no waits, and all identifiers
    /// still unissued.
    pub fn new() -> (m: Self)
        ensures
            m.wf(),
            m.next_txn == 0,
            m.pending@.len() == 0,
            m.session is None,
            m.handle is None,
    {
        SessionHandleManager { next_txn: 0, pending: Vec::new(), session: None, handle: None }
    }

    /// Hands out the next transaction identifier, consuming it for good.
    fn take_txn(&mut self) -> (t: u64)
        requires
            old(self).wf(),
            old(self).next_txn < u64::MAX,
        ensures
            final(self).wf(),
            Self::issues_txn(*old(self), *final(self), t),
            !old(self).txn_used(t),
            !final(self).is_pending(t),
            final(self).pending@ == old(self).pending@,
            final(self).session == old(self).session,
            final(self).handle == old(self).handle,
    {
        let t = self.next_txn;
        self.next_txn = self.next_txn + 1;
        t
    }

    /// Builds the session-creation request. The manager records a wait for
    /// the response, which is to carry the assigned session identifier.
    pub fn create_session(&mut self) -> (r: (u64, Envelope))
        requires
            old(self).wf(),
            old(self).session is None,
            old(self).next_txn < u64::MAX,
        ensures
            final(self).wf(),
            Self::issues_txn(*old(self), *final(self), r.0),
            final(self).pending@ == old(self).pending@.push((r.0, TxnKind::CreateSession)),
            final(self).is_pending(r.0),
            final(self).session == old(self).session,
            final(self).handle == old(self).handle,
            r.1 == (Envelope::CreateSession { txn: r.0 }),
    {
        let t = self.take_txn();
        self.pending.push((t, TxnKind::CreateSession));
        proof {
            assert(self.wf()) by {
                assert(forall|i: int|
                    0 <= i < old(self).pending@.len()
                        ==> self.pending@[i] == old(self).pending@[i]);
            }
            assert(self.pending@[self.pending@.len() - 1] == (t, TxnKind::CreateSession));
            assert(self.is_pending(t));
        }
        (t, Envelope::CreateSession { txn: t })
    }

    /// Builds the handle-attachment request for `plugin`. Attachment is only
    /// in sequence once a session exists; before that the call is rejected
    /// out of sequence and the manager is left unchanged.
    pub fn attach_handle(&mut self, plugin: String) -> (r: Result<(u64, Envelope), GatewayError>)
        requires
            old(self).wf(),
            old(self).next_txn < u64::MAX,
        ensures
            final(self).wf(),
            old(self).session is None ==> {
                &&& r matches Err(e) && e == GatewayError::InvalidState
                &&& *final(self) == *old(self)
            },
            old(self).session matches Some(sid) ==> (r matches Ok(p) && {
                &&& Self::issues_txn(*old(self), *final(self), p.0)
                &&& final(self).pending@ == old(self).pending@.push((p.0, TxnKind::AttachHandle))
                &&& final(self).is_pending(p.0)
                &&& final(self).session == old(self).session
                &&& final(self).handle == old(self).handle
                &&& p.1 == (Envelope::AttachHandle { txn: p.0, session: sid, plugin: plugin })
            }),
    {
        match self.session {
            None => Err(GatewayError::InvalidState),
            Some(sid) => {
                let t = self.take_txn();
                self.pending.push((t, TxnKind::AttachHandle));
                proof {
                    assert(self.wf()) by {
                        assert(forall|i: int|
                            0 <= i < old(self).pending@.len()
                                ==> self.pending@[i] == old(self).pending@[i]);
                    }
                    assert(self.pending@[self.pending@.len() - 1] == (t, TxnKind::AttachHandle));
                    assert(self.is_pending(t));
                }
                Ok((t, Envelope::AttachHandle { txn: t, session: sid, plugin }))
            },
        }
    }

    /// Builds a keepalive heartbeat for the live session. Fire-and-forget: a
    /// fresh transaction identifier is consumed, but no wait is recorded, so
    /// a late or missing acknowledgment resolves nothing.
    pub fn keepalive(&mut self) -> (r: Result<(u64, Envelope), GatewayError>)
        requires
            old(self).wf(),
            old(self).next_txn < u64::MAX,
        ensures
            final(self).wf(),
            final(self).pending@ == old(self).pending@,
            final(self).session == old(self).session,
            final(self).handle == old(self).handle,
            old(self).session is None ==> {
                &&& r matches Err(e) && e == GatewayError::InvalidState
                &&& *final(self) == *old(self)
            },
            old(self).session matches Some(sid) ==> (r matches Ok(p) && {
                &&& Self::issues_txn(*old(self), *final(self), p.0)
                &&& p.1 == (Envelope::Keepalive { txn: p.0, session: sid })
            }),
    {
        match self.session {
            None => Err(GatewayError::InvalidState),
            Some(sid) => {
                let t = self.take_txn();
                Ok((t, Envelope::Keepalive { txn: t, session: sid }))
            },
        }
    }

    /// Builds the offer envelope carrying the local SDP. In sequence only
    /// with both a session and a handle; the manager records a wait for the
    /// matching answer.
    pub fn offer(&mut self, sdp: String) -> (r: Result<(u64, Envelope), GatewayError>)
        requires
            old(self).wf(),
            old(self).next_txn < u64::MAX,
        ensures
            final(self).wf(),
            final(self).session == old(self).session,
            final(self).handle == old(self).handle,
            !(old(self).session is Some && old(self).handle is Some) ==> {
                &&& r matches Err(e) && e == GatewayError::InvalidState
                &&& *final(self) == *old(self)
            },
            old(self).session matches Some(sid) ==> old(self).handle matches Some(hid) ==> (
            r matches Ok(p) && {
                &&& Self::issues_txn(*old(self), *final(self), p.0)
                &&& final(self).pending@ == old(self).pending@.push((p.0, TxnKind::Offer))
                &&& final(self).is_pending(p.0)
                &&& p.1 == (Envelope::Offer { txn: p.0, session: sid, handle: hid, sdp: sdp })
            }),
    {
        match (self.session, self.handle) {
            (Some(sid), Some(hid)) => {
                let t = self.take_txn();
                self.pending.push((t, TxnKind::Offer));
                proof {
                    assert(self.wf()) by {
                        assert(forall|i: int|
                            0 <= i < old(self).pending@.len()
                                ==> self.pending@[i] == old(self).pending@[i]);
                    }
                    assert(self.pending@[self.pending@.len() - 1] == (t, TxnKind::Offer));
                    assert(self.is_pending(t));
                }
                Ok((t, Envelope::Offer { txn: t, session: sid, handle: hid, sdp }))
            },
            _ => Err(GatewayError::InvalidState),
        }
    }

    /// Builds a trickle envelope carrying one local candidate. Fire-and-
    /// forget, like the keepalive: an identifier is consumed, no wait is
    /// recorded.
    pub fn trickle(&mut self, candidate: IceCandidate) -> (r: Result<
        (u64, Envelope),
        GatewayError,
    >)
        requires
            old(self).wf(),
            old(self).next_txn < u64::MAX,
        ensures
            final(self).wf(),
            final(self).pending@ == old(self).pending@,
            final(self).session == old(self).session,
            final(self).handle == old(self).handle,
            !(old(self).session is Some && old(self).handle is Some) ==> {
                &&& r matches Err(e) && e == GatewayError::InvalidState
                &&& *final(self) == *old(self)
            },
            old(self).session matches Some(sid) ==> old(self).handle matches Some(hid) ==> (
            r matches Ok(p) && {
                &&& Self::issues_txn(*old(self), *final(self), p.0)
                &&& p.1 == (Envelope::Trickle {
                    txn: p.0,
                    session: sid,
                    handle: hid,
                    candidate: Some(candidate),
                })
            }),
    {
        match (self.session, self.handle) {
            (Some(sid), Some(hid)) => {
                let t = self.take_txn();
                Ok((
                    t,
                    Envelope::Trickle { txn: t, session: sid, handle: hid, candidate: Some(candidate) },
                ))
            },
            _ => Err(GatewayError::InvalidState),
        }
    }

    /// Resolves the pending wait for `t`: removes it and reports what it was
    /// waiting for. An identifier with no pending wait resolves nothing and
    /// changes nothing; a resolved identifier is never pending again.
    pub fn resolve(&mut self, t: u64) -> (r: Option<TxnKind>)
        requires
            old(self).wf(),
        ensures
            final(self).wf(),
            final(self).next_txn == old(self).next_txn,
            final(self).session == old(self).session,
            final(self).handle == old(self).handle,
            !final(self).is_pending(t),
            r is Some <==> old(self).is_pending(t),
            r is None ==> *final(self) == *old(self),
            r matches Some(k) ==> exists|i: int|
                0 <= i < old(self).pending@.len()
                && old(self).pending@[i] == (t, k)
                && final(self).pending@ == old(self).pending@.remove(i),
            forall|u: u64|
                u != t ==> (#[trigger] final(self).is_pending(u) <==> old(self).is_pending(u)),
    {
        let n = self.pending.len();
        let mut i: usize = 0;
        while i < n
            invariant
                n == self.pending@.len(),
                0 <= i <= n,
                *self == *old(self),
                old(self).wf(),
                forall|j: int| 0 <= j < i ==> (#[trigger] self.pending@[j]).0 != t,
            decreases n - i,
        {
            if self.pending[i].0 == t {
                let kind = self.pending[i].1;
                let ghost idx = i as int;
                self.pending.remove(i);
                proof {
                    assert(old(self).pending@[idx] == (t, kind));
                    assert(self.pending@ == old(self).pending@.remove(idx));
                    assert forall|a: int, b: int|
                        #![trigger self.pending@[a], self.pending@[b]]
                        0 <= a < self.pending@.len() && 0 <= b < self.pending@.len() && a != b
                            implies self.pending@[a].0 != self.pending@[b].0 by {
                        let a0 = if a < idx { a } else { a + 1 };
                        let b0 = if b < idx { b } else { b + 1 };
                        assert(self.pending@[a] == old(self).pending@[a0]);
                        assert(self.pending@[b] == old(self).pending@[b0]);
                    }
                    assert forall|a: int|
                        0 <= a < self.pending@.len()
                            implies (#[trigger] self.pending@[a]).0 < self.next_txn by {
                        let a0 = if a < idx { a } else { a + 1 };
                        assert(self.pending@[a] == old(self).pending@[a0]);
                    }
                    assert(!self.is_pending(t)) by {
                        assert forall|a: int|
                            0 <= a < self.pending@.len()
                                implies (#[trigger] self.pending@[a]).0 != t by {
                            let a0 = if a < idx { a } else { a + 1 };
                            assert(self.pending@[a] == old(self).pending@[a0]);
                            if a0 != idx {
                                assert(old(self).pending@[a0].0 != old(self).pending@[idx].0);
                            }
                        }
                    }
                    assert forall|u: u64|
                        u != t implies (#[trigger] self.is_pending(u) <==> old(self).is_pending(
                        u,
                    )) by {
                        if self.is_pending(u) {
                            let a = choose|a: int|
                                0 <= a < self.pending@.len() && (#[trigger] self.pending@[a]).0
                                    == u;
                            let a0 = if a < idx { a } else { a + 1 };
                            assert(old(self).pending@[a0].0 == u);
                        }
                        if old(self).is_pending(u) {
                            let a0 = choose|a0: int|
                                0 <= a0 < old(self).pending@.len() && (#[trigger] old(
                                    self,
                                ).pending@[a0]).0 == u;
                            let a = if a0 < idx { a0 } else { a0 - 1 };
                            assert(self.pending@[a] == old(self).pending@[a0]);
                        }
                    }
                }
                return Some(kind);
            }
            i = i + 1;
        }
        proof {
            assert(!self.is_pending(t));
        }
        None
    }

    /// Looks up, without resolving it, what the pending wait for `t` awaits.
    pub fn find_kind(&self, t: u64) -> (r: Option<TxnKind>)
        requires
            self.wf(),
        ensures
            r is Some <==> self.is_pending(t),
            r matches Some(k) ==> exists|i: int|
                0 <= i < self.pending@.len() && self.pending@[i] == (t, k),
    {
        let n = self.pending.len();
        let mut i: usize = 0;
        while i < n
            invariant
                n == self.pending@.len(),
                0 <= i <= n,
                forall|j: int| 0 <= j < i ==> (#[trigger] self.pending@[j]).0 != t,
            decreases n - i,
        {
            if self.pending[i].0 == t {
                return Some(self.pending[i].1);
            }
            i = i + 1;
        }
        None
    }

    /// Cancels every pending wait, reporting the cancelled identifiers in
    /// the order they were issued. Afterwards nothing is pending.
    pub fn cancel_all(&mut self) -> (cancelled: Vec<u64>)
        requires
            old(self).wf(),
        ensures
            final(self).wf(),
            final(self).pending@.len() == 0,
            final(self).next_txn == old(self).next_txn,
            final(self).session == old(self).session,
            final(self).handle == old(self).handle,
            cancelled@.len() == old(self).pending@.len(),
            forall|i: int|
                0 <= i < cancelled@.len() ==> cancelled@[i] == (#[trigger] old(
                    self,
                ).pending@[i]).0,
    {
        let mut cancelled: Vec<u64> = Vec::new();
        let n = self.pending.len();
        let mut i: usize = 0;
        while i < n
            invariant
                n == self.pending@.len(),
                0 <= i <= n,
                *self == *old(self),
                cancelled@.len() == i,
                forall|j: int|
                    0 <= j < i ==> cancelled@[j] == (#[trigger] self.pending@[j]).0,
            decreases n - i,
        {
            cancelled.push(self.pending[i].0);
            i = i + 1;
        }
        self.pending = Vec::new();
        cancelled
    }

    /// Records the gateway-assigned session identifier.
    pub fn set_session(&mut self, id: u64)
        requires
            old(self).wf(),
        ensures
            final(self).wf(),
            final(self).session == Some(id),
            final(self).handle == old(self).handle,
            final(self).pending@ == old(self).pending@,
            final(self).next_txn == old(self).next_txn,
    {
        self.session = Some(id);
    }

    /// Records the gateway-assigned handle identifier.
    pub fn set_handle(&mut self, id: u64)
        requires
            old(self).wf(),
        ensures
            final(self).wf(),
            final(self).handle == Some(id),
            final(self).session == old(self).session,
            final(self).pending@ == old(self).pending@,
            final(self).next_txn == old(self).next_txn,
    {
        self.handle = Some(id);
    }

    /// Forgets the session and handle identifiers (session teardown).
    pub fn release(&mut self)
        requires
            old(self).wf(),
        ensures
            final(self).wf(),
            final(self).session is None,
            final(self).handle is None,
            final(self).pending@ == old(self).pending@,
            final(self).next_txn == old(self).next_txn,
    {
        self.session = None;
        self.handle = None;
    }
}

/// Law: a transaction identifier is used at most once. Once an operation has
/// issued `t1`, any later issuing operation — with any number of operations
/// in between, none of which lowers `next_txn` — hands out a different
/// identifier.
pub proof fn lemma_txn_issued_at_most_once(
    m0: SessionHandleManager,
    m1: SessionHandleManager,
    m2: SessionHandleManager,
    m3: SessionHandleManager,
    t1: u64,
    t2: u64,
)
    requires
        SessionHandleManager::issues_txn(m0, m1, t1),
        m1.next_txn <= m2.next_txn,
        SessionHandleManager::issues_txn(m2, m3, t2),
    ensures
        t1 != t2,
        m1.txn_used(t1),
        m3.txn_used(t2),
{
}

/// Law: in a well-formed manager no identifier waits twice, so a response
/// bearing an identifier can resolve at most one pending wait.
pub proof fn lemma_pending_wait_unique(m: SessionHandleManager, i: int, j: int)
    requires
        m.wf(),
        0 <= i < m.pending@.len(),
        0 <= j < m.pending@.len(),
        m.pending@[i].0 == m.pending@[j].0,
    ensures
        i == j,
{
}

} // verus!
