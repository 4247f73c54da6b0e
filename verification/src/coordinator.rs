//! The negotiation coordinator: the state machine that drives one WebRTC
//! session from transport connect through session creation, handle
//! attachment, offer/answer exchange and candidate trickling, to a terminal
//! close or failure.
//!
//! The coordinator performs no I/O itself. The surrounding event loop feeds
//! it one [`Event`] at a time — an inbound envelope, a media-engine
//! callback, a timer tick, a caller request — and carries out the
//! [`Action`]s each step returns. Because every event passes through
//! [`Coordinator::step`], transitions are never concurrent, and the whole
//! protocol is stated in the `*_post` predicates that `step` ensures.

use vstd::prelude::*;

use crate::envelope::{Envelope, IceCandidate};
use crate::errors::GatewayError;
use crate::manager::{SessionHandleManager, TxnKind};

verus! {

/// How many remote candidates may wait for the answer to be installed
/// before the oldest is dropped.
pub const REMOTE_CANDIDATE_CAP: usize = 64;

/// The coordinator's position in the session lifecycle.
#[derive(Clone, Copy, PartialEq, Eq, Structural, Debug)]
pub enum CoordState {
    /// Waiting for the transport connect to finish.
    Connecting,
    /// Session-creation request sent; waiting for the identifier.
    SessionCreating,
    /// Handle-attachment request sent; waiting for the identifier.
    HandleAttaching,
    /// Waiting for the media engine to produce the local offer.
    OfferPending,
    /// Offer sent; exchanging answer and candidates.
    Negotiating,
    /// Answer installed; the session is established and idling.
    Connected,
    /// Caller-initiated shutdown in progress.
    Closing,
    /// Shut down cleanly.
    Closed,
    /// Terminated by an unrecoverable error.
    Failed,
}

/// Offer/answer progress, orthogonal to the coordinator state.
#[derive(Clone, Copy, PartialEq, Eq, Structural, Debug)]
pub enum NegotiationState {
    /// No offer asked for yet.
    Idle,
    /// The media engine was asked for an offer.
    OfferRequested,
    /// The offer went out on the wire.
    OfferSent,
    /// The matching answer arrived and is being installed.
    AnswerReceived,
    /// The answer was installed; negotiation is complete.
    Stable,
    /// Negotiation ended in an unrecoverable error.
    Failed,
}

/// One input to the coordinator, funneled through a single queue however it
/// originated (network thread, media-engine thread, timer).
pub enum Event {
    /// The transport connect attempt succeeded.
    TransportUp,
    /// The transport connect attempt failed; `timed_out` tells a bounded-
    /// wait expiry apart from an outright refusal.
    ConnectFailed { timed_out: bool },
    /// The transport dropped.
    TransportClosed,
    /// An envelope arrived on the transport.
    Inbound(Envelope),
    /// The media engine produced the local offer, already installed as the
    /// local description.
    OfferReady { sdp: String },
    /// The media engine finished installing the remote answer, accepting or
    /// rejecting it.
    AnswerApplied { accepted: bool },
    /// The media engine produced a local candidate to trickle out.
    LocalCandidate(IceCandidate),
    /// The keepalive timer fired.
    KeepaliveTick,
    /// The bounded wait for the response to `txn` expired.
    WaitTimeout { txn: u64 },
    /// The caller asked the client to stop.
    Stop,
    /// The transport finished closing after a stop.
    ShutdownComplete,
}

/// One piece of outside work a step asks the surrounding loop to perform.
pub enum Action {
    /// Send this envelope on the transport.
    Send(Envelope),
    /// Ask the media engine for a local offer.
    RequestOffer,
    /// Install this remote answer on the media engine.
    InstallAnswer { sdp: String },
    /// Forward this remote candidate to the media engine.
    ForwardCandidate(IceCandidate),
    /// Close the transport.
    CloseTransport,
    /// A wait was torn down without a response; report this outcome to
    /// whoever awaits `txn`.
    ResolveWait { txn: u64, outcome: GatewayError },
}

/// The negotiation coordinator for one session.
pub struct Coordinator {
    /// Position in the session lifecycle.
    pub state: CoordState,
    /// Offer/answer progress.
    pub neg: NegotiationState,
    /// Session, handle and transaction bookkeeping.
    pub mgr: SessionHandleManager,
    /// Name of the gateway plugin to attach to.
    pub plugin: String,
    /// Whether the signaling channel is currently open.
    pub transport_open: bool,
    /// Local candidates generated before the offer went out, in generation
    /// order, waiting to be flushed with the offer.
    pub queued_local: Vec<IceCandidate>,
    /// Remote candidates received before the answer was installed, oldest
    /// first; bounded by [`REMOTE_CANDIDATE_CAP`], dropping the oldest.
    pub buffered_remote: Vec<IceCandidate>,
    /// The terminal error, once the coordinator has failed.
    pub failure: Option<GatewayError>,
}

/// States in which the client is done for good or on its way out.
pub open spec fn winding_down(s: CoordState) -> bool {
    s is Closing || s is Closed || s is Failed
}

/// States before the offer has gone out on the wire.
pub open spec fn pre_offer(s: CoordState) -> bool {
    s is Connecting || s is SessionCreating || s is HandleAttaching || s is OfferPending
}

/// The event changed nothing and asked for nothing.
pub open spec fn ignored(pre: Coordinator, post: Coordinator, acts: Seq<Action>) -> bool {
    &&& post == pre
    &&& acts.len() == 0
}

/// The manager moved only by consuming transaction identifiers: its waits
/// and its session and handle identifiers are as they were.
pub open spec fn mgr_same_but_txn(pre: SessionHandleManager, post: SessionHandleManager) -> bool {
    &&& post.pending@ == pre.pending@
    &&& post.session == pre.session
    &&& post.handle == pre.handle
}

/// The actions a teardown requests: one resolution per pending wait, in
/// issue order, then a transport close if the channel was open.
pub open spec fn teardown_acts(
    pending: Seq<(u64, TxnKind)>,
    outcome: GatewayError,
    close: bool,
    acts: Seq<Action>,
) -> bool {
    &&& acts.len() == pending.len() + (if close {
        1int
    } else {
        0int
    })
    &&& forall|i: int|
        0 <= i < pending.len() ==> acts[i] == (Action::ResolveWait {
            txn: (#[trigger] pending[i]).0,
            outcome: outcome,
        })
    &&& close ==> acts[pending.len() as int] == Action::CloseTransport
}

/// The coordinator failed terminally with `e`: every owned resource is
/// released, and nothing else moved.
pub open spec fn failed_with(pre: Coordinator, post: Coordinator, e: GatewayError) -> bool {
    &&& post == (Coordinator {
        state: CoordState::Failed,
        neg: NegotiationState::Failed,
        failure: Some(e),
        transport_open: false,
        mgr: post.mgr,
        ..pre
    })
    &&& post.mgr.pending@.len() == 0
    &&& post.mgr.session is None
    &&& post.mgr.handle is None
    &&& post.mgr.next_txn == pre.mgr.next_txn
}

/// A bounded buffer admitting a new candidate: the oldest entry is dropped
/// once the buffer is full.
pub open spec fn buffer_in(buf: Seq<IceCandidate>, c: IceCandidate) -> Seq<IceCandidate> {
    if buf.len() < REMOTE_CANDIDATE_CAP {
        buf.push(c)
    } else {
        buf.remove(0).push(c)
    }
}

/// The trickle envelopes flushing `queued` in generation order, starting at
/// `acts[1]` with identifiers counted up from `first_txn`.
pub open spec fn trickles_out(
    acts: Seq<Action>,
    first_txn: u64,
    sid: u64,
    hid: u64,
    queued: Seq<IceCandidate>,
) -> bool {
    forall|i: int|
        0 <= i < queued.len() ==> acts[i + 1] == (Action::Send(Envelope::Trickle {
            txn: (first_txn + i) as u64,
            session: sid,
            handle: hid,
            candidate: Some(#[trigger] queued[i]),
        }))
}

/// What [`Coordinator::step`] does on [`Event::TransportUp`]: from
/// `Connecting`, open the channel and send the session-creation request;
/// from anywhere else the event is ignored.
pub open spec fn transport_up_post(pre: Coordinator, post: Coordinator, acts: Seq<Action>) -> bool {
    if pre.state is Connecting {
        &&& post == (Coordinator {
            state: CoordState::SessionCreating,
            transport_open: true,
            mgr: post.mgr,
            ..pre
        })
        &&& SessionHandleManager::issues_txn(pre.mgr, post.mgr, pre.mgr.next_txn)
        &&& post.mgr.pending@ == pre.mgr.pending@.push((pre.mgr.next_txn, TxnKind::CreateSession))
        &&& post.mgr.session is None
        &&& post.mgr.handle is None
        &&& acts.len() == 1
        &&& acts[0] == (Action::Send(Envelope::CreateSession { txn: pre.mgr.next_txn }))
    } else {
        ignored(pre, post, acts)
    }
}

/// What `step` does on [`Event::ConnectFailed`]: from `Connecting`, fail
/// with a timeout or a transport error; no session or handle ever existed,
/// so there is nothing to release.
pub open spec fn connect_failed_post(
    pre: Coordinator,
    timed_out: bool,
    post: Coordinator,
    acts: Seq<Action>,
) -> bool {
    if pre.state is Connecting {
        &&& failed_with(
            pre,
            post,
            if timed_out {
                GatewayError::Timeout
            } else {
                GatewayError::TransportError
            },
        )
        &&& acts.len() == 0
    } else {
        ignored(pre, post, acts)
    }
}

/// What `step` does on [`Event::TransportClosed`]: during a caller-initiated
/// shutdown the close completes it; in a terminal state nothing moves; from
/// any live state connection loss is fatal, and every pending wait resolves
/// with the transport error.
pub open spec fn transport_closed_post(
    pre: Coordinator,
    post: Coordinator,
    acts: Seq<Action>,
) -> bool {
    if pre.state is Closing {
        &&& post == (Coordinator { state: CoordState::Closed, ..pre })
        &&& acts.len() == 0
    } else if pre.state is Closed || pre.state is Failed {
        ignored(pre, post, acts)
    } else {
        &&& failed_with(pre, post, GatewayError::TransportError)
        &&& teardown_acts(pre.mgr.pending@, GatewayError::TransportError, false, acts)
    }
}

/// What `step` does on [`Event::OfferReady`]: from `OfferPending`, send the
/// offer envelope and flush every queued local candidate behind it in
/// generation order; from anywhere else the event is ignored.
pub open spec fn offer_ready_post(
    pre: Coordinator,
    sdp: String,
    post: Coordinator,
    acts: Seq<Action>,
) -> bool {
    if pre.state is OfferPending {
        &&& post == (Coordinator {
            state: CoordState::Negotiating,
            neg: NegotiationState::OfferSent,
            mgr: post.mgr,
            queued_local: post.queued_local,
            ..pre
        })
        &&& post.queued_local@.len() == 0
        &&& post.mgr.session == pre.mgr.session
        &&& post.mgr.handle == pre.mgr.handle
        &&& post.mgr.pending@ == pre.mgr.pending@.push((pre.mgr.next_txn, TxnKind::Offer))
        &&& post.mgr.next_txn == pre.mgr.next_txn + 1 + pre.queued_local@.len()
        &&& acts.len() == 1 + pre.queued_local@.len()
        &&& (match pre.mgr.session {
            Some(sid) => match pre.mgr.handle {
                Some(hid) => {
                    &&& acts[0] == (Action::Send(Envelope::Offer {
                        txn: pre.mgr.next_txn,
                        session: sid,
                        handle: hid,
                        sdp: sdp,
                    }))
                    &&& trickles_out(
                        acts,
                        (pre.mgr.next_txn + 1) as u64,
                        sid,
                        hid,
                        pre.queued_local@,
                    )
                },
                None => false,
            },
            None => false,
        })
    } else {
        ignored(pre, post, acts)
    }
}

/// What `step` does on [`Event::AnswerApplied`]: in `Negotiating` with the
/// answer received, acceptance completes negotiation and forwards every
/// buffered remote candidate in arrival order; rejection is fatal.
pub open spec fn answer_applied_post(
    pre: Coordinator,
    accepted: bool,
    post: Coordinator,
    acts: Seq<Action>,
) -> bool {
    if pre.state is Negotiating && pre.neg is AnswerReceived {
        if accepted {
            &&& post == (Coordinator {
                state: CoordState::Connected,
                neg: NegotiationState::Stable,
                buffered_remote: post.buffered_remote,
                ..pre
            })
            &&& post.buffered_remote@.len() == 0
            &&& acts.len() == pre.buffered_remote@.len()
            &&& forall|i: int|
                0 <= i < pre.buffered_remote@.len() ==> acts[i] == (Action::ForwardCandidate(
                    #[trigger] pre.buffered_remote@[i],
                ))
        } else {
            &&& failed_with(pre, post, GatewayError::NegotiationError)
            &&& teardown_acts(
                pre.mgr.pending@,
                GatewayError::NegotiationError,
                pre.transport_open,
                acts,
            )
        }
    } else {
        ignored(pre, post, acts)
    }
}

/// What `step` does on [`Event::LocalCandidate`]: before the offer has gone
/// out the candidate is queued; once it has, the candidate is trickled at
/// once; while winding down it is dropped.
pub open spec fn local_candidate_post(
    pre: Coordinator,
    c: IceCandidate,
    post: Coordinator,
    acts: Seq<Action>,
) -> bool {
    if pre_offer(pre.state) {
        &&& post == (Coordinator { queued_local: post.queued_local, ..pre })
        &&& post.queued_local@ == pre.queued_local@.push(c)
        &&& acts.len() == 0
    } else if pre.state is Negotiating || pre.state is Connected {
        &&& post == (Coordinator { mgr: post.mgr, ..pre })
        &&& mgr_same_but_txn(pre.mgr, post.mgr)
        &&& SessionHandleManager::issues_txn(pre.mgr, post.mgr, pre.mgr.next_txn)
        &&& (match pre.mgr.session {
            Some(sid) => match pre.mgr.handle {
                Some(hid) => {
                    &&& acts.len() == 1
                    &&& acts[0] == (Action::Send(Envelope::Trickle {
                        txn: pre.mgr.next_txn,
                        session: sid,
                        handle: hid,
                        candidate: Some(c),
                    }))
                },
                None => false,
            },
            None => false,
        })
    } else {
        ignored(pre, post, acts)
    }
}

/// What `step` does on [`Event::KeepaliveTick`]: with a live session, send
/// one heartbeat; without one, nothing. Either way nothing else moves — in
/// particular the negotiation state — so repeating the heartbeat for an
/// already-live session is idempotent.
pub open spec fn keepalive_post(pre: Coordinator, post: Coordinator, acts: Seq<Action>) -> bool {
    match pre.mgr.session {
        Some(sid) => {
            &&& post == (Coordinator { mgr: post.mgr, ..pre })
            &&& mgr_same_but_txn(pre.mgr, post.mgr)
            &&& SessionHandleManager::issues_txn(pre.mgr, post.mgr, pre.mgr.next_txn)
            &&& acts.len() == 1
            &&& acts[0] == (Action::Send(Envelope::Keepalive {
                txn: pre.mgr.next_txn,
                session: sid,
            }))
        },
        None => ignored(pre, post, acts),
    }
}

/// What `step` does on [`Event::WaitTimeout`]: if the identifier still has a
/// pending wait, its expiry is fatal and every pending wait resolves with a
/// timeout; otherwise the stale timer is ignored.
pub open spec fn wait_timeout_post(
    pre: Coordinator,
    txn: u64,
    post: Coordinator,
    acts: Seq<Action>,
) -> bool {
    if pre.mgr.is_pending(txn) {
        &&& failed_with(pre, post, GatewayError::Timeout)
        &&& teardown_acts(pre.mgr.pending@, GatewayError::Timeout, pre.transport_open, acts)
    } else {
        ignored(pre, post, acts)
    }
}

/// What `step` does on [`Event::Stop`]: from any live state the coordinator
/// releases everything it owns and starts closing; every pending wait
/// resolves as cancelled — not as a timeout. While already winding down the
/// request is ignored.
pub open spec fn stop_post(pre: Coordinator, post: Coordinator, acts: Seq<Action>) -> bool {
    if winding_down(pre.state) {
        ignored(pre, post, acts)
    } else {
        &&& post == (Coordinator {
            state: CoordState::Closing,
            transport_open: false,
            mgr: post.mgr,
            ..pre
        })
        &&& post.mgr.pending@.len() == 0
        &&& post.mgr.session is None
        &&& post.mgr.handle is None
        &&& post.mgr.next_txn == pre.mgr.next_txn
        &&& teardown_acts(pre.mgr.pending@, GatewayError::Cancelled, pre.transport_open, acts)
    }
}

/// What `step` does on [`Event::ShutdownComplete`]: it finishes a close in
/// progress; anywhere else it is ignored.
pub open spec fn shutdown_complete_post(
    pre: Coordinator,
    post: Coordinator,
    acts: Seq<Action>,
) -> bool {
    if pre.state is Closing {
        &&& post == (Coordinator { state: CoordState::Closed, ..pre })
        &&& acts.len() == 0
    } else {
        ignored(pre, post, acts)
    }
}

/// What `step` does on [`Event::Inbound`], by envelope kind. A response is
/// routed by its transaction identifier: one that matches no pending wait is
/// dropped as unroutable and alters nothing.
pub open spec fn inbound_post(
    pre: Coordinator,
    env: Envelope,
    post: Coordinator,
    acts: Seq<Action>,
) -> bool {
    match env {
        Envelope::Success { txn, id } => {
            if pre.state is SessionCreating && pre.mgr.is_pending(txn) {
                // The session exists; attach the plugin handle next.
                &&& post == (Coordinator {
                    state: CoordState::HandleAttaching,
                    mgr: post.mgr,
                    ..pre
                })
                &&& post.mgr.session == Some(id)
                &&& post.mgr.handle is None
                &&& SessionHandleManager::issues_txn(pre.mgr, post.mgr, pre.mgr.next_txn)
                &&& post.mgr.pending@.len() == 1
                &&& post.mgr.pending@[0] == (pre.mgr.next_txn, TxnKind::AttachHandle)
                &&& acts.len() == 1
                &&& acts[0] == (Action::Send(Envelope::AttachHandle {
                    txn: pre.mgr.next_txn,
                    session: id,
                    plugin: pre.plugin,
                }))
            } else if pre.state is HandleAttaching && pre.mgr.is_pending(txn) {
                // The handle exists; ask the media engine for the offer.
                &&& post == (Coordinator {
                    state: CoordState::OfferPending,
                    neg: NegotiationState::OfferRequested,
                    mgr: post.mgr,
                    ..pre
                })
                &&& post.mgr.session == pre.mgr.session
                &&& post.mgr.handle == Some(id)
                &&& post.mgr.next_txn == pre.mgr.next_txn
                &&& post.mgr.pending@.len() == 0
                &&& acts.len() == 1
                &&& acts[0] == Action::RequestOffer
            } else {
                ignored(pre, post, acts)
            }
        },
        Envelope::Answer { txn, sdp } => {
            if pre.state is Negotiating && pre.neg is OfferSent && pre.mgr.is_pending(txn) {
                &&& post == (Coordinator {
                    neg: NegotiationState::AnswerReceived,
                    mgr: post.mgr,
                    ..pre
                })
                &&& post.mgr.session == pre.mgr.session
                &&& post.mgr.handle == pre.mgr.handle
                &&& post.mgr.next_txn == pre.mgr.next_txn
                &&& post.mgr.pending@.len() == 0
                &&& acts.len() == 1
                &&& acts[0] == (Action::InstallAnswer { sdp: sdp })
            } else {
                ignored(pre, post, acts)
            }
        },
        Envelope::Error { txn, code, .. } => {
            if pre.mgr.is_pending(txn) {
                &&& failed_with(pre, post, GatewayError::ProtocolError { code })
                &&& teardown_acts(
                    pre.mgr.pending@,
                    GatewayError::ProtocolError { code },
                    pre.transport_open,
                    acts,
                )
            } else {
                ignored(pre, post, acts)
            }
        },
        Envelope::Trickle { candidate, .. } => {
            match candidate {
                Some(c) => {
                    if pre.state is Connected {
                        &&& post == pre
                        &&& acts.len() == 1
                        &&& acts[0] == (Action::ForwardCandidate(c))
                    } else if winding_down(pre.state) {
                        ignored(pre, post, acts)
                    } else {
                        &&& post == (Coordinator { buffered_remote: post.buffered_remote, ..pre })
                        &&& post.buffered_remote@ == buffer_in(pre.buffered_remote@, c)
                        &&& acts.len() == 0
                    }
                },
                // The end-of-candidates marker routes nothing.
                None => ignored(pre, post, acts),
            }
        },
        _ => ignored(pre, post, acts),
    }
}

impl Coordinator {
    /// Internal coherence: the manager is well-formed, the identifiers and
    /// pending waits exist exactly in the states that own them, and the
    /// negotiation state keeps pace with the lifecycle.
    pub open spec fn wf(self) -> bool {
        &&& self.mgr.wf()
        &&& (self.state is Connecting || self.state is SessionCreating)
            ==> self.mgr.session is None
        &&& (self.state is HandleAttaching || self.state is OfferPending
            || self.state is Negotiating || self.state is Connected) ==> self.mgr.session is Some
        &&& (self.state is Connecting || self.state is SessionCreating
            || self.state is HandleAttaching) ==> self.mgr.handle is None
        &&& (self.state is OfferPending || self.state is Negotiating || self.state is Connected)
            ==> self.mgr.handle is Some
        &&& self.state is Connecting ==> !self.transport_open
        &&& (self.state is SessionCreating || self.state is HandleAttaching
            || self.state is OfferPending || self.state is Negotiating
            || self.state is Connected) ==> self.transport_open
        &&& winding_down(self.state) ==> {
            &&& !self.transport_open
            &&& self.mgr.session is None
            &&& self.mgr.handle is None
            &&& self.mgr.pending@.len() == 0
        }
        &&& (self.state is Failed <==> self.failure is Some)
        &&& (self.state is Connecting || self.state is SessionCreating
            || self.state is HandleAttaching) ==> self.neg is Idle
        &&& self.state is OfferPending ==> self.neg is OfferRequested
        &&& self.state is Negotiating ==> (self.neg is OfferSent || self.neg is AnswerReceived)
        &&& self.state is Connected ==> self.neg is Stable
        &&& self.state is Failed ==> self.neg is Failed
        &&& self.state is Connecting ==> self.mgr.pending@.len() == 0
        &&& self.state is SessionCreating ==> self.mgr.pending@.len() == 1
            && self.mgr.pending@[0].1 == TxnKind::CreateSession
        &&& self.state is HandleAttaching ==> self.mgr.pending@.len() == 1
            && self.mgr.pending@[0].1 == TxnKind::AttachHandle
        &&& self.state is OfferPending ==> self.mgr.pending@.len() == 0
        &&& (self.state is Negotiating && self.neg is OfferSent) ==> self.mgr.pending@.len() == 1
            && self.mgr.pending@[0].1 == TxnKind::Offer
        &&& (self.state is Negotiating && self.neg is AnswerReceived)
            ==> self.mgr.pending@.len() == 0
        &&& self.state is Connected ==> self.mgr.pending@.len() == 0
        &&& (self.state is Negotiating || self.state is Connected)
            ==> self.queued_local@.len() == 0
        &&& self.state is Connected ==> self.buffered_remote@.len() == 0
        &&& self.buffered_remote@.len() <= REMOTE_CANDIDATE_CAP
    }

    /// A fresh coordinator for one session, about to open the transport and
    /// attach to `plugin`.
    pub fn new(plugin: String) -> (c: Self)
        ensures
            c.wf(),
            c.state is Connecting,
            c.neg is Idle,
            c.mgr.next_txn == 0,
            c.mgr.session is None,
            c.mgr.handle is None,
            c.mgr.pending@.len() == 0,
            c.plugin == plugin,
            !c.transport_open,
            c.queued_local@.len() == 0,
            c.buffered_remote@.len() == 0,
            c.failure is None,
    {
        Coordinator {
            state: CoordState::Connecting,
            neg: NegotiationState::Idle,
            mgr: SessionHandleManager::new(),
            plugin,
            transport_open: false,
            queued_local: Vec::new(),
            buffered_remote: Vec::new(),
            failure: None,
        }
    }

    /// The outcome `run` surfaces to the caller: nothing while work remains,
    /// the recorded error once the coordinator has failed, success once it
    /// has closed cleanly.
    pub open spec fn outcome_spec(self) -> Option<Result<(), GatewayError>> {
        if self.state is Closed {
            Some(Ok(()))
        } else if self.state is Failed {
            match self.failure {
                Some(e) => Some(Err(e)),
                None => None,
            }
        } else {
            None
        }
    }

    /// The outcome `run` surfaces to the caller.
    pub fn outcome(&self) -> (r: Option<Result<(), GatewayError>>)
        requires
            self.wf(),
        ensures
            r == self.outcome_spec(),
    {
        match self.state {
            CoordState::Closed => Some(Ok(())),
            CoordState::Failed => match self.failure {
                Some(e) => Some(Err(e)),
                None => {
                    proof {
                        assert(false);
                    }
                    None
                },
            },
            _ => None,
        }
    }

    /// Releases everything the client owns: resolves every pending wait with
    /// `outcome`, forgets the session and handle, and closes the transport
    /// if it was open. State fields are the caller's to set afterwards.
    fn teardown(&mut self, outcome: GatewayError) -> (acts: Vec<Action>)
        requires
            old(self).mgr.wf(),
        ensures
            final(self).mgr.wf(),
            final(self).mgr.pending@.len() == 0,
            final(self).mgr.session is None,
            final(self).mgr.handle is None,
            final(self).mgr.next_txn == old(self).mgr.next_txn,
            !final(self).transport_open,
            final(self).state == old(self).state,
            final(self).neg == old(self).neg,
            final(self).failure == old(self).failure,
            final(self).plugin == old(self).plugin,
            final(self).queued_local == old(self).queued_local,
            final(self).buffered_remote == old(self).buffered_remote,
            teardown_acts(old(self).mgr.pending@, outcome, old(self).transport_open, acts@),
    {
        let cancelled = self.mgr.cancel_all();
        self.mgr.release();
        let mut acts: Vec<Action> = Vec::new();
        let n = cancelled.len();
        let mut i: usize = 0;
        while i < n
            invariant
                n == cancelled@.len(),
                0 <= i <= n,
                cancelled@.len() == old(self).mgr.pending@.len(),
                forall|j: int|
                    0 <= j < n ==> cancelled@[j] == (#[trigger] old(self).mgr.pending@[j]).0,
                acts@.len() == i,
                forall|j: int|
                    0 <= j < i ==> acts@[j] == (Action::ResolveWait {
                        txn: (#[trigger] old(self).mgr.pending@[j]).0,
                        outcome: outcome,
                    }),
            decreases n - i,
        {
            acts.push(Action::ResolveWait { txn: cancelled[i], outcome });
            i = i + 1;
        }
        if self.transport_open {
            acts.push(Action::CloseTransport);
            self.transport_open = false;
        }
        acts
    }

    /// Handles [`Event::TransportUp`].
    pub fn on_transport_up(&mut self) -> (acts: Vec<Action>)
        requires
            old(self).wf(),
            old(self).mgr.next_txn < u64::MAX,
        ensures
            final(self).wf(),
            transport_up_post(*old(self), *final(self), acts@),
    {
        match self.state {
            CoordState::Connecting => {
                self.transport_open = true;
                let (_t, env) = self.mgr.create_session();
                self.state = CoordState::SessionCreating;
                let mut acts: Vec<Action> = Vec::new();
                acts.push(Action::Send(env));
                acts
            },
            _ => Vec::new(),
        }
    }

    /// Handles [`Event::ConnectFailed`].
    pub fn on_connect_failed(&mut self, timed_out: bool) -> (acts: Vec<Action>)
        requires
            old(self).wf(),
        ensures
            final(self).wf(),
            connect_failed_post(*old(self), timed_out, *final(self), acts@),
    {
        match self.state {
            CoordState::Connecting => {
                let e = if timed_out {
                    GatewayError::Timeout
                } else {
                    GatewayError::TransportError
                };
                let acts = self.teardown(e);
                self.state = CoordState::Failed;
                self.neg = NegotiationState::Failed;
                self.failure = Some(e);
                acts
            },
            _ => Vec::new(),
        }
    }

    /// Handles [`Event::TransportClosed`].
    pub fn on_transport_closed(&mut self) -> (acts: Vec<Action>)
        requires
            old(self).wf(),
        ensures
            final(self).wf(),
            transport_closed_post(*old(self), *final(self), acts@),
    {
        match self.state {
            CoordState::Closing => {
                self.state = CoordState::Closed;
                Vec::new()
            },
            CoordState::Closed => Vec::new(),
            CoordState::Failed => Vec::new(),
            _ => {
                self.transport_open = false;
                let acts = self.teardown(GatewayError::TransportError);
                self.state = CoordState::Failed;
                self.neg = NegotiationState::Failed;
                self.failure = Some(GatewayError::TransportError);
                acts
            },
        }
    }

    /// Handles [`Event::OfferReady`].
    pub fn on_offer_ready(&mut self, sdp: String) -> (acts: Vec<Action>)
        requires
            old(self).wf(),
            old(self).mgr.next_txn + old(self).queued_local@.len() + 1 <= u64::MAX,
        ensures
            final(self).wf(),
            offer_ready_post(*old(self), sdp, *final(self), acts@),
    {
        match self.state {
            CoordState::OfferPending => {
                let r = self.mgr.offer(sdp);
                match r {
                    Ok((t, env)) => {
                        let mut acts: Vec<Action> = Vec::new();
                        acts.push(Action::Send(env));
                        let n = self.queued_local.len();
                        let mut i: usize = 0;
                        while i < n
                            invariant
                                old(self).state is OfferPending,
                                old(self).wf(),
                                n == self.queued_local@.len(),
                                0 <= i <= n,
                                t == old(self).mgr.next_txn,
                                old(self).mgr.next_txn + n + 1 <= u64::MAX,
                                self.queued_local == old(self).queued_local,
                                self.buffered_remote == old(self).buffered_remote,
                                self.state == old(self).state,
                                self.neg == old(self).neg,
                                self.plugin == old(self).plugin,
                                self.transport_open == old(self).transport_open,
                                self.failure == old(self).failure,
                                self.mgr.wf(),
                                self.mgr.session == old(self).mgr.session,
                                self.mgr.handle == old(self).mgr.handle,
                                self.mgr.session is Some,
                                self.mgr.handle is Some,
                                self.mgr.pending@ == old(self).mgr.pending@.push(
                                    (t, TxnKind::Offer),
                                ),
                                self.mgr.next_txn == t + 1 + i,
                                acts@.len() == 1 + i,
                                (match old(self).mgr.session {
                                    Some(sid) => match old(self).mgr.handle {
                                        Some(hid) => {
                                            &&& acts@[0] == (Action::Send(Envelope::Offer {
                                                txn: t,
                                                session: sid,
                                                handle: hid,
                                                sdp: sdp,
                                            }))
                                            &&& forall|j: int|
                                                0 <= j < i ==> acts@[j + 1] == (Action::Send(
                                                    Envelope::Trickle {
                                                        txn: (t + 1 + j) as u64,
                                                        session: sid,
                                                        handle: hid,
                                                        candidate: Some(
                                                            #[trigger] old(
                                                                self,
                                                            ).queued_local@[j],
                                                        ),
                                                    },
                                                ))
                                        },
                                        None => false,
                                    },
                                    None => false,
                                }),
                            decreases n - i,
                        {
                            let c = self.queued_local[i].clone();
                            let r2 = self.mgr.trickle(c);
                            match r2 {
                                Ok((_t2, env2)) => {
                                    acts.push(Action::Send(env2));
                                },
                                Err(_) => {
                                    proof {
                                        assert(false);
                                    }
                                },
                            }
                            i = i + 1;
                        }
                        self.queued_local = Vec::new();
                        self.state = CoordState::Negotiating;
                        self.neg = NegotiationState::OfferSent;
                        acts
                    },
                    Err(_) => {
                        proof {
                            assert(false);
                        }
                        Vec::new()
                    },
                }
            },
            _ => Vec::new(),
        }
    }

    /// Handles [`Event::AnswerApplied`].
    pub fn on_answer_applied(&mut self, accepted: bool) -> (acts: Vec<Action>)
        requires
            old(self).wf(),
        ensures
            final(self).wf(),
            answer_applied_post(*old(self), accepted, *final(self), acts@),
    {
        let in_install = match self.state {
            CoordState::Negotiating => match self.neg {
                NegotiationState::AnswerReceived => true,
                _ => false,
            },
            _ => false,
        };
        if !in_install {
            return Vec::new();
        }
        if accepted {
            let mut acts: Vec<Action> = Vec::new();
            let n = self.buffered_remote.len();
            let mut i: usize = 0;
            while i < n
                invariant
                    n == self.buffered_remote@.len(),
                    0 <= i <= n,
                    *self == *old(self),
                    acts@.len() == i,
                    forall|j: int|
                        0 <= j < i ==> acts@[j] == (Action::ForwardCandidate(
                            #[trigger] self.buffered_remote@[j],
                        )),
                decreases n - i,
            {
                let c = self.buffered_remote[i].clone();
                acts.push(Action::ForwardCandidate(c));
                i = i + 1;
            }
            self.buffered_remote = Vec::new();
            self.state = CoordState::Connected;
            self.neg = NegotiationState::Stable;
            acts
        } else {
            let acts = self.teardown(GatewayError::NegotiationError);
            self.state = CoordState::Failed;
            self.neg = NegotiationState::Failed;
            self.failure = Some(GatewayError::NegotiationError);
            acts
        }
    }

    /// Handles [`Event::LocalCandidate`].
    pub fn on_local_candidate(&mut self, c: IceCandidate) -> (acts: Vec<Action>)
        requires
            old(self).wf(),
            old(self).mgr.next_txn < u64::MAX,
        ensures
            final(self).wf(),
            local_candidate_post(*old(self), c, *final(self), acts@),
    {
        match self.state {
            CoordState::Connecting
            | CoordState::SessionCreating
            | CoordState::HandleAttaching
            | CoordState::OfferPending => {
                self.queued_local.push(c);
                Vec::new()
            },
            CoordState::Negotiating | CoordState::Connected => {
                let r = self.mgr.trickle(c);
                match r {
                    Ok((_t, env)) => {
                        let mut acts: Vec<Action> = Vec::new();
                        acts.push(Action::Send(env));
                        acts
                    },
                    Err(_) => {
                        proof {
                            assert(false);
                        }
                        Vec::new()
                    },
                }
            },
            _ => Vec::new(),
        }
    }

    /// Handles [`Event::KeepaliveTick`].
    pub fn on_keepalive_tick(&mut self) -> (acts: Vec<Action>)
        requires
            old(self).wf(),
            old(self).mgr.next_txn < u64::MAX,
        ensures
            final(self).wf(),
            keepalive_post(*old(self), *final(self), acts@),
    {
        let have_session = match self.mgr.session {
            Some(_) => true,
            None => false,
        };
        if !have_session {
            return Vec::new();
        }
        let r = self.mgr.keepalive();
        match r {
            Ok((_t, env)) => {
                let mut acts: Vec<Action> = Vec::new();
                acts.push(Action::Send(env));
                acts
            },
            Err(_) => {
                proof {
                    assert(false);
                }
                Vec::new()
            },
        }
    }

    /// Handles [`Event::WaitTimeout`].
    pub fn on_wait_timeout(&mut self, txn: u64) -> (acts: Vec<Action>)
        requires
            old(self).wf(),
        ensures
            final(self).wf(),
            wait_timeout_post(*old(self), txn, *final(self), acts@),
    {
        let k = self.mgr.find_kind(txn);
        match k {
            None => Vec::new(),
            Some(_) => {
                let acts = self.teardown(GatewayError::Timeout);
                self.state = CoordState::Failed;
                self.neg = NegotiationState::Failed;
                self.failure = Some(GatewayError::Timeout);
                acts
            },
        }
    }

    /// Handles [`Event::Stop`].
    pub fn on_stop(&mut self) -> (acts: Vec<Action>)
        requires
            old(self).wf(),
        ensures
            final(self).wf(),
            stop_post(*old(self), *final(self), acts@),
    {
        match self.state {
            CoordState::Closing => Vec::new(),
            CoordState::Closed => Vec::new(),
            CoordState::Failed => Vec::new(),
            _ => {
                let acts = self.teardown(GatewayError::Cancelled);
                self.state = CoordState::Closing;
                acts
            },
        }
    }

    /// Handles [`Event::ShutdownComplete`].
    pub fn on_shutdown_complete(&mut self) -> (acts: Vec<Action>)
        requires
            old(self).wf(),
        ensures
            final(self).wf(),
            shutdown_complete_post(*old(self), *final(self), acts@),
    {
        match self.state {
            CoordState::Closing => {
                self.state = CoordState::Closed;
                Vec::new()
            },
            _ => Vec::new(),
        }
    }

    /// Handles [`Event::Inbound`].
    pub fn on_inbound(&mut self, env: Envelope) -> (acts: Vec<Action>)
        requires
            old(self).wf(),
            old(self).mgr.next_txn < u64::MAX,
        ensures
            final(self).wf(),
            inbound_post(*old(self), env, *final(self), acts@),
    {
        match env {
            Envelope::Success { txn, id } => {
                match self.state {
                    CoordState::SessionCreating => {
                        match self.mgr.resolve(txn) {
                            None => Vec::new(),
                            Some(_k) => {
                                self.mgr.set_session(id);
                                let plugin = self.plugin.clone();
                                let r = self.mgr.attach_handle(plugin);
                                match r {
                                    Ok((_t, env2)) => {
                                        self.state = CoordState::HandleAttaching;
                                        let mut acts: Vec<Action> = Vec::new();
                                        acts.push(Action::Send(env2));
                                        acts
                                    },
                                    Err(_) => {
                                        proof {
                                            assert(false);
                                        }
                                        Vec::new()
                                    },
                                }
                            },
                        }
                    },
                    CoordState::HandleAttaching => {
                        match self.mgr.resolve(txn) {
                            None => Vec::new(),
                            Some(_k) => {
                                self.mgr.set_handle(id);
                                self.state = CoordState::OfferPending;
                                self.neg = NegotiationState::OfferRequested;
                                let mut acts: Vec<Action> = Vec::new();
                                acts.push(Action::RequestOffer);
                                acts
                            },
                        }
                    },
                    _ => Vec::new(),
                }
            },
            Envelope::Answer { txn, sdp } => {
                let awaiting = match self.state {
                    CoordState::Negotiating => match self.neg {
                        NegotiationState::OfferSent => true,
                        _ => false,
                    },
                    _ => false,
                };
                if !awaiting {
                    return Vec::new();
                }
                match self.mgr.resolve(txn) {
                    None => Vec::new(),
                    Some(_k) => {
                        self.neg = NegotiationState::AnswerReceived;
                        let mut acts: Vec<Action> = Vec::new();
                        acts.push(Action::InstallAnswer { sdp });
                        acts
                    },
                }
            },
            Envelope::Error { txn, code, .. } => {
                let k = self.mgr.find_kind(txn);
                match k {
                    None => Vec::new(),
                    Some(_) => {
                        let e = GatewayError::ProtocolError { code };
                        let acts = self.teardown(e);
                        self.state = CoordState::Failed;
                        self.neg = NegotiationState::Failed;
                        self.failure = Some(e);
                        acts
                    },
                }
            },
            Envelope::Trickle { candidate, .. } => {
                match candidate {
                    None => Vec::new(),
                    Some(c) => {
                        match self.state {
                            CoordState::Connected => {
                                let mut acts: Vec<Action> = Vec::new();
                                acts.push(Action::ForwardCandidate(c));
                                acts
                            },
                            CoordState::Closing | CoordState::Closed | CoordState::Failed => {
                                Vec::new()
                            },
                            _ => {
                                if self.buffered_remote.len() >= REMOTE_CANDIDATE_CAP {
                                    self.buffered_remote.remove(0);
                                }
                                self.buffered_remote.push(c);
                                Vec::new()
                            },
                        }
                    },
                }
            },
            _ => Vec::new(),
        }
    }

    /// Advances the state machine by one event, returning the outside work
    /// the surrounding loop must perform. The `*_post` predicates pin down
    /// the transition for every event and every state.
    pub fn step(&mut self, ev: Event) -> (acts: Vec<Action>)
        requires
            old(self).wf(),
            old(self).mgr.next_txn + old(self).queued_local@.len() + 1 <= u64::MAX,
        ensures
            final(self).wf(),
            (match ev {
                Event::TransportUp => transport_up_post(*old(self), *final(self), acts@),
                Event::ConnectFailed { timed_out } => connect_failed_post(
                    *old(self),
                    timed_out,
                    *final(self),
                    acts@,
                ),
                Event::TransportClosed => transport_closed_post(*old(self), *final(self), acts@),
                Event::Inbound(env) => inbound_post(*old(self), env, *final(self), acts@),
                Event::OfferReady { sdp } => offer_ready_post(*old(self), sdp, *final(self), acts@),
                Event::AnswerApplied { accepted } => answer_applied_post(
                    *old(self),
                    accepted,
                    *final(self),
                    acts@,
                ),
                Event::LocalCandidate(c) => local_candidate_post(*old(self), c, *final(self), acts@),
                Event::KeepaliveTick => keepalive_post(*old(self), *final(self), acts@),
                Event::WaitTimeout { txn } => wait_timeout_post(*old(self), txn, *final(self), acts@),
                Event::Stop => stop_post(*old(self), *final(self), acts@),
                Event::ShutdownComplete => shutdown_complete_post(*old(self), *final(self), acts@),
            }),
    {
        match ev {
            Event::TransportUp => self.on_transport_up(),
            Event::ConnectFailed { timed_out } => self.on_connect_failed(timed_out),
            Event::TransportClosed => self.on_transport_closed(),
            Event::Inbound(env) => self.on_inbound(env),
            Event::OfferReady { sdp } => self.on_offer_ready(sdp),
            Event::AnswerApplied { accepted } => self.on_answer_applied(accepted),
            Event::LocalCandidate(c) => self.on_local_candidate(c),
            Event::KeepaliveTick => self.on_keepalive_tick(),
            Event::WaitTimeout { txn } => self.on_wait_timeout(txn),
            Event::Stop => self.on_stop(),
            Event::ShutdownComplete => self.on_shutdown_complete(),
        }
    }
}

/// Whether an action sends a trickle envelope carrying exactly `c`.
pub open spec fn sends_candidate(a: Action, c: IceCandidate) -> bool {
    a matches Action::Send(Envelope::Trickle { candidate, .. }) && candidate == Some(c)
}

/// Law: keepalive heartbeats are idempotent with respect to negotiation.
/// Resending the heartbeat for an already-live session — any number of times
/// — leaves the negotiation state, the lifecycle state, the queues and the
/// pending waits exactly where they were.
pub proof fn lemma_keepalive_idempotent(
    c0: Coordinator,
    c1: Coordinator,
    c2: Coordinator,
    a1: Seq<Action>,
    a2: Seq<Action>,
)
    requires
        keepalive_post(c0, c1, a1),
        keepalive_post(c1, c2, a2),
    ensures
        c1.neg == c0.neg,
        c2.neg == c0.neg,
        c1.state == c0.state,
        c2.state == c0.state,
        c2.queued_local == c0.queued_local,
        c2.buffered_remote == c0.buffered_remote,
        c2.mgr.pending@ == c0.mgr.pending@,
        c2.mgr.session == c0.mgr.session,
        c2.mgr.handle == c0.mgr.handle,
{
}

/// Law: local candidates are flushed in generation order. If `c1` and then
/// `c2` are generated while the offer is still pending, the flush that
/// accompanies the offer sends the trickle for `c1` strictly before the one
/// for `c2` — here at positions `n + 1` and `n + 2` of the step's actions,
/// where `n` is how many candidates were already queued.
pub proof fn lemma_local_candidates_flushed_in_order(
    pre: Coordinator,
    q1: Coordinator,
    q2: Coordinator,
    post: Coordinator,
    c1: IceCandidate,
    c2: IceCandidate,
    sdp: String,
    a1: Seq<Action>,
    a2: Seq<Action>,
    acts: Seq<Action>,
)
    requires
        pre.wf(),
        pre.state is OfferPending,
        local_candidate_post(pre, c1, q1, a1),
        local_candidate_post(q1, c2, q2, a2),
        offer_ready_post(q2, sdp, post, acts),
    ensures
        acts.len() == pre.queued_local@.len() + 3,
        sends_candidate(acts[pre.queued_local@.len() as int + 1], c1),
        sends_candidate(acts[pre.queued_local@.len() as int + 2], c2),
{
    let n = pre.queued_local@.len() as int;
    assert(q2.queued_local@ == pre.queued_local@.push(c1).push(c2));
    assert(q2.queued_local@[n] == c1);
    assert(q2.queued_local@[n + 1] == c2);
}

/// Law (round trip): an offer produced while the offer is pending, followed
/// by an answer envelope matching the offer's transaction identifier and its
/// successful installation, drives the coordinator from offer-pending
/// through negotiating to connected, and negotiation to stable.
pub proof fn lemma_offer_answer_round_trip(
    c0: Coordinator,
    c1: Coordinator,
    c2: Coordinator,
    c3: Coordinator,
    offer_sdp: String,
    answer_sdp: String,
    a1: Seq<Action>,
    a2: Seq<Action>,
    a3: Seq<Action>,
)
    requires
        c0.wf(),
        c0.state is OfferPending,
        offer_ready_post(c0, offer_sdp, c1, a1),
        inbound_post(c1, Envelope::Answer { txn: c0.mgr.next_txn, sdp: answer_sdp }, c2, a2),
        answer_applied_post(c2, true, c3, a3),
    ensures
        c1.state is Negotiating && c1.neg is OfferSent,
        c2.state is Negotiating && c2.neg is AnswerReceived,
        a2.len() == 1 && a2[0] == (Action::InstallAnswer { sdp: answer_sdp }),
        c3.state is Connected && c3.neg is Stable,
{
    assert(c1.mgr.pending@.len() == 1);
    assert(c1.mgr.pending@[0].0 == c0.mgr.next_txn);
    assert(c1.mgr.is_pending(c0.mgr.next_txn));
}

/// Law: a response envelope whose transaction identifier matches no pending
/// wait is dropped as unroutable: nothing changes and nothing is asked for.
pub proof fn lemma_unroutable_answer_dropped(
    pre: Coordinator,
    post: Coordinator,
    txn: u64,
    sdp: String,
    acts: Seq<Action>,
)
    requires
        !pre.mgr.is_pending(txn),
        inbound_post(pre, Envelope::Answer { txn: txn, sdp: sdp }, post, acts),
    ensures
        post == pre,
        acts.len() == 0,
{
}

/// Law: a caller-initiated stop from any live state moves the coordinator to
/// closing and then, once the transport is released, to closed. Every wait
/// that was pending resolves as cancelled — not as a timeout — and the
/// negotiation state is left where the stop found it.
pub proof fn lemma_stop_then_closed(
    c0: Coordinator,
    c1: Coordinator,
    c2: Coordinator,
    a1: Seq<Action>,
    a2: Seq<Action>,
)
    requires
        !winding_down(c0.state),
        stop_post(c0, c1, a1),
        shutdown_complete_post(c1, c2, a2),
    ensures
        c1.state is Closing,
        c2.state is Closed,
        c2.neg == c0.neg,
        forall|i: int|
            0 <= i < c0.mgr.pending@.len() ==> a1[i] == (Action::ResolveWait {
                txn: (#[trigger] c0.mgr.pending@[i]).0,
                outcome: GatewayError::Cancelled,
            }),
{
}

} // verus!
