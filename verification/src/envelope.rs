//! The signaling wire model: the JSON envelopes exchanged with the gateway,
//! as structured values. Turning an [`Envelope`] into bytes and back is the
//! transport edge's concern; every decision the core takes is phrased over
//! these values.

use vstd::prelude::*;

verus! {

/// One trickled ICE candidate: a media-line index and the candidate string.
/// The core routes candidates without interpreting them.
pub struct IceCandidate {
    /// Index of the media line the candidate belongs to.
    pub mline: u64,
    /// The candidate payload, passed through opaquely.
    pub candidate: String,
}

impl Clone for IceCandidate {
    fn clone(&self) -> (res: Self)
        ensures
            res == *self,
    {
        IceCandidate { mline: self.mline, candidate: self.candidate.clone() }
    }
}

/// A signaling envelope. Requests carry a freshly generated transaction
/// identifier; responses echo the identifier of the request they answer.
pub enum Envelope {
    /// Request: create a gateway session.
    CreateSession { txn: u64 },
    /// Request: attach a plugin handle inside a session.
    AttachHandle { txn: u64, session: u64, plugin: String },
    /// Request: keep a session alive (fire-and-forget heartbeat).
    Keepalive { txn: u64, session: u64 },
    /// Request: the local SDP offer for a handle.
    Offer { txn: u64, session: u64, handle: u64, sdp: String },
    /// Response: the remote SDP answer, echoing the offer's identifier.
    Answer { txn: u64, sdp: String },
    /// Either direction: one ICE candidate, or the end-of-candidates marker
    /// when `candidate` is absent.
    Trickle { txn: u64, session: u64, handle: u64, candidate: Option<IceCandidate> },
    /// Response: a request succeeded; `id` carries the assigned session or
    /// handle identifier.
    Success { txn: u64, id: u64 },
    /// Response: bare acknowledgment of a fire-and-forget request.
    Ack { txn: u64 },
    /// Response: the gateway rejected a request, with a machine-readable
    /// code and a human-readable reason.
    Error { txn: u64, code: u64, reason: String },
}

} // verus!
