use vstd::prelude::*;
use crate::envelope::{decode_envelope, envelope_of, yields, Envelope};
use crate::error::ApiError;

verus! {

/// Gathers the chunks of a response body, in the order they arrive, so that
/// the envelope is decoded from the whole document at once.
pub struct BodyCollector {
    status: u16,
    bytes: Vec<u8>,
    failed: bool,
}

/// An HTTP status of the 2xx class.
pub open spec fn is_success_status(status: u16) -> bool {
    200 <= status < 300
}

impl BodyCollector {
    /// The bytes received so far, in order.
    pub closed spec fn received(&self) -> Seq<u8> {
        self.bytes@
    }

    /// The HTTP status of the response.
    pub closed spec fn status(&self) -> u16 {
        self.status
    }

    /// Whether reading the body has failed.
    pub closed spec fn has_failed(&self) -> bool {
        self.failed
    }

    /// A collector for the body of a response with this HTTP status.
    pub fn new(status: u16) -> (r: Self)
        ensures
            r.received() == Seq::<u8>::empty(),
            !r.has_failed(),
            r.status() == status,
    {
        BodyCollector { status, bytes: Vec::new(), failed: false }
    }

    /// Appends one chunk.
    pub fn push_chunk(&mut self, chunk: &[u8])
        ensures
            final(self).received() == old(self).received() + chunk@,
            final(self).has_failed() == old(self).has_failed(),
            final(self).status() == old(self).status(),
    {
        let mut i: usize = 0;
        while i < chunk.len()
            invariant
                i <= chunk@.len(),
                self.bytes@ == old(self).bytes@ + chunk@.subrange(0, i as int),
                self.failed == old(self).failed,
                self.status == old(self).status,
            decreases chunk@.len() - i,
        {
            self.bytes.push(chunk[i]);
            i = i + 1;
            assert(self.bytes@ =~= old(self).bytes@ + chunk@.subrange(0, i as int));
        }
        assert(chunk@.subrange(0, chunk@.len() as int) =~= chunk@);
    }

    /// The bytes received so far.
    pub fn received_bytes(&self) -> (r: &[u8])
        ensures
            r@ == self.received(),
    {
        self.bytes.as_slice()
    }

    /// Records that reading the body failed part way.
    pub fn fail(&mut self)
        ensures
            final(self).received() == old(self).received(),
            final(self).has_failed(),
            final(self).status() == old(self).status(),
    {
        self.failed = true;
    }

    /// The outcome of the call once the body has ended, which depends on
    /// the status, the bytes received and whether reading failed, and not on
    /// how the bytes were split into chunks. A failed read is a transport
    /// error whatever was received; so is a reply outside the 2xx class whose
    /// body is not an envelope. Otherwise the body's envelope decides.
    pub fn finish(self) -> (r: Result<serde_json::Value, ApiError>)
        ensures
            self.has_failed() ==> r is Err && r->Err_0 is Network,
            !self.has_failed() && !is_success_status(self.status())
                && envelope_of(self.received()) is Malformed ==> r is Err && r->Err_0 is Network,
            !self.has_failed() && (is_success_status(self.status())
                || !(envelope_of(self.received()) is Malformed)) ==> yields(
                r,
                envelope_of(self.received()),
            ),
    {
        if self.failed {
            return Err(ApiError::Network);
        }
        let r = decode_envelope(self.bytes.as_slice());
        if self.status < 200 || self.status >= 300 {
            if let Err(ApiError::Decode) = r {
                return Err(ApiError::Network);
            }
        }
        r
    }
}

} // verus!
