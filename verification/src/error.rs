//! The reason a verification policy gives when it rejects a peer.

use vstd::prelude::*;

verus! {

/// A rejection: the peer is not trusted, for the reason held here.
///
/// The reason is the policy's own text. The caller reads it for diagnostics
/// and otherwise treats every value of this type alike, as "do not trust".
#[derive(Debug)]
pub struct VerificationError {
    reason: String,
}

impl View for VerificationError {
    type V = Seq<char>;

    /// The reason, as mathematical text.
    closed spec fn view(&self) -> Seq<char> {
        self.reason@
    }
}

impl VerificationError {
    /// Creates a rejection with the given reason, taken as it is.
    pub fn new(reason: String) -> (err: VerificationError)
        ensures
            err@ == reason@,
    {
        VerificationError { reason }
    }

    /// Returns the reason of the rejection.
    pub fn reason(&self) -> (reason: &str)
        ensures
            reason@ == self@,
    {
        self.reason.as_str()
    }
}

} // verus!
