//! Two plain policies: one that trusts every peer, and one that trusts the
//! peers whose common name stands in a fixed list.

use crate::certificate::{Certificate, CertificateVerifier};
use crate::error::VerificationError;
use vstd::prelude::*;

verus! {

/// The policy that trusts every peer.
#[derive(Debug)]
pub struct AcceptAll;

impl CertificateVerifier for AcceptAll {
    /// Accepts the record without reading it.
    fn verify_certificate(&self, end_entity: &Certificate) -> (outcome: Result<
        (),
        VerificationError,
    >)
        ensures
            outcome is Ok,
    {
        Ok(())
    }
}

/// The policy that trusts a peer exactly when its common name is one of the
/// names it was made with.
///
/// Names are compared as they are, character by character: no case folding,
/// no wildcard, no trimming. The list never changes after it is made.
#[derive(Debug)]
pub struct AllowList {
    names: Vec<String>,
}

impl View for AllowList {
    type V = Seq<Seq<char>>;

    /// The allowed names, in the order they were given.
    closed spec fn view(&self) -> Seq<Seq<char>> {
        self.names.deep_view()
    }
}

impl AllowList {
    /// The reason with which a name outside the list is refused.
    pub open spec fn mismatch() -> Seq<char> {
        "name mismatch"@
    }

    /// Creates the policy that allows the given names and no other.
    pub fn new(names: Vec<String>) -> (list: AllowList)
        ensures
            list@ == names.deep_view(),
    {
        AllowList { names }
    }

    /// Creates the policy that allows one name only.
    pub fn pinned(name: String) -> (list: AllowList)
        ensures
            list@ == seq![name@],
            forall|other: Seq<char>| list@.contains(other) <==> other == name@,
    {
        let mut names: Vec<String> = Vec::new();
        names.push(name);
        assert(names.deep_view() =~= seq![name@]);
        assert(names.deep_view()[0] == name@);
        AllowList { names }
    }

    /// Tells whether `name` is one of the allowed names.
    pub fn allows(&self, name: &str) -> (found: bool)
        ensures
            found == self@.contains(name@),
    {
        let wanted = name.to_owned();
        let mut i: usize = 0;
        while i < self.names.len()
            invariant
                i <= self.names.len(),
                wanted@ == name@,
                forall|j: int| 0 <= j < i ==> self@[j] != name@,
            decreases self.names.len() - i,
        {
            if self.names[i] == wanted {
                assert(self@[i as int] == name@);
                return true;
            }
            i += 1;
        }
        false
    }
}

impl CertificateVerifier for AllowList {
    /// Accepts the record when its common name is allowed, and refuses it
    /// with the reason "name mismatch" when it is not.
    fn verify_certificate(&self, end_entity: &Certificate) -> (outcome: Result<
        (),
        VerificationError,
    >)
        ensures
            outcome is Ok <==> self@.contains(end_entity@.common_name),
            outcome matches Err(refusal) ==> refusal@ == Self::mismatch(),
    {
        if self.allows(end_entity.common_name()) {
            Ok(())
        } else {
            proof {
                reveal_strlit("name mismatch");
            }
            Err(VerificationError::new("name mismatch".to_owned()))
        }
    }
}

/// An allow-list answers by the common name alone, and the same each time:
/// two answers of one list, for one record or for two records with the same
/// common name, are both acceptances or both refusals, and two refusals
/// carry the same reason.
pub proof fn lemma_allow_list_repeats(
    list: AllowList,
    cert: Certificate,
    again: Certificate,
    first: Result<(), VerificationError>,
    second: Result<(), VerificationError>,
)
    requires
        cert@.common_name == again@.common_name,
        call_ensures(<AllowList as CertificateVerifier>::verify_certificate, (&list, &cert), first),
        call_ensures(
            <AllowList as CertificateVerifier>::verify_certificate,
            (&list, &again),
            second,
        ),
    ensures
        first is Ok <==> second is Ok,
        first is Ok <==> list@.contains(cert@.common_name),
        first matches Err(a) ==> second matches Err(b) && a@ == b@,
{
}

} // verus!
