//! The identity record of a peer certificate, and the trait of the policies
//! that judge it.

use crate::error::VerificationError;
use vstd::prelude::*;

verus! {

/// What a [`Certificate`] holds, as mathematical text.
pub ghost struct CertificateView {
    /// The subject's common name; empty where the certificate has none.
    pub common_name: Seq<char>,
    /// The subject's organizational unit; empty where the certificate has none.
    pub organizational_unit: Seq<char>,
}

/// Certificate information for a TLS connection.
///
/// A record is fixed once built: its fields are private and no method
/// changes them. A policy only ever sees it behind a shared reference.
#[derive(Debug)]
pub struct Certificate {
    common_name: String,
    organizational_unit: String,
}

impl View for Certificate {
    type V = CertificateView;

    closed spec fn view(&self) -> CertificateView {
        CertificateView {
            common_name: self.common_name@,
            organizational_unit: self.organizational_unit@,
        }
    }
}

impl Certificate {
    /// Creates a new certificate from the two subject fields.
    ///
    /// Both texts are taken as they are, empty or not: to judge them is the
    /// policy's part. A field that the peer's certificate lacks is passed as
    /// the empty string. Meant for the layer that runs the handshake; a
    /// policy has no use for it.
    pub fn new(common_name: String, organizational_unit: String) -> (cert: Certificate)
        ensures
            cert@ == (CertificateView {
                common_name: common_name@,
                organizational_unit: organizational_unit@,
            }),
    {
        Certificate { common_name, organizational_unit }
    }

    /// Returns the common name of the certificate.
    ///
    /// Deprecated: please use [`Certificate::common_name`] instead. This
    /// older name reads the same field and will be removed.
    pub fn subject_name(&self) -> (name: &str)
        ensures
            name@ == self@.common_name,
    {
        self.common_name()
    }

    /// Returns the common name of the certificate.
    pub fn common_name(&self) -> (name: &str)
        ensures
            name@ == self@.common_name,
    {
        self.common_name.as_str()
    }

    /// Returns the organizational unit of the certificate.
    pub fn organizational_unit(&self) -> (unit: &str)
        ensures
            unit@ == self@.organizational_unit,
    {
        self.organizational_unit.as_str()
    }
}

/// A trait for verifying a certificate.
///
/// One instance serves many connections at once, hence `Send + Sync` and a
/// shared `self`. A call may block, and two calls on the same record need
/// not agree: a policy may consult a clock or a store of its own.
pub trait CertificateVerifier: Send + Sync {
    /// Verify the certificate. If the certificate is valid, return `Ok(())`.
    /// Otherwise, return an error, which says why.
    ///
    /// Every record is a valid input, one with empty fields too. An
    /// implementation answers for each of them, and where it refuses, its
    /// reason is not empty.
    fn verify_certificate(&self, end_entity: &Certificate) -> (outcome: Result<
        (),
        VerificationError,
    >)
        ensures
            outcome matches Err(refusal) ==> refusal@.len() > 0,
    ;
}

impl dyn CertificateVerifier {
    /// The text that stands for any verifier in diagnostics.
    ///
    /// It is the trait's name, whatever the type behind `self`, so that a
    /// log can say that a verifier is set without showing what it holds.
    pub fn debug_label(&self) -> (label: &'static str)
        ensures
            label@ == "CertificateVerifier"@,
    {
        "CertificateVerifier"
    }
}

/// A record shows what it was built from: whatever the two texts given to
/// [`Certificate::new`], the accessors of the record it returns give back
/// exactly these texts.
pub proof fn lemma_read_back(
    common_name: String,
    organizational_unit: String,
    cert: Certificate,
    name: &str,
    unit: &str,
)
    requires
        call_ensures(Certificate::new, (common_name, organizational_unit), cert),
        call_ensures(Certificate::common_name, (&cert,), name),
        call_ensures(Certificate::organizational_unit, (&cert,), unit),
    ensures
        name@ == common_name@,
        unit@ == organizational_unit@,
{
}

/// The older accessor is an alias: on every record,
/// [`Certificate::subject_name`] and [`Certificate::common_name`] return
/// the same text.
pub proof fn lemma_alias_agrees(cert: Certificate, older: &str, current: &str)
    requires
        call_ensures(Certificate::subject_name, (&cert,), older),
        call_ensures(Certificate::common_name, (&cert,), current),
    ensures
        older@ == current@,
{
}

} // verus!
