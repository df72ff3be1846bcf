//! The identity of a TLS peer as a verification policy sees it, and the
//! contract that every such policy meets.
//!
//! The layer that runs the handshake builds one [`Certificate`] per attempt
//! and hands it, by reference, to a [`CertificateVerifier`]. The verifier
//! answers `Ok(())` to trust the peer or a [`VerificationError`] to refuse
//! it; the connection goes on exactly when the answer is `Ok(())`.

pub mod certificate;
pub mod error;
pub mod policy;

pub use certificate::{Certificate, CertificateVerifier, CertificateView};
pub use error::VerificationError;
pub use policy::{AcceptAll, AllowList};
