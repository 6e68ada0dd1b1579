//! The outbound client's error surface. The client itself is an
//! external collaborator: given a target URI it returns a full
//! response, and its construction from trust-anchor material happens
//! outside the library.
use vstd::prelude::*;

verus! {

/// Why building the outbound client failed at startup.
#[derive(Debug)]
pub enum NewClientError {
    /// The custom trust-anchor bundle could not be read.
    IoError(std::io::Error),
    /// The custom trust-anchor bundle could not be parsed.
    InvalidCertificateAuthority,
}

} // verus!
