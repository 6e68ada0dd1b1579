//! Small IO helpers shared by the error types.
use vstd::prelude::*;

verus! {

#[verifier::external_type_specification]
#[verifier::external_body]
pub struct ExIoError(std::io::Error);

/// Relies on std::io::Error::new: wraps a message into an error value
/// of the catch-all kind. Nothing about the value is observable to the
/// library, so nothing further is claimed of it.
#[verifier::external_body]
fn io_error_from_message(message: String) -> std::io::Error {
    std::io::Error::new(std::io::ErrorKind::Other, message)
}

/// Builds an IO error carrying the given message.
pub fn make_io_error(message: String) -> std::io::Error {
    io_error_from_message(message)
}

} // verus!
