use vstd::prelude::*;

verus! {

/// The error of a failed HTTP exchange; carried, never inspected.
#[verifier::external_type_specification]
#[verifier::external_body]
pub struct ExReqwestError(reqwest::Error);

/// The error of a JSON text that does not parse; carried, never inspected.
#[verifier::external_type_specification]
#[verifier::external_body]
pub struct ExJsonError(serde_json::Error);

/// The error of a failed read or write; carried, never inspected.
#[verifier::external_type_specification]
#[verifier::external_body]
pub struct ExIoError(std::io::Error);

/// Every way a command of the library can fail.
#[derive(Debug)]
pub enum BookError {
    /// The HTTP request to the book service failed.
    Http(reqwest::Error),
    /// A response or the store file did not parse.
    Parse(serde_json::Error),
    /// Reading or writing failed.
    Io(std::io::Error),
    /// A book with this id is already on the list.
    DuplicateId(String),
    /// No location for the store could be found.
    NoConfigDir,
}

} // verus!
