//! The errors a caller can observe: only opening the log file and installing
//! a second dispatcher are fallible. Everything on the hot path is absorbed.

use vstd::prelude::*;

verus! {

#[verifier::external_type_specification]
#[verifier::external_body]
pub struct ExIoError(std::io::Error);

/// What can go wrong while setting a logger up.
#[derive(Debug)]
pub enum LogError {
    /// The log file could not be opened or prepared.
    Io(std::io::Error),
    /// A dispatcher is already installed process-wide.
    Logger,
}

/// Relies on the `Display` implementation of `std::io::Error` for the
/// human-readable description of an I/O failure.
#[verifier::external_body]
fn io_error_text(e: &std::io::Error) -> (r: String) {
    format!("{}", e)
}

impl LogError {
    /// A human-readable description of the error.
    pub fn message(&self) -> (r: String)
        ensures
            self is Logger ==> r@ == "Failed to set logger"@,
            self is Io ==> (exists|tail: Seq<char>| r@ == "IO error: "@ + tail),
    {
        match self {
            LogError::Logger => String::from_str("Failed to set logger"),
            LogError::Io(e) => {
                let mut s = String::from_str("IO error: ");
                let tail = io_error_text(e);
                s.append(tail.as_str());
                proof {
                    assert(s@ == "IO error: "@ + tail@);
                }
                s
            },
        }
    }
}

} // verus!
