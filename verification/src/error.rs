//! The error type shared by the selector compiler and the replay engine.

use vstd::prelude::*;

verus! {

/// Why a replay run failed.
///
/// `BadSelector` is detected before any queue traffic and is always fatal;
/// `Sqs` wraps the rendered message of a queue-service failure reported by
/// the transport layer.
#[derive(Debug)]
pub enum ReplayError {
    BadSelector(String),
    Sqs(String),
}

impl ReplayError {
    /// A human-readable rendering of the error.
    pub fn message(&self) -> (m: String)
        ensures
            self matches ReplayError::BadSelector(d) ==> m@ == "bad selector: "@ + d@,
            self matches ReplayError::Sqs(d) ==> m@ == d@,
    {
        match self {
            ReplayError::BadSelector(detail) => {
                let m = String::from_str("bad selector: ");
                m.concat(detail.as_str())
            },
            ReplayError::Sqs(detail) => detail.clone(),
        }
    }
}

} // verus!
