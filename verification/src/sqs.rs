//! Options for the queue-service transport.
//!
//! The transport itself — wire protocol, credentials, retries — is an
//! external collaborator; the verified core only names where a run reads
//! from and writes to.

use vstd::prelude::*;

verus! {

/// Where a transport client reads from and writes to.
pub struct SqsOptions {
    pub source: String,
    pub dest: String,
    pub region: Option<String>,
}

} // verus!
