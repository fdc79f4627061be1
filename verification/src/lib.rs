//! A verified client core for a cloud object-storage command-line tool.
//!
//! The storage service is driven by an external executable: each operation
//! (bulk download, bulk upload, single-object put, delete) is one invocation
//! of that executable with an ordered argument list.  Spawning the process is
//! the caller's business; this crate holds everything that can be decided
//! without touching the operating system, with contracts:
//!
//! * building the exact argument list of each operation ([`invocation`]),
//! * the upload precondition check and the directory/file branch,
//! * mapping a finished process (exit status, captured standard error) or a
//!   failed spawn to the one structured outcome type ([`outcome`]).

use vstd::prelude::*;

pub mod invocation;
pub mod outcome;

verus! {

/// The pair of identifiers that every operation hands to the external tool:
/// a bucket name and the namespace that scopes it.  Both are opaque strings,
/// passed through unchanged.
pub struct BucketRef {
    pub bucket: String,
    pub namespace: String,
}

impl BucketRef {
    /// Builds a bucket reference from its two identifiers.
    pub fn new(bucket: String, namespace: String) -> (r: BucketRef)
        ensures
            r.bucket@ == bucket@,
            r.namespace@ == namespace@,
    {
        BucketRef { bucket, namespace }
    }
}

} // verus!
