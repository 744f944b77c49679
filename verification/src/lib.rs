//! `oapi-codegen`: generate idiomatic Rust from OpenAPI 3 specifications.
//!
//! This crate holds the generator's decisions: the intermediate
//! representation, the derive sets each model carries, the names a `$ref`
//! holds, the checks a document and a configuration go through, the crates
//! generated code needs, and the words of every error and hint.

use vstd::prelude::*;

pub mod text;
pub mod naming;
pub mod ir;
pub mod graph;
pub mod emit;
pub mod cli;
pub mod config;
pub mod console;
pub mod coverage;
pub mod deps;
pub mod diagnostic;
pub mod error;
pub mod filter;
pub mod loader;
pub mod yaml;

use vstd::string::StringSliceAdditionalSpecFns;
use crate::error::Error;
use crate::error::IoErrorKind;
use crate::error::IoFailure;

verus! {

/// What a comparison of generated code against an output file found.
#[derive(Debug, Clone, Copy, PartialEq, Eq, Structural)]
pub enum Drift {
    /// The output file holds the generated code: it is up to date.
    UpToDate,
    /// The output file does not exist. Generation creates it, so this is drift
    /// and not a read failure.
    Absent,
    /// The output file exists and holds different content.
    Differs,
}

/// Whether two byte strings are equal.
fn same_bytes(a: &[u8], b: &[u8]) -> (r: bool)
    ensures
        r == (a@ == b@),
{
    if a.len() != b.len() {
        return false;
    }
    let mut k: usize = 0;
    while k < a.len()
        invariant
            k <= a@.len(),
            a@.len() == b@.len(),
            forall|j: int| 0 <= j < k ==> a@[j] == b@[j],
        decreases a@.len() - k,
    {
        if a[k] != b[k] {
            return false;
        }
        k = k + 1;
    }
    assert(a@ =~= b@);
    true
}

/// The comparison an output read gives: the same bytes as the code is no
/// drift, other bytes are drift, an absent file is drift, and any other read
/// failure is an error naming the path.
pub open spec fn drift_outcome(path: Seq<char>, read: Result<Vec<u8>, IoFailure>, code: Seq<u8>) -> Option<Drift> {
    match read {
        Ok(bytes) => Some(if bytes@ == code { Drift::UpToDate } else { Drift::Differs }),
        Err(failure) => if failure.kind == IoErrorKind::NotFound { Some(Drift::Absent) } else { None },
    }
}

/// Compare `code` with what reading the output file gave, and report the
/// difference.
///
/// The comparison reads bytes and not text, and it is exact: one input gives
/// one formatted output, so a trailing newline is a real difference, and a file
/// that is not UTF-8 differs. An absent file is drift and not an error, because
/// generation creates it; any other failure is [`Error::ReadOutput`].
pub fn drift_for(output_path: &str, read: Result<Vec<u8>, IoFailure>, code: &str) -> (r: Result<Drift, Error>)
    ensures
        match drift_outcome(output_path@, read, code.spec_bytes()) {
            Some(d) => r == Ok::<Drift, Error>(d),
            None => r matches Err(Error::ReadOutput { path, source }) && path@ == output_path@ && read == Err::<
                Vec<u8>,
                IoFailure,
            >(source),
        },
{
    match read {
        Ok(existing) => {
            if same_bytes(existing.as_slice(), code.as_bytes()) {
                Ok(Drift::UpToDate)
            } else {
                Ok(Drift::Differs)
            }
        },
        Err(source) => {
            if source.kind == IoErrorKind::NotFound {
                Ok(Drift::Absent)
            } else {
                Err(Error::ReadOutput { path: crate::text::owned(output_path), source })
            }
        },
    }
}

} // verus!
