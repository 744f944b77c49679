//! Emission support: the derive sets each generated item carries, and the
//! parts of the server and client emitters that decide text rather than
//! tokens.

use vstd::prelude::*;

pub mod models;
pub mod render;
pub mod operation;
pub mod servers;
pub mod usage;
pub mod foreign;
pub mod axum;
pub mod reqwest;
pub mod constraints;

use crate::ir::SecurityScheme;

verus! {

/// The first lines of every emitted file: a notice that the file is tool
/// output, and the lint allowances the emitted code needs.
pub const HEADER: &'static str = "// Written by oapi-codegen from the OpenAPI document; edits are lost on the next run.\n#![allow(clippy::all)]\n\n";

/// Which generators a run emits: the server interface, the client, or both.
#[derive(Debug, Clone, Copy, PartialEq, Eq)]
pub struct Targets {
    /// The axum server interface is generated.
    pub server: bool,
    /// The blocking `reqwest` client is generated.
    pub client: bool,
}

/// Whether `i` is the first scheme declared under `key`.
pub open spec fn first_scheme(schemes: Seq<SecurityScheme>, key: Seq<char>, i: int) -> bool {
    &&& 0 <= i < schemes.len()
    &&& schemes[i].key@ == key
    &&& forall|j: int| 0 <= j < i ==> schemes[j].key@ != key
}

/// The scheme declared under `key`, the first one when several are.
pub open spec fn scheme_for(schemes: Seq<SecurityScheme>, key: Seq<char>) -> Option<SecurityScheme> {
    if exists|i: int| first_scheme(schemes, key, i) {
        Some(schemes[choose|i: int| first_scheme(schemes, key, i)])
    } else {
        None
    }
}

/// The first scheme `i` with `first_scheme` is the one `scheme_for` picks.
pub proof fn lemma_scheme_for(schemes: Seq<SecurityScheme>, key: Seq<char>, i: int)
    requires
        first_scheme(schemes, key, i),
    ensures
        scheme_for(schemes, key) == Some(schemes[i]),
{
    let k = choose|k: int| first_scheme(schemes, key, k);
    assert(first_scheme(schemes, key, k));
    if k < i {
        assert(schemes[k].key@ != key);
    } else if k > i {
        assert(schemes[i].key@ != key);
    }
}

/// The index of the scheme declared under `key`, the first one when several are.
pub fn scheme_index(schemes: &Vec<SecurityScheme>, key: &str) -> (r: Option<usize>)
    ensures
        r matches Some(i) ==> first_scheme(schemes@, key@, i as int) && scheme_for(schemes@, key@) == Some(schemes@[i as int]),
        r is None ==> scheme_for(schemes@, key@) is None,
{
    let mut i: usize = 0;
    while i < schemes.len()
        invariant
            i <= schemes@.len(),
            forall|j: int| 0 <= j < i ==> schemes@[j].key@ != key@,
        decreases schemes@.len() - i,
    {
        if crate::text::same_text(schemes[i].key.as_str(), key) {
            proof {
                lemma_scheme_for(schemes@, key@, i as int);
            }
            return Some(i);
        }
        i = i + 1;
    }
    proof {
        assert(!exists|k: int| first_scheme(schemes@, key@, k));
    }
    None
}

} // verus!
