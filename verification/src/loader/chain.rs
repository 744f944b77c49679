//! Following a `$ref` chain to the component it ends at.
//!
//! A chain is walked one link at a time: each link names a component, the
//! caller looks it up (in the main document, or in the referenced file the
//! chain has reached), and answers with what it found. A component that is
//! itself a `$ref` continues the chain. The walk gives up after
//! [`MAX_REF_DEPTH`] links, which ends every cycle.

use vstd::prelude::*;

use crate::error::Error;
use crate::loader::component_name;
use crate::loader::file_part;
use crate::loader::opt_text;
use crate::loader::ref_component_name;
use crate::loader::ref_file_part;
use crate::loader::ref_target_name;
use crate::loader::target_name;
use crate::text::owned;
use crate::text::push_str;

verus! {

/// Maximum `$ref` chain length before giving up (the cycle guard).
pub const MAX_REF_DEPTH: usize = 32;

/// What a chain resolves, and how it treats a cross-file link.
#[derive(Debug, Clone, Copy, PartialEq, Eq, Structural)]
pub enum ChainKind {
    /// A component response; cross-file links are followed.
    Response,
    /// A component parameter; cross-file links are followed.
    Parameter,
    /// A component request body; cross-file links are followed.
    RequestBody,
    /// A component schema of the document the chain starts in; a cross-file
    /// link is refused as such.
    Schema,
    /// A component schema of the main document only; a cross-file link is a
    /// reference of the wrong form.
    LocalSchema,
}

/// The `components` key a kind reads.
pub open spec fn kind_key(k: ChainKind) -> Seq<char> {
    match k {
        ChainKind::Response => "responses"@,
        ChainKind::Parameter => "parameters"@,
        ChainKind::RequestBody => "requestBodies"@,
        ChainKind::Schema => "schemas"@,
        ChainKind::LocalSchema => "schemas"@,
    }
}

/// Why a link that names no component of the kind is refused.
pub open spec fn form_reason(k: ChainKind) -> Seq<char> {
    "only `#/components/"@ + kind_key(k) + "/<name>` references are supported"@
}

/// Why a cross-file schema link is refused.
pub open spec fn cross_file_reason() -> Seq<char> {
    "cross-file schema `$ref`s are not supported here"@
}

/// Whether a kind follows cross-file links, remembering the file each one reaches.
pub open spec fn follows_files(k: ChainKind) -> bool {
    k == ChainKind::Response || k == ChainKind::Parameter || k == ChainKind::RequestBody
}

/// The file a link at `current` reads from: a followed cross-file link moves
/// the chain to its file; any other link stays where the chain is.
pub open spec fn link_origin(k: ChainKind, current: Seq<char>, origin: Option<Seq<char>>) -> Option<Seq<char>> {
    if follows_files(k) {
        match file_part(current) {
            Some(f) => Some(f),
            None => origin,
        }
    } else {
        origin
    }
}

/// The component a link at `current` names, or why it is refused.
pub open spec fn link_name(k: ChainKind, current: Seq<char>) -> Result<Seq<char>, Seq<char>> {
    match k {
        ChainKind::Schema => if file_part(current) is Some {
            Err(cross_file_reason())
        } else {
            match component_name(current, "schemas"@) {
                Some(n) => Ok(n),
                None => Err(form_reason(k)),
            }
        },
        ChainKind::LocalSchema => match target_name(current) {
            Some(n) => Ok(n),
            None => Err(form_reason(k)),
        },
        _ => match component_name(current, kind_key(k)) {
            Some(n) => Ok(n),
            None => Err(form_reason(k)),
        },
    }
}

/// The state of a walk along a `$ref` chain.
#[derive(Debug, Clone)]
pub struct RefChain {
    /// What the chain resolves.
    pub kind: ChainKind,
    /// The reference the walk started from.
    pub reference: String,
    /// The link being resolved.
    pub current: String,
    /// The referenced file the walk reads from, or `None` for the main document.
    pub origin: Option<String>,
    /// How many links have been followed.
    pub depth: usize,
}

/// What a lookup of a link's component found.
#[derive(Debug, Clone)]
pub enum Found {
    /// No component of that name.
    Missing,
    /// The component itself.
    Item,
    /// A component that is a `$ref`, as written.
    Reference(String),
}

/// What the walk asks for next.
#[derive(Debug)]
pub enum ChainAction {
    /// Look up the component `name` in the file `origin` (`None`: the main document).
    Lookup {
        /// The referenced file to read, or `None` for the main document.
        origin: Option<String>,
        /// The component name.
        name: String,
    },
    /// The chain ended at a component read from `origin`.
    Resolved {
        /// The referenced file the component came from, or `None`.
        origin: Option<String>,
    },
    /// The chain cannot be resolved.
    Fail(Error),
}

/// The text of an optional string.
pub open spec fn opt_view(o: Option<String>) -> Option<Seq<char>> {
    match o {
        Some(s) => Some(s@),
        None => None,
    }
}

/// A walk starting at `reference`, reading from `origin` (`None`: the main
/// document). A local schema chain always reads the main document.
pub fn start(kind: ChainKind, reference: &str, origin: Option<String>) -> (c: RefChain)
    ensures
        c.kind == kind,
        c.reference@ == reference@,
        c.current@ == reference@,
        c.depth == 0,
        opt_view(c.origin) == (if kind == ChainKind::LocalSchema {
            None
        } else {
            opt_view(origin)
        }),
{
    let origin = if kind == ChainKind::LocalSchema {
        None
    } else {
        origin
    };
    RefChain { kind, reference: owned(reference), current: owned(reference), origin, depth: 0 }
}

/// A copy of an optional string.
fn copy_text(o: &Option<String>) -> (r: Option<String>)
    ensures
        opt_view(r) == opt_view(*o),
{
    match o {
        Some(s) => Some(s.clone()),
        None => None,
    }
}

/// The refusal of a link that names no component of the kind.
fn form_error(kind: ChainKind, current: &str) -> (e: Error)
    ensures
        e matches Error::UnsupportedRef { reference, reason } && reference@ == current@ && reason@ == form_reason(kind),
{
    let mut reason = owned("only `#/components/");
    let key = match kind {
        ChainKind::Response => "responses",
        ChainKind::Parameter => "parameters",
        ChainKind::RequestBody => "requestBodies",
        ChainKind::Schema => "schemas",
        ChainKind::LocalSchema => "schemas",
    };
    push_str(&mut reason, key);
    push_str(&mut reason, "/<name>` references are supported");
    Error::UnsupportedRef { reference: owned(current), reason }
}

/// The next step of a walk: look up the component the current link names, or
/// fail when the chain is too long or the link names no component of the kind.
/// A followed cross-file link moves the walk to its file first.
pub fn next_lookup(chain: &mut RefChain) -> (a: ChainAction)
    ensures
        final(chain).kind == old(chain).kind,
        final(chain).reference == old(chain).reference,
        final(chain).current == old(chain).current,
        final(chain).depth == old(chain).depth,
        old(chain).depth >= MAX_REF_DEPTH ==> opt_view(final(chain).origin) == opt_view(old(chain).origin) && (
        a matches ChainAction::Fail(Error::UnresolvedRef(r)) && r@ == old(chain).reference@),
        old(chain).depth < MAX_REF_DEPTH ==> opt_view(final(chain).origin) == link_origin(
            old(chain).kind,
            old(chain).current@,
            opt_view(old(chain).origin),
        ) && match link_name(old(chain).kind, old(chain).current@) {
            Ok(n) => a matches ChainAction::Lookup { origin, name } && opt_view(origin) == opt_view(
                final(chain).origin,
            ) && name@ == n,
            Err(reason) => a matches ChainAction::Fail(Error::UnsupportedRef { reference, reason: why })
                && reference@ == old(chain).current@ && why@ == reason,
        },
{
    if chain.depth >= MAX_REF_DEPTH {
        return ChainAction::Fail(Error::UnresolvedRef(chain.reference.clone()));
    }
    let kind = chain.kind;
    let follows = kind == ChainKind::Response || kind == ChainKind::Parameter || kind == ChainKind::RequestBody;
    if follows {
        match ref_file_part(chain.current.as_str()) {
            Some(f) => {
                chain.origin = Some(owned(f));
            },
            None => {},
        }
    }
    let name = match kind {
        ChainKind::Schema => {
            if ref_file_part(chain.current.as_str()).is_some() {
                return ChainAction::Fail(
                    Error::UnsupportedRef {
                        reference: chain.current.clone(),
                        reason: owned("cross-file schema `$ref`s are not supported here"),
                    },
                );
            }
            ref_component_name(chain.current.as_str(), "schemas")
        },
        ChainKind::LocalSchema => ref_target_name(chain.current.as_str()),
        ChainKind::Response => ref_component_name(chain.current.as_str(), "responses"),
        ChainKind::Parameter => ref_component_name(chain.current.as_str(), "parameters"),
        ChainKind::RequestBody => ref_component_name(chain.current.as_str(), "requestBodies"),
    };
    match name {
        Some(n) => ChainAction::Lookup { origin: copy_text(&chain.origin), name: owned(n) },
        None => ChainAction::Fail(form_error(kind, chain.current.as_str())),
    }
}

/// Take the answer to a lookup: a missing component fails with the link that
/// named it, a component ends the chain where the walk reads, and a `$ref`
/// becomes the next link.
pub fn take_answer(chain: &mut RefChain, found: Found) -> (a: Option<ChainAction>)
    ensures
        final(chain).kind == old(chain).kind,
        final(chain).reference == old(chain).reference,
        final(chain).origin == old(chain).origin,
        match found {
            Found::Missing => final(chain).current == old(chain).current && final(chain).depth == old(chain).depth
                && (a matches Some(ChainAction::Fail(Error::UnresolvedRef(r))) && r@ == old(chain).current@),
            Found::Item => final(chain).current == old(chain).current && final(chain).depth == old(chain).depth
                && (a matches Some(ChainAction::Resolved { origin }) && opt_view(origin) == opt_view(old(chain).origin)),
            Found::Reference(next) => a is None && final(chain).current@ == next@ && final(chain).depth == (if old(
                chain,
            ).depth < MAX_REF_DEPTH {
                old(chain).depth + 1
            } else {
                old(chain).depth as int
            }),
        },
{
    match found {
        Found::Missing => Some(ChainAction::Fail(Error::UnresolvedRef(chain.current.clone()))),
        Found::Item => Some(ChainAction::Resolved { origin: copy_text(&chain.origin) }),
        Found::Reference(next) => {
            chain.current = next;
            if chain.depth < MAX_REF_DEPTH {
                chain.depth = chain.depth + 1;
            }
            None
        },
    }
}

} // verus!
