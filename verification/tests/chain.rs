use oapi_codegen::error::Error;
use oapi_codegen::loader::chain::next_lookup;
use oapi_codegen::loader::chain::start;
use oapi_codegen::loader::chain::take_answer;
use oapi_codegen::loader::chain::ChainAction;
use oapi_codegen::loader::chain::ChainKind;
use oapi_codegen::loader::chain::Found;
use oapi_codegen::loader::chain::MAX_REF_DEPTH;

/// One component of a document: the file (`None`: the main document), the
/// component name, and what it holds (`None`: the component itself, or the
/// `$ref` it is).
type Component = (Option<&'static str>, &'static str, Option<&'static str>);

/// Walk a chain against in-memory documents, counting the lookups made.
fn walk(kind: ChainKind, reference: &str, origin: Option<&str>, docs: &[Component]) -> (Result<Option<String>, Error>, usize) {
    let mut chain = start(kind, reference, origin.map(|o| return o.to_owned()));
    let mut lookups = 0;
    loop {
        match next_lookup(&mut chain) {
            ChainAction::Lookup { origin, name } => {
                lookups += 1;
                let found = match docs.iter().find(|(file, n, _)| return *file == origin.as_deref() && *n == name) {
                    None => Found::Missing,
                    Some((_, _, None)) => Found::Item,
                    Some((_, _, Some(next))) => Found::Reference((*next).to_owned()),
                };
                match take_answer(&mut chain, found) {
                    Some(ChainAction::Resolved { origin }) => return (Ok(origin), lookups),
                    Some(ChainAction::Fail(e)) => return (Err(e), lookups),
                    Some(ChainAction::Lookup { .. }) => panic!("an answer never asks for a lookup"),
                    None => {},
                }
            },
            ChainAction::Resolved { origin } => return (Ok(origin), lookups),
            ChainAction::Fail(e) => return (Err(e), lookups),
        }
    }
}

#[test]
fn resolves_same_document_component_parameter() {
    let docs = [(None, "PageSize", None)];
    let (result, _) = walk(ChainKind::Parameter, "#/components/parameters/PageSize", None, &docs);
    assert_eq!(result.expect("resolve"), None);
}

#[test]
fn unresolved_component_error_preserves_the_full_reference() {
    let (result, _) = walk(ChainKind::Parameter, "#/components/parameters/Missing", None, &[]);
    match result {
        Err(Error::UnresolvedRef(reference)) => assert_eq!(reference, "#/components/parameters/Missing"),
        other => panic!("expected UnresolvedRef, got {other:?}"),
    }
    let docs = [(Some("shared.yaml"), "Other", None)];
    let (result, _) = walk(ChainKind::Parameter, "shared.yaml#/components/parameters/Missing", None, &docs);
    match result {
        Err(Error::UnresolvedRef(reference)) => assert_eq!(reference, "shared.yaml#/components/parameters/Missing"),
        other => panic!("expected UnresolvedRef, got {other:?}"),
    }
}

#[test]
fn cross_file_chain_across_two_files_resolves() {
    let docs = [
        (Some("a.yaml"), "X", Some("b.yaml#/components/parameters/Y")),
        (Some("b.yaml"), "Y", None),
    ];
    let (result, lookups) = walk(ChainKind::Parameter, "a.yaml#/components/parameters/X", None, &docs);
    assert_eq!(result.expect("resolve cross-file chain").as_deref(), Some("b.yaml"));
    assert_eq!(lookups, 2);
}

#[test]
fn cross_file_cycle_terminates() {
    let docs = [
        (Some("a.yaml"), "X", Some("b.yaml#/components/parameters/Y")),
        (Some("b.yaml"), "Y", Some("a.yaml#/components/parameters/X")),
    ];
    let (result, lookups) = walk(ChainKind::Parameter, "a.yaml#/components/parameters/X", None, &docs);
    match result {
        Err(Error::UnresolvedRef(reference)) => assert_eq!(reference, "a.yaml#/components/parameters/X"),
        other => panic!("expected UnresolvedRef, got {other:?}"),
    }
    assert_eq!(lookups, MAX_REF_DEPTH);
}

#[test]
fn resolve_schema_against_origin() {
    let docs = [(Some("shared.yaml"), "PageInfo", None)];
    let (result, _) = walk(ChainKind::Schema, "#/components/schemas/PageInfo", Some("shared.yaml"), &docs);
    assert_eq!(result.expect("resolve schema from origin").as_deref(), Some("shared.yaml"));
}

#[test]
fn a_same_file_link_keeps_the_file_the_chain_reached() {
    let docs = [
        (Some("a.yaml"), "X", Some("#/components/responses/Y")),
        (Some("a.yaml"), "Y", None),
    ];
    let (result, _) = walk(ChainKind::Response, "a.yaml#/components/responses/X", None, &docs);
    assert_eq!(result.expect("resolve").as_deref(), Some("a.yaml"));
}

#[test]
fn a_cross_file_schema_link_is_refused() {
    let (result, lookups) = walk(ChainKind::Schema, "other.yaml#/components/schemas/X", None, &[]);
    match result {
        Err(Error::UnsupportedRef { reference, reason }) => {
            assert_eq!(reference, "other.yaml#/components/schemas/X");
            assert_eq!(reason, "cross-file schema `$ref`s are not supported here");
        },
        other => panic!("expected UnsupportedRef, got {other:?}"),
    }
    assert_eq!(lookups, 0);
}

#[test]
fn a_link_of_the_wrong_form_names_the_form() {
    let (result, _) = walk(ChainKind::LocalSchema, "other.yaml#/components/schemas/X", Some("ignored.yaml"), &[]);
    match result {
        Err(Error::UnsupportedRef { reason, .. }) => {
            assert_eq!(reason, "only `#/components/schemas/<name>` references are supported");
        },
        other => panic!("expected UnsupportedRef, got {other:?}"),
    }
    let docs = [(None, "X", Some("#/components/schemas/Y"))];
    let (result, _) = walk(ChainKind::RequestBody, "#/components/requestBodies/X", None, &docs);
    match result {
        Err(Error::UnsupportedRef { reference, reason }) => {
            assert_eq!(reference, "#/components/schemas/Y");
            assert_eq!(reason, "only `#/components/requestBodies/<name>` references are supported");
        },
        other => panic!("expected UnsupportedRef, got {other:?}"),
    }
}

#[test]
fn a_local_schema_chain_reads_the_main_document() {
    let docs = [(None, "A", Some("#/components/schemas/B")), (None, "B", None)];
    let (result, lookups) = walk(ChainKind::LocalSchema, "#/components/schemas/A", Some("elsewhere.yaml"), &docs);
    assert_eq!(result.expect("resolve"), None);
    assert_eq!(lookups, 2);
}
