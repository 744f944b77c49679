use oapi_codegen::config::OutputOptions;
use oapi_codegen::error::Error;
use oapi_codegen::error::IoErrorKind;
use oapi_codegen::error::IoFailure;
use oapi_codegen::filter::exclude_schemas;
use oapi_codegen::filter::filter_operations;
use oapi_codegen::filter::is_filtered_out;
use oapi_codegen::filter::operation_dropped;
use oapi_codegen::filter::OperationInfo;
use oapi_codegen::ir::ForeignDerives;
use oapi_codegen::ir::RustType;
use oapi_codegen::naming::to_ident;
use oapi_codegen::naming::Case;

fn strings(values: &[&str]) -> Vec<String> {
    return values.iter().map(|v| return (*v).to_owned()).collect();
}

fn op(tags: &[&str], id: Option<&str>) -> OperationInfo {
    return OperationInfo { tags: strings(tags), operation_id: id.map(|i| return i.to_owned()) };
}

#[test]
fn each_error_states_its_problem_in_one_line() {
    let invalid = Error::InvalidSpec { document: "api.yaml".to_owned(), path: "/info/titel".to_owned(), reason: "unknown key".to_owned() };
    assert_eq!(invalid.message(), "api.yaml#/info/titel: unknown key");
    let read = Error::ReadOutput {
        path: "out.rs".to_owned(),
        source: IoFailure { kind: IoErrorKind::PermissionDenied, message: "Permission denied (os error 13)".to_owned() },
    };
    assert_eq!(read.message(), "failed to read output `out.rs`: Permission denied (os error 13)");
    assert_eq!(Error::UnresolvedRef("#/components/schemas/X".to_owned()).message(), "unresolved reference `#/components/schemas/X`");
    assert_eq!(Error::Unimplemented("embedded-spec".to_owned()).message(), "embedded-spec generation is not implemented yet");
    assert_eq!(
        Error::SchemaDepthExceeded { path: "/components/schemas/A".to_owned(), limit: 64 }.message(),
        "schema at `/components/schemas/A` nests deeper than the supported limit of 64"
    );
    assert_eq!(
        Error::InvalidPathParameter { method: "get".to_owned(), path: "/dashboard".to_owned(), name: "tz".to_owned() }.message(),
        "path parameter `tz` on `get /dashboard` is declared `in: path` but the path template has no `{tz}` placeholder"
    );
}

#[test]
fn a_validation_error_lists_every_problem_in_order() {
    let err = Error::Validation {
        problems: vec![Error::UnresolvedRef("a".to_owned()), Error::UnresolvedRef("b".to_owned())],
    };
    assert_eq!(
        err.message(),
        "found 2 problems in the spec:\n  - unresolved reference `a`\n  - unresolved reference `b`"
    );
}

#[test]
fn exclusion_wins_and_inclusion_narrows() {
    let mut opts = OutputOptions::default();
    assert!(!operation_dropped(&op(&["pets"], Some("listPets")), &opts));
    opts.include_tags = strings(&["pets"]);
    assert!(!is_filtered_out(&op(&["pets"], None), &opts));
    assert!(is_filtered_out(&op(&["stores"], None), &opts));
    assert!(is_filtered_out(&op(&[], None), &opts));
    opts.exclude_tags = strings(&["internal"]);
    assert!(is_filtered_out(&op(&["pets", "internal"], None), &opts));
    let mut ids = OutputOptions::default();
    ids.include_operation_ids = strings(&["listPets"]);
    assert!(!is_filtered_out(&op(&[], Some("listPets")), &ids));
    assert!(is_filtered_out(&op(&[], Some("getPet")), &ids));
    assert!(is_filtered_out(&op(&[], None), &ids), "an operation with no id is not an included id");
    ids.exclude_operation_ids = strings(&["listPets"]);
    assert!(is_filtered_out(&op(&[], Some("listPets")), &ids));
}

#[test]
fn filtering_empties_only_the_dropped_slots() {
    let mut opts = OutputOptions::default();
    opts.exclude_tags = strings(&["internal"]);
    let mut slots = vec![Some(op(&["pets"], None)), None, Some(op(&["internal"], None))];
    filter_operations(&mut slots, &opts);
    assert_eq!(slots.len(), 3);
    assert!(slots[0].is_some());
    assert!(slots[1].is_none());
    assert!(slots[2].is_none());
    let mut untouched = vec![Some(op(&["internal"], None))];
    filter_operations(&mut untouched, &OutputOptions::default());
    assert!(untouched[0].is_some(), "no filter drops nothing");
}

#[test]
fn excluded_schemas_leave_and_the_rest_keep_their_order() {
    let mut names = strings(&["Pet", "Internal", "Store", "Secret"]);
    exclude_schemas(&mut names, &strings(&["Secret", "Internal", "Absent"]));
    assert_eq!(names, strings(&["Pet", "Store"]));
    let mut all = strings(&["A", "B"]);
    exclude_schemas(&mut all, &Vec::new());
    assert_eq!(all, strings(&["A", "B"]));
}

#[test]
fn type_helpers_read_through_wrappers() {
    let ty = RustType::Vec(Box::new(RustType::Named("Pet".to_owned()))).optional();
    assert!(ty.is_option());
    assert_eq!(ty.label(), "Option<Vec<Pet>>");
    assert_eq!(*ty.innermost(), RustType::Vec(Box::new(RustType::Named("Pet".to_owned()))));
    assert!(RustType::Boxed(Box::new(RustType::I64)).innermost().is_scalar());
    assert!(!RustType::Uuid.is_scalar());
    assert_eq!(RustType::HashMap(Box::new(RustType::String)).label(), "std::collections::HashMap<String, String>");
    match RustType::verbatim("crate::Opaque") {
        RustType::Verbatim { text, derives } => {
            assert_eq!(text, "crate::Opaque");
            assert_eq!(derives, ForeignDerives { debug: true, clone: true, partial_eq: true });
        },
        other => panic!("expected a verbatim type, got {other:?}"),
    }
}

#[test]
fn foreign_derives_intersect_trait_by_trait() {
    let a = ForeignDerives { debug: true, clone: false, partial_eq: true };
    let b = ForeignDerives { debug: true, clone: true, partial_eq: false };
    assert_eq!(a.intersect(b), ForeignDerives { debug: true, clone: false, partial_eq: false });
    assert_eq!(a.intersect(b), b.intersect(a));
    assert!(ForeignDerives::all().is_unconstrained());
    assert!(!a.is_unconstrained());
}

#[test]
fn identifiers_take_the_requested_case() {
    assert_eq!(to_ident("floor_heating", Case::Pascal).logical(), "FloorHeating");
    assert_eq!(to_ident("response", Case::Pascal).logical(), "Response");
    assert_eq!(to_ident("getThing", Case::Snake).logical(), "get_thing");
}
