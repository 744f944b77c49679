use oapi_codegen::config::Generate;
use oapi_codegen::console::count;
use oapi_codegen::console::empty_output_hints;
use oapi_codegen::console::hints_for;
use oapi_codegen::console::io_read_hints;
use oapi_codegen::console::is_effectively_empty;
use oapi_codegen::console::parse_spec_hints;
use oapi_codegen::console::SpecStats;
use oapi_codegen::error::Error;
use oapi_codegen::error::IoErrorKind;

#[test]
fn empty_detects_header_and_comment_only_output() {
    assert!(is_effectively_empty(""));
    assert!(is_effectively_empty(oapi_codegen::emit::HEADER));
    assert!(is_effectively_empty("  // leading whitespace comment\n\n"));
}

#[test]
fn non_empty_output_has_items() {
    assert!(!is_effectively_empty("// header\n\npub struct Foo;\n"));
}

#[test]
fn empty_detects_the_real_header_followed_by_an_item() {
    let code = format!("{}pub struct Foo;\n", oapi_codegen::emit::HEADER);
    assert!(!is_effectively_empty(&code));
}

#[test]
fn count_pluralizes_on_zero_and_many_but_not_one() {
    assert_eq!(count("schema", 0), "0 schemas");
    assert_eq!(count("schema", 1), "1 schema");
    assert_eq!(count("path", 3), "3 paths");
}

#[test]
fn empty_hints_call_out_missing_models() {
    let stats = SpecStats { schemas: 0, paths: 0, servers: 0 };
    let generate = Generate { models: true, ..Default::default() };
    let hints = empty_output_hints(&stats, &generate);
    assert!(hints.iter().any(|h| return h.contains("components.schemas")));
}

#[test]
fn empty_hints_call_out_missing_paths_for_service() {
    let stats = SpecStats { schemas: 0, paths: 0, servers: 0 };
    let generate = Generate { std_http_server: true, ..Default::default() };
    let hints = empty_output_hints(&stats, &generate);
    assert!(hints.iter().any(|h| return h.contains("no paths")));
}

#[test]
fn empty_hints_call_out_missing_servers_for_server_urls() {
    let stats = SpecStats { schemas: 0, paths: 0, servers: 0 };
    let generate = Generate { server_urls: true, ..Default::default() };
    let hints = empty_output_hints(&stats, &generate);
    assert!(hints.iter().any(|h| return h.contains("servers:")));
}

#[test]
fn empty_hints_fall_back_to_filtering_when_nothing_matches() {
    let stats = SpecStats { schemas: 5, paths: 5, servers: 0 };
    let generate = Generate { models: true, ..Default::default() };
    let hints = empty_output_hints(&stats, &generate);
    assert!(hints.iter().any(|h| return h.contains("filtered out")));
}

#[test]
fn parse_spec_hint_recognizes_non_openapi_documents() {
    let hints = parse_spec_hints("missing field `openapi` at line 1 column 1");
    assert!(hints.iter().any(|h| return h.contains("does not look like an OpenAPI 3 document")));
}

#[test]
fn read_hints_name_the_file_kind_one_time() {
    for (what, expected) in [
        ("spec file", "No spec file exists at `x.yaml`"),
        ("config file", "No config file exists at `x.yaml`"),
        ("referenced file", "No referenced file exists at `x.yaml`"),
    ] {
        let hints = io_read_hints(what, "x.yaml", IoErrorKind::NotFound);
        assert!(
            hints.iter().any(|hint| return hint.starts_with(expected)),
            "hint for `{what}` should start with `{expected}`, got: {hints:?}",
        );
    }
}

#[test]
fn invalid_path_parameter_hint_guides_the_fix() {
    let err = Error::InvalidPathParameter {
        method: "get".to_owned(),
        path: "/dashboard".to_owned(),
        name: "tz".to_owned(),
    };
    let hints = hints_for(&err);
    assert!(
        hints.iter().any(|h| return h.contains("{tz}") && h.contains("query")),
        "hint should suggest adding the placeholder or changing `in:`, got: {hints:?}",
    );
}

#[test]
fn each_constraint_fault_reaches_its_own_hint() {
    let cases = [
        ("the `multipleOf` value `0` is not above zero", "divides by zero"),
        ("the `multipleOf` value `5000000000` does not fit `i32`", "-2147483648"),
        ("the `minimum` value `-5000000000` does not fit `i32`", "-2147483648"),
        ("the `pattern` rule does not reach the type this field holds", "Drop the `format`"),
        ("the `minProperties` rule does not reach the type this field holds", "free-form map"),
        ("the `uniqueItems` rule does not reach the type this field holds", "numbers, strings, or booleans"),
        ("the `enum` gives `1` more than once", "names each value once"),
        ("the union holds `Cat` twice, as `Cat` and as `Cat2`", "Remove the repeated member"),
        ("the union holds `enum` twice, as `Enum` and as `Enum2`", "Remove the repeated member"),
    ];
    for (reason, wanted) in cases {
        let err = Error::UnsupportedSchema { path: "field".to_owned(), reason: reason.to_owned() };
        let hints = hints_for(&err);
        assert!(
            hints.iter().any(|hint| return hint.contains(wanted)),
            "`{reason}` should reach a hint holding `{wanted}`, got: {hints:?}",
        );
    }
}

#[test]
fn undeclared_path_parameter_hint_guides_the_fix() {
    let err = Error::UndeclaredPathParameter {
        method: "get".to_owned(),
        path: "/widgets/{id}".to_owned(),
        name: "id".to_owned(),
    };
    let hints = hints_for(&err);
    assert!(
        hints.iter().any(|h| return h.contains("in: path") && h.contains("{id}")),
        "hint should suggest declaring the parameter or removing the placeholder, got: {hints:?}",
    );
}

#[test]
fn count_of_a_large_number_keeps_every_digit() {
    assert_eq!(count("path", 1207), "1207 paths");
}

#[test]
fn whitespace_only_output_is_empty_but_an_attribute_alone_is_not_an_item() {
    assert!(is_effectively_empty(" \t\n\r\n"));
    assert!(!is_effectively_empty("#![allow(dead_code)]\n"));
    assert!(!is_effectively_empty("#[derive(Debug)]\npub struct Foo;\n"));
}
