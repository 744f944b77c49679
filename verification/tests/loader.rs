use oapi_codegen::error::Error;
use oapi_codegen::loader::check_spec_version;
use oapi_codegen::loader::check_top_level_keys;
use oapi_codegen::loader::ref_component_name;
use oapi_codegen::loader::ref_file_part;
use oapi_codegen::loader::ref_target_name;
use oapi_codegen::loader::schema_ref_reason;
use oapi_codegen::loader::trimmed;
use oapi_codegen::yaml::Yaml;

fn mapping(entries: Vec<(&str, Yaml)>) -> Yaml {
    return Yaml::Mapping(entries.into_iter().map(|(k, v)| return (Yaml::String(k.to_owned()), v)).collect());
}

#[test]
fn ref_target_name_is_same_document_schemas_only() {
    assert_eq!(ref_target_name("#/components/schemas/Foo"), Some("Foo"));
    assert_eq!(ref_target_name("schemas/common.yaml#/components/schemas/ErrorResponse"), None);
    assert_eq!(ref_target_name("#/components/responses/Bar"), None);
}

#[test]
fn a_schema_ref_reason_names_the_fault() {
    assert_eq!(
        schema_ref_reason("common.yaml#/components/schemas/X", "a property"),
        "a cross-file ref does not resolve at a property"
    );
    assert_eq!(
        schema_ref_reason("#/components/responses/Bar", "a property"),
        "a property must reference `#/components/schemas/<name>`"
    );
}

#[test]
fn extracts_component_responses_and_file_parts() {
    assert_eq!(ref_component_name("#/components/responses/Bar", "responses"), Some("Bar"));
    assert_eq!(ref_component_name("#/components/schemas/Foo", "responses"), None);
    assert_eq!(ref_file_part("#/components/schemas/Foo"), None);
    assert_eq!(ref_file_part("schemas/common.yaml#/components/schemas/ErrorResponse"), Some("schemas/common.yaml"));
}

#[test]
fn ref_component_name_recognizes_parameters_and_request_bodies() {
    assert_eq!(ref_component_name("#/components/parameters/PageSize", "parameters"), Some("PageSize"));
    assert_eq!(ref_component_name("#/components/requestBodies/CreateWidget", "requestBodies"), Some("CreateWidget"));
    assert_eq!(ref_component_name("#/components/schemas/Foo", "parameters"), None);
}

#[test]
fn a_nested_or_empty_component_name_is_no_name() {
    assert_eq!(ref_component_name("#/components/schemas/", "schemas"), None);
    assert_eq!(ref_component_name("#/components/schemas/Foo/bar", "schemas"), None);
    assert_eq!(ref_component_name("#/components/schemas/Foo", "headers"), None);
    assert_eq!(ref_component_name("shared.yaml#/components/schemas/Foo", "schemas"), Some("Foo"));
}

#[test]
fn trimmed_removes_white_space_at_both_ends() {
    assert_eq!(trimmed("  3.0.3 \n"), "3.0.3");
    assert_eq!(trimmed(" \t "), "");
    assert_eq!(trimmed("a b"), "a b");
}

#[test]
fn spec_version_accepts_three_zero_releases_only() {
    for accepted in ["3.0", "3.0.0", "3.0.3", " 3.0.1 "] {
        let doc = mapping(vec![("openapi", Yaml::String(accepted.to_owned()))]);
        assert!(check_spec_version("api.yaml", &doc).is_ok(), "{accepted}");
    }
    let doc = mapping(vec![("openapi", Yaml::String(" 3.1.0 ".to_owned()))]);
    match check_spec_version("api.yaml", &doc) {
        Err(Error::UnsupportedSpecVersion { document, version, hint }) => {
            assert_eq!(document, "api.yaml");
            assert_eq!(version, "3.1.0");
            assert_eq!(hint, "The generator reads OpenAPI 3.0.x only.");
        },
        other => panic!("expected UnsupportedSpecVersion, got {other:?}"),
    }
    let doc = mapping(vec![("openapi", Yaml::String("3.00".to_owned()))]);
    assert!(check_spec_version("api.yaml", &doc).is_err());
}

#[test]
fn spec_version_leaves_a_missing_or_non_string_version_to_the_parser() {
    assert!(check_spec_version("api.yaml", &mapping(vec![])).is_ok());
    let doc = mapping(vec![("openapi", Yaml::Number("3.1".to_owned()))]);
    assert!(check_spec_version("api.yaml", &doc).is_ok());
    assert!(check_spec_version("api.yaml", &Yaml::Null).is_ok());
}

#[test]
fn webhooks_are_rejected_at_the_top_level() {
    let doc = mapping(vec![("openapi", Yaml::String("3.0.3".to_owned())), ("webhooks", mapping(vec![]))]);
    match check_top_level_keys(&doc) {
        Err(Error::UnsupportedSpecKey { key, reason, .. }) => {
            assert_eq!(key, "webhooks");
            assert_eq!(reason, "declares operations the generator cannot emit");
        },
        other => panic!("expected UnsupportedSpecKey, got {other:?}"),
    }
    let doc = mapping(vec![("openapi", Yaml::String("3.0.3".to_owned())), ("paths", mapping(vec![]))]);
    assert!(check_top_level_keys(&doc).is_ok());
    assert!(check_top_level_keys(&Yaml::Sequence(vec![])).is_ok());
}

#[test]
fn a_document_that_fails_a_gate_is_not_swept() {
    let doc = mapping(vec![("openapi", Yaml::String("3.1.0".to_owned())), ("inf", mapping(vec![]))]);
    let (warnings, result) = oapi_codegen::loader::check_document("api.yaml", &doc);
    assert!(warnings.is_empty());
    assert!(matches!(result, Err(Error::UnsupportedSpecVersion { .. })));
    let doc = mapping(vec![("openapi", Yaml::String("3.0.3".to_owned())), ("webhooks", mapping(vec![]))]);
    let (warnings, result) = oapi_codegen::loader::check_document("api.yaml", &doc);
    assert!(warnings.is_empty());
    assert!(matches!(result, Err(Error::UnsupportedSpecKey { .. })));
}

#[test]
fn a_document_that_passes_the_gates_is_swept() {
    let doc = mapping(vec![
        ("openapi", Yaml::String("3.0.3".to_owned())),
        ("x-vendor", Yaml::Bool(true)),
        ("inf", mapping(vec![])),
    ]);
    let (warnings, result) = oapi_codegen::loader::check_document("api.yaml", &doc);
    assert_eq!(warnings.len(), 1);
    assert_eq!(warnings[0].path, "/x-vendor");
    match result {
        Err(Error::InvalidSpec { document, path, .. }) => {
            assert_eq!(document, "api.yaml");
            assert_eq!(path, "/inf");
        },
        other => panic!("expected InvalidSpec, got {other:?}"),
    }
}
