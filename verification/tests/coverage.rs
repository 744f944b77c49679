use oapi_codegen::coverage::check;
use oapi_codegen::coverage::find_field;
use oapi_codegen::coverage::inspect_text;
use oapi_codegen::coverage::into_result;
use oapi_codegen::coverage::response_key;
use oapi_codegen::coverage::Context;
use oapi_codegen::coverage::Sweep;
use oapi_codegen::coverage::MAX_DEPTH;
use oapi_codegen::error::Error;
use oapi_codegen::yaml::Yaml;

fn inspect_yaml(yaml: &str) -> Sweep {
    return inspect_text("spec.yaml", yaml).expect("valid YAML");
}

#[test]
fn unknown_keys_are_rejected_in_nested_objects() {
    for yaml in [
        "inf: {}",
        "info: {titel: Demo}",
        "components: {schemas: {Widget: {type: string, const: x}}}",
        "paths: {/widgets: {get: {operationID: list}}}",
        "components: {schemas: {Widget: {properties: {name: {typo: string}}}}}",
        "components: {schemas: {Widget: {xml: {nam: widget}}}}",
        "components: {examples: {payload: {externalvalue: url}}}",
        "components: {securitySchemes: {auth: {flows: {password: {tokenURL: url}}}}}",
        "paths: {widgets: {}}",
        "paths: {/widgets: {get: {responses: {20X: {description: wrong}}}}}",
    ] {
        let sweep = inspect_yaml(yaml);
        assert!(!sweep.problems.is_empty(), "accepted {yaml}");
    }
}

#[test]
fn invalid_structures_and_schema_types_are_rejected() {
    for yaml in [
        "info: []",
        "components: {schemas: []}",
        "servers: {}",
        "components: {schemas: {Widget: {type: stirng}}}",
        "components: {schemas: {Widget: {type: 'null'}}}",
        "components: {schemas: {Widget: {$ref: 42, type: string}}}",
        "components: {schemas: {Widget: {xml: false}}}",
        "components: {schemas: {Widget: {items: true}}}",
        "components: {schemas: {Widget: {additionalProperties: []}}}",
    ] {
        assert!(!inspect_yaml(yaml).problems.is_empty(), "accepted {yaml}");
    }
    for value in ["true", "false", "{type: string}"] {
        let yaml = format!("components: {{schemas: {{Widget: {{type: object, additionalProperties: {value}}}}}}}");
        assert!(inspect_yaml(&yaml).problems.is_empty(), "{yaml}");
    }
}

#[test]
fn supported_shapes_and_documented_annotations_are_quiet() {
    let sweep = inspect_yaml(
        "
openapi: 3.0.3
info:
  title: Demo
  version: 1.0.0
  contact: {name: Support, url: 'https://example.com', email: support@example.com}
  license: {name: MIT, url: 'https://example.com/license'}
tags: [{name: widgets, externalDocs: {url: 'https://example.com/widgets'}}]
paths: {}
components:
  schemas:
    Widget:
      type: object
      title: A widget
      description: The model.
      required: [id]
      properties:
        id: {type: string, example: {arbitrary: true}}
",
    );
    assert!(sweep.problems.is_empty());
    assert!(sweep.warnings.is_empty(), "{:?}", sweep.warnings);
}

#[test]
fn header_flags_are_recognized_and_default_values_are_quiet() {
    for flag in [false, true] {
        let yaml = format!(
            "components: {{headers: {{X-Test: {{schema: {{type: string}}, allowEmptyValue: {flag}, allowReserved: {flag}}}}}}}"
        );
        let sweep = inspect_yaml(&yaml);
        assert!(sweep.problems.is_empty());
        assert_eq!(sweep.warnings.is_empty(), !flag);
    }
}

#[test]
fn deeply_nested_objects_stop_at_the_inspection_limit() {
    let mut value = Yaml::Mapping(Vec::new());
    for _ in 0..MAX_DEPTH + 1 {
        value = Yaml::Mapping(vec![(Yaml::String("items".to_owned()), value)]);
    }
    let mut sweep = inspect_yaml("{}");
    sweep.object(&value, Context::Schema, "/schema", 0);
    let error = into_result(sweep.problems).expect_err("nesting limit");
    assert!(error.message().contains("nesting exceeds"));
}

#[test]
fn literal_maps_and_user_names_are_not_spec_objects() {
    let sweep = inspect_yaml(
        "
components:
  schemas:
    x-model:
      type: object
      properties:
        const: {type: string}
      example: {const: arbitrary, typo: {anything: true}}
      default: {unevaluatedProperties: false}
      enum: [{other: {anything: true}}]
      discriminator: {propertyName: kind, mapping: {arbitrary: '#/components/schemas/x-model'}}
  examples:
    x-example: {value: {notAnOpenAPIKey: true}}
  links:
    next: {parameters: {arbitrary: '$response.body#/id'}, requestBody: {anything: true}}
  securitySchemes:
    auth:
      type: oauth2
      flows:
        password: {tokenUrl: /token, scopes: {arbitrary: description}}
security: [{arbitrary: [custom]}]
",
    );
    assert!(sweep.problems.is_empty());
    assert!(!sweep.warnings.iter().any(|warning| return warning.path.contains("typo")));
}

#[test]
fn unsupported_features_warn_and_their_children_are_still_checked() {
    let sweep = inspect_yaml(
        "paths: {/widgets: {get: {callbacks: {event: {'{$request.body#/url}': {post: {responses: {default: {description: ok}}}}}}}}}",
    );
    assert!(sweep.problems.is_empty());
    assert!(sweep.warnings.iter().any(|warning| return warning.path.ends_with("/callbacks")));
    let invalid =
        inspect_yaml("paths: {/widgets: {get: {callbacks: {event: {'{$request.body#/url}': {post: {typo: true}}}}}}}");
    assert!(!invalid.problems.is_empty());
}

#[test]
fn references_report_ignored_siblings() {
    let sweep =
        inspect_yaml("components: {schemas: {Widget: {$ref: '#/components/schemas/Other', description: ignored}}}");
    assert!(sweep.problems.is_empty());
    assert!(sweep.warnings.iter().any(|warning| return warning.message.contains("siblings")));
    let invalid = inspect_yaml("components: {schemas: {Widget: {$ref: '#/components/schemas/Other', requird: [id]}}}");
    assert!(!invalid.problems.is_empty());
}

#[test]
fn extensions_are_opaque_but_unhandled_extensions_warn() {
    let sweep = inspect_yaml(
        "x-vendor: {arbitrary: true}\nx-go-custom: true\ncomponents: {schemas: {Widget: {type: string, x-rust-type: 'String'}}}",
    );
    assert!(sweep.problems.is_empty());
    assert_eq!(sweep.warnings.len(), 1);
    assert_eq!(sweep.warnings.first().expect("warning").path, "/x-vendor");
}

#[test]
fn pointers_escape_property_and_path_names() {
    let sweep = inspect_yaml("paths: {'/a~b': {get: {typo: true}}}");
    let error = into_result(sweep.problems).expect_err("unknown key");
    assert!(matches!(error, Error::InvalidSpec { path, .. } if path == "/paths/~1a~0b/get/typo"));
}

#[test]
fn response_keys_allow_exact_codes_ranges_and_default() {
    for key in ["100", "200", "599", "2XX", "default"] {
        assert!(response_key(key), "{key}");
    }
    for key in ["20", "2000", "600", "2xx", "20X", "foo"] {
        assert!(!response_key(key), "{key}");
    }
    let sweep = inspect_yaml("paths: {/widgets: {get: {responses: {200: {description: ok}}}}}");
    assert!(sweep.problems.is_empty());
}

#[test]
fn nullable_wire_parameters_and_custom_allof_constraints_warn() {
    let report = inspect_yaml(
        "paths:
  /probe:
    get:
      parameters:
        - name: query
          in: query
          schema: {type: string, nullable: true}
      responses: {}
components:
  schemas:
    Custom:
      nullable: true
      x-rust-type: i64
      allOf:
        - {type: string, minLength: 2}",
    );
    assert!(report.warnings.iter().any(|warning| {
        return warning.message.contains("no supported null representation");
    }));
    assert!(report.warnings.iter().any(|warning| {
        return warning.message.contains("inherited through allOf");
    }));
    let json = inspect_yaml(
        "paths:
  /probe:
    post:
      requestBody:
        content:
          application/json:
            schema:
              type: object
              properties:
                headers:
                  type: array
                  items: {type: string, nullable: true}
      responses: {}",
    );
    assert!(!json.warnings.iter().any(|warning| {
        return warning.message.contains("no supported null representation");
    }));
}

#[test]
fn schema_limitations_other_than_nullable_defaults_warn() {
    for (schema, keyword) in [
        ("{type: number, enum: [1.5]}", "enum"),
        ("{type: string, format: custom}", "format"),
        ("{oneOf: [{type: string}, {type: integer}]}", "oneOf"),
        ("{anyOf: [{type: string}, {type: integer}]}", "anyOf"),
        ("{type: object, additionalProperties: false}", "additionalProperties"),
        ("{allOf: [{type: object, properties: {name: {type: string}}, additionalProperties: false}]}", "allOf"),
    ] {
        let yaml = format!("components: {{schemas: {{Widget: {schema}}}}}");
        let sweep = inspect_yaml(&yaml);
        assert!(sweep.problems.is_empty(), "{schema}");
        assert!(sweep.warnings.iter().any(|warning| return warning.path.ends_with(keyword)), "{schema}");
        if matches!(keyword, "oneOf" | "anyOf") {
            assert!(sweep.warnings.iter().any(|warning| {
                return warning.message.contains("Rust deserialization checks")
                    && warning.message.contains("can affect union match counts");
            }));
        }
    }
}

#[test]
fn a_nullable_value_at_a_schema_component_is_quiet() {
    let supported = inspect_yaml("components: {schemas: {Text: {type: string, nullable: true}}}");
    assert!(supported.warnings.is_empty());
}

#[test]
fn check_folds_several_problems_into_one_validation_error() {
    let text = "inf: {}\nservers: {}";
    let sweep = inspect_yaml(text);
    assert_eq!(sweep.problems.len(), 2);
    match into_result(sweep.problems) {
        Err(Error::Validation { problems }) => assert_eq!(problems.len(), 2),
        other => panic!("expected a validation error, got {other:?}"),
    }
    let (warnings, outcome) = check("spec.yaml", &Yaml::Mapping(vec![]));
    assert!(warnings.is_empty());
    assert!(outcome.is_ok());
}

#[test]
fn an_unknown_key_problem_names_the_document_and_pointer() {
    let sweep = inspect_yaml("info: {titel: Demo}");
    assert_eq!(sweep.problems.len(), 1);
    match &sweep.problems[0] {
        Error::InvalidSpec { document, path, .. } => {
            assert_eq!(document, "spec.yaml");
            assert_eq!(path, "/info/titel");
        },
        other => panic!("expected InvalidSpec, got {other:?}"),
    }
}

#[test]
fn the_field_table_knows_documented_keys_only() {
    assert!(find_field(Context::Info, "title").is_some());
    assert!(find_field(Context::Info, "titel").is_none());
    assert!(find_field(Context::Schema, "const").is_none());
    assert!(find_field(Context::Schema, "nullable").is_some());
}

#[test]
fn text_that_is_not_yaml_is_reported_as_the_parser_message() {
    assert!(inspect_text("spec.yaml", "paths: {unclosed").is_err());
}

#[test]
fn a_nullable_schema_the_typed_parser_rejects_gets_no_wire_warning() {
    let report = inspect_yaml(
        "paths:
  /probe:
    get:
      parameters:
        - name: query
          in: query
          schema: {type: string, nullable: true, minLength: many}
      responses: {}",
    );
    assert!(!report.warnings.iter().any(|warning| {
        return warning.message.contains("no supported null representation");
    }));
    let parsed = inspect_yaml(
        "paths:
  /probe:
    get:
      parameters:
        - name: query
          in: query
          schema: {type: string, nullable: true, minLength: 2}
      responses: {}",
    );
    assert!(parsed.warnings.iter().any(|warning| {
        return warning.message.contains("no supported null representation");
    }));
}

fn text(s: &str) -> Yaml {
    return Yaml::String(s.to_owned());
}

fn map(entries: Vec<(&str, Yaml)>) -> Yaml {
    return Yaml::Mapping(entries.into_iter().map(|(k, v)| return (text(k), v)).collect());
}

#[test]
fn a_value_under_an_empty_tag_text_is_read_as_the_value_itself() {
    let schema = map(vec![
        ("type", text("string")),
        ("nullable", Yaml::Bool(true)),
        ("minLength", Yaml::Tagged(String::new(), Box::new(Yaml::Number("2".to_owned())))),
    ]);
    let parameter = map(vec![("name", text("query")), ("in", text("query")), ("schema", schema)]);
    let get = map(vec![("parameters", Yaml::Sequence(vec![parameter])), ("responses", map(vec![]))]);
    let document = map(vec![("paths", map(vec![("/probe", map(vec![("get", get)]))]))]);
    let report = oapi_codegen::coverage::inspect("spec.yaml", &document);
    assert!(report.warnings.iter().any(|warning| {
        return warning.message.contains("no supported null representation");
    }));
}

#[test]
fn the_field_found_is_the_one_named_by_the_key() {
    for (context, key) in [(Context::Document, "openapi"), (Context::Schema, "nullable"), (Context::Parameter, "in")] {
        assert_eq!(find_field(context, key).expect("a documented key").name, key);
    }
    assert!(find_field(Context::Document, "nullable").is_none());
}
