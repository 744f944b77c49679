use oapi_codegen::emit::axum::method_doc_lines;
use oapi_codegen::emit::axum::requirement_line;
use oapi_codegen::emit::axum::route_groups;
use oapi_codegen::emit::constraints::check_pattern;
use oapi_codegen::emit::constraints::is_checked;
use oapi_codegen::emit::constraints::rules;
use oapi_codegen::emit::constraints::type_limits;
use oapi_codegen::emit::constraints::Rule;
use oapi_codegen::emit::reqwest::check_client_operations;
use oapi_codegen::emit::reqwest::ensure_supported;
use oapi_codegen::emit::reqwest::uses_path_parameters;
use oapi_codegen::emit::reqwest::url_format;
use oapi_codegen::emit::scheme_index;
use oapi_codegen::error::Error;
use oapi_codegen::ir::Bound;
use oapi_codegen::ir::Constraints;
use oapi_codegen::ir::Field;
use oapi_codegen::ir::Operation;
use oapi_codegen::ir::Param;
use oapi_codegen::ir::Service;
use oapi_codegen::ir::RustType;
use oapi_codegen::ir::SecurityScheme;
use oapi_codegen::ir::SecuritySchemeKind;
use oapi_codegen::naming::to_ident;
use oapi_codegen::naming::Case;

fn scheme(key: &str, kind: SecuritySchemeKind) -> SecurityScheme {
    return SecurityScheme { key: key.to_owned(), field: to_ident(key, Case::Snake), kind, doc: None };
}

fn operation(security: Vec<&str>, doc: Option<&str>) -> Operation {
    return Operation {
        name: to_ident("list_widgets", Case::Snake),
        response_enum: to_ident("ListWidgetsResponse", Case::Pascal),
        doc: doc.map(|d| return d.to_owned()),
        method: "get".to_owned(),
        path: "/widgets".to_owned(),
        path_params: Vec::new(),
        query: None,
        headers: None,
        cookies: None,
        request: None,
        responses: Vec::new(),
        security: security.into_iter().map(|s| return s.to_owned()).collect(),
    };
}

#[test]
fn every_scheme_kind_says_where_the_credential_sits() {
    let schemes = vec![
        scheme("bearerAuth", SecuritySchemeKind::HttpBearer),
        scheme("basicAuth", SecuritySchemeKind::HttpBasic),
        scheme("headerKey", SecuritySchemeKind::ApiKeyHeader("X-API-Key".to_owned())),
        scheme("queryKey", SecuritySchemeKind::ApiKeyQuery("api_key".to_owned())),
        scheme("cookieKey", SecuritySchemeKind::ApiKeyCookie("SESSION".to_owned())),
    ];
    let cases = [
        ("bearerAuth", "`bearerAuth`: a bearer token in the `Authorization` header"),
        ("basicAuth", "`basicAuth`: basic credentials in the `Authorization` header"),
        ("headerKey", "`headerKey`: an API key in the `X-API-Key` header"),
        ("queryKey", "`queryKey`: an API key in the `api_key` query parameter"),
        ("cookieKey", "`cookieKey`: an API key in the `SESSION` cookie"),
    ];
    for (key, expected) in cases {
        assert_eq!(requirement_line(key, &schemes), expected);
    }
}

#[test]
fn an_undeclared_scheme_is_still_named() {
    let line = requirement_line("ghost", &vec![]);
    assert_eq!(line, "`ghost`, which `components.securitySchemes` does not declare");
}

#[test]
fn an_unsupported_scheme_drops_the_client_side_reason() {
    let schemes = vec![scheme("oauth2", SecuritySchemeKind::Unsupported("the client cannot send this".to_owned()))];
    let line = requirement_line("oauth2", &schemes);
    assert_eq!(line, "`oauth2`, a scheme this generator has no built-in support for");
}

#[test]
fn the_first_scheme_with_a_key_is_the_one_found() {
    let schemes = vec![
        scheme("a", SecuritySchemeKind::HttpBasic),
        scheme("b", SecuritySchemeKind::HttpBearer),
        scheme("b", SecuritySchemeKind::HttpBasic),
    ];
    assert_eq!(scheme_index(&schemes, "b"), Some(1));
    assert_eq!(scheme_index(&schemes, "c"), None);
}

#[test]
fn a_public_operation_doc_is_its_own_doc_alone() {
    assert_eq!(method_doc_lines(&operation(vec![], Some("List widgets.")), &vec![]), vec!["List widgets."]);
    assert!(method_doc_lines(&operation(vec![], None), &vec![]).is_empty());
}

#[test]
fn a_protected_operation_doc_lists_its_schemes() {
    let schemes = vec![scheme("bearerAuth", SecuritySchemeKind::HttpBearer)];
    let lines = method_doc_lines(&operation(vec!["bearerAuth"], Some("List widgets.")), &schemes);
    assert_eq!(lines[0], "List widgets.");
    assert_eq!(lines[1], "");
    assert_eq!(lines[2], "# Security");
    assert!(lines.contains(&"- `bearerAuth`: a bearer token in the `Authorization` header".to_owned()));
    assert!(!lines.iter().any(|l| return l.contains("union of every alternative")));
    assert!(lines.last().expect("a closing line").starts_with("This generator emits no check."));
}

#[test]
fn several_schemes_are_called_a_union_of_alternatives() {
    let schemes = vec![scheme("a", SecuritySchemeKind::HttpBasic), scheme("b", SecuritySchemeKind::HttpBearer)];
    let lines = method_doc_lines(&operation(vec!["a", "b"], None), &schemes);
    assert_eq!(lines[0], "# Security");
    assert!(lines.iter().any(|l| return l.contains("union of every alternative")));
}

#[test]
fn the_client_rejects_an_undeclared_scheme() {
    match ensure_supported(&operation(vec!["ghost"], None), &vec![]) {
        Err(Error::UnsupportedOperation { method, path, reason }) => {
            assert_eq!(method, "get");
            assert_eq!(path, "/widgets");
            assert_eq!(reason, "requires security scheme `ghost`, which is not declared in `components.securitySchemes`");
        },
        other => panic!("expected UnsupportedOperation, got {other:?}"),
    }
}

#[test]
fn the_client_rejects_an_unsupported_scheme_with_its_reason() {
    let schemes = vec![
        scheme("ok", SecuritySchemeKind::HttpBearer),
        scheme("oauth2", SecuritySchemeKind::Unsupported("oauth2 flows are not supported".to_owned())),
    ];
    match ensure_supported(&operation(vec!["ok", "oauth2"], None), &schemes) {
        Err(Error::UnsupportedOperation { reason, .. }) => assert_eq!(reason, "oauth2 flows are not supported"),
        other => panic!("expected UnsupportedOperation, got {other:?}"),
    }
    assert!(ensure_supported(&operation(vec!["ok"], None), &schemes).is_ok());
    assert!(ensure_supported(&operation(vec![], None), &vec![]).is_ok());
}

#[test]
fn integer_limits_are_the_type_range_and_other_types_have_none() {
    assert_eq!(type_limits(&RustType::I32), (Some(i32::MIN as i64), Some(i32::MAX as i64)));
    assert_eq!(type_limits(&RustType::I64), (Some(i64::MIN), Some(i64::MAX)));
    assert_eq!(type_limits(&RustType::Option(Box::new(RustType::I32))), (None, None));
    assert_eq!(type_limits(&RustType::String), (None, None));
}

#[test]
fn the_url_format_puts_one_slot_per_placeholder_after_the_base() {
    assert_eq!(url_format("/pets/{id}/toys/{toy}"), ("{}/pets/{}/toys/{}".to_owned(), 2));
    assert_eq!(url_format("/pets"), ("{}/pets".to_owned(), 0));
    assert_eq!(url_format(""), ("{}".to_owned(), 0));
    assert_eq!(url_format("/{a}{b}"), ("{}/{}{}".to_owned(), 2));
}

#[test]
fn an_unclosed_placeholder_takes_the_rest_of_the_path() {
    assert_eq!(url_format("/files/{name"), ("{}/files/{}".to_owned(), 1));
}

#[test]
fn the_first_operation_the_client_cannot_carry_gives_the_error() {
    let schemes = vec![scheme("ok", SecuritySchemeKind::HttpBearer)];
    let mut second = operation(vec!["missing"], None);
    second.path = "/second".to_owned();
    let mut third = operation(vec!["other"], None);
    third.path = "/third".to_owned();
    let service = Service { operations: vec![operation(vec!["ok"], None), second, third], security_schemes: schemes };
    match check_client_operations(&service) {
        Err(Error::UnsupportedOperation { path, .. }) => assert_eq!(path, "/second"),
        other => panic!("expected UnsupportedOperation, got {other:?}"),
    }
    let fine = Service { operations: vec![operation(vec![], None)], security_schemes: Vec::new() };
    assert!(check_client_operations(&fine).is_ok());
}

#[test]
fn path_encoding_is_needed_only_with_path_parameters() {
    let mut with_param = operation(vec![], None);
    with_param.path = "/widgets/{id}".to_owned();
    with_param.path_params = vec![Param { name: to_ident("id", Case::Snake), ty: RustType::String }];
    let plain = Service { operations: vec![operation(vec![], None)], security_schemes: Vec::new() };
    assert!(!uses_path_parameters(&plain));
    let both = Service { operations: vec![operation(vec![], None), with_param], security_schemes: Vec::new() };
    assert!(uses_path_parameters(&both));
}

#[test]
fn adjacent_operations_on_one_path_share_a_route() {
    let at = |path: &str, method: &str| {
        let mut op = operation(vec![], None);
        op.path = path.to_owned();
        op.method = method.to_owned();
        return op;
    };
    let service = Service {
        operations: vec![at("/pets", "get"), at("/pets", "post"), at("/pets/{id}", "get"), at("/pets", "delete")],
        security_schemes: Vec::new(),
    };
    assert_eq!(route_groups(&service), vec![(0, 2), (2, 3), (3, 4)]);
    let empty = Service { operations: Vec::new(), security_schemes: Vec::new() };
    assert!(route_groups(&empty).is_empty());
}

fn field(ty: RustType, constraints: Option<Constraints>) -> Field {
    return Field {
        name: to_ident("value", Case::Snake),
        rename: None,
        doc: None,
        deprecated: None,
        ty,
        required: true,
        omit_empty: None,
        serde_skip: false,
        default: None,
        constraints,
    };
}

#[test]
fn string_rules_follow_the_keywords_and_skip_a_zero_minimum() {
    let mut c = Constraints::none();
    c.pattern = Some("^[a-z]+$".to_owned());
    c.min_length = Some(0);
    c.max_length = Some(8);
    assert_eq!(rules(&c, &RustType::String), vec![Rule::Pattern("^[a-z]+$".to_owned()), Rule::MaxLength(8)]);
    c.min_length = Some(2);
    assert_eq!(rules(&c, &RustType::String)[1], Rule::MinLength(2));
    assert!(rules(&c, &RustType::I64).is_empty(), "string keywords mean nothing on a number");
}

#[test]
fn a_bound_the_type_already_holds_is_dropped() {
    let mut c = Constraints::none();
    c.minimum = Some(Bound::Int(-2147483648));
    c.maximum = Some(Bound::Int(100));
    assert_eq!(rules(&c, &RustType::I32), vec![Rule::AtMost(Bound::Int(100))]);
    assert_eq!(rules(&c, &RustType::I64), vec![Rule::AtLeast(Bound::Int(-2147483648)), Rule::AtMost(Bound::Int(100))]);
    c.exclusive_minimum = true;
    c.multiple_of = Some(Bound::Int(5));
    assert_eq!(
        rules(&c, &RustType::I32),
        vec![Rule::Above(Bound::Int(-2147483648)), Rule::AtMost(Bound::Int(100)), Rule::MultipleOf(Bound::Int(5))]
    );
}

#[test]
fn unique_items_reach_only_lists_of_scalars() {
    let mut c = Constraints::none();
    c.unique_items = true;
    c.min_items = Some(1);
    assert_eq!(
        rules(&c, &RustType::Vec(Box::new(RustType::String))),
        vec![Rule::MinItems(1), Rule::UniqueItems { pairwise: false }]
    );
    assert_eq!(
        rules(&c, &RustType::Vec(Box::new(RustType::F64))),
        vec![Rule::MinItems(1), Rule::UniqueItems { pairwise: true }]
    );
    assert_eq!(rules(&c, &RustType::Vec(Box::new(RustType::Named("Pet".to_owned())))), vec![Rule::MinItems(1)]);
    let mut m = Constraints::none();
    m.min_properties = Some(1);
    m.max_properties = Some(3);
    assert_eq!(
        rules(&m, &RustType::HashMap(Box::new(RustType::String))),
        vec![Rule::MinProperties(1), Rule::MaxProperties(3)]
    );
}

#[test]
fn a_field_is_checked_only_when_a_rule_reaches_its_type() {
    let mut c = Constraints::none();
    c.min_length = Some(2);
    assert!(is_checked(&field(RustType::String.optional(), Some(c.clone()))));
    assert!(!is_checked(&field(RustType::I64, Some(c.clone()))));
    assert!(!is_checked(&field(RustType::String, None)));
    c.checked_as = Some(RustType::String);
    assert!(is_checked(&field(RustType::Named("Code".to_owned()), Some(c))));
}

#[test]
fn a_pattern_the_regex_crate_cannot_read_is_refused() {
    let mut c = Constraints::none();
    c.pattern = Some("(unclosed".to_owned());
    match check_pattern(&field(RustType::String, Some(c.clone())), &c) {
        Err(Error::UnsupportedSchema { path, reason }) => {
            assert_eq!(path, "value");
            assert!(reason.starts_with("the `pattern` `(unclosed` does not read as a regular expression: "));
            assert!(reason.len() > "the `pattern` `(unclosed` does not read as a regular expression: ".len());
        },
        other => panic!("expected UnsupportedSchema, got {other:?}"),
    }
    assert!(check_pattern(&field(RustType::I64, Some(c.clone())), &c).is_ok(), "a pattern on a number is not read");
    c.pattern = Some("^[a-z]+$".to_owned());
    assert!(check_pattern(&field(RustType::String, Some(c.clone())), &c).is_ok());
}
