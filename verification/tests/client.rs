use oapi_codegen::emit::reqwest::emit_client_struct;
use oapi_codegen::emit::reqwest::emit_credential_setters;
use oapi_codegen::ir::SecurityScheme;
use oapi_codegen::ir::SecuritySchemeKind;
use oapi_codegen::naming::RustIdent;

fn scheme(key: &str, field: &str, kind: SecuritySchemeKind, doc: Option<&str>) -> SecurityScheme {
    return SecurityScheme {
        key: key.to_owned(),
        field: RustIdent::new(field),
        kind,
        doc: doc.map(|d| return d.to_owned()),
    };
}

fn schemes() -> Vec<SecurityScheme> {
    return vec![
        scheme("basicAuth", "basic_auth", SecuritySchemeKind::HttpBasic, None),
        scheme("oauth", "oauth", SecuritySchemeKind::Unsupported("oauth2 flows are not supported".to_owned()), None),
        scheme("apiKey", "api_key", SecuritySchemeKind::ApiKeyHeader("X-Key".to_owned()), Some("The key.")),
    ];
}

#[test]
fn the_client_holds_one_credential_field_per_carried_scheme() {
    let expected = "/// A blocking HTTP client for the API.\n///\n/// `base_url` is used as a prefix for every request path and must not\n/// carry a trailing slash (for example `https://api.example.com`).\n#[derive(Debug, Clone)]\npub struct Client {\n    base_url: String,\n    http: reqwest::blocking::Client,\n    basic_auth: Option<(String, String)>,\n    /// The key.\n    api_key: Option<String>,\n}\n";
    assert_eq!(emit_client_struct(&schemes()), expected);
    assert!(emit_client_struct(&Vec::new()).ends_with("    http: reqwest::blocking::Client,\n}\n"));
}

#[test]
fn each_carried_scheme_gets_a_setter() {
    let expected = "    /// Set the username and password for the `basicAuth` HTTP basic scheme.\n    pub fn with_basic_auth(mut self, username: impl Into<String>, password: impl Into<String>) -> Self {\n        self.basic_auth = Some((username.into(), password.into()));\n        return self;\n    }\n    /// Set the credential for the `apiKey` security scheme.\n    pub fn with_api_key(mut self, credential: impl Into<String>) -> Self {\n        self.api_key = Some(credential.into());\n        return self;\n    }\n";
    assert_eq!(emit_credential_setters(&schemes()), expected);
}

use oapi_codegen::emit::reqwest::emit_client_preamble;
use oapi_codegen::error::Error;
use oapi_codegen::ir::Operation;
use oapi_codegen::ir::Param;
use oapi_codegen::ir::RustType;
use oapi_codegen::ir::Service;

fn op(security: Vec<&str>, with_path: bool) -> Operation {
    return Operation {
        name: RustIdent::new("get_pet"),
        response_enum: RustIdent::new("GetPetResponse"),
        doc: None,
        method: "get".to_owned(),
        path: "/pets/{id}".to_owned(),
        path_params: if with_path {
            vec![Param { name: RustIdent::new("id"), ty: RustType::I64 }]
        } else {
            Vec::new()
        },
        query: None,
        headers: None,
        cookies: None,
        request: None,
        responses: Vec::new(),
        security: security.into_iter().map(|s| return s.to_owned()).collect(),
    };
}

#[test]
fn the_client_preamble_holds_the_encode_set_only_for_path_parameters() {
    let with_path = Service { operations: vec![op(vec!["apiKey"], true)], security_schemes: schemes() };
    let code = emit_client_preamble(&with_path).expect("every scheme is carried");
    assert!(code.starts_with("/// Errors returned by the generated client.\n#[derive(Debug)]\npub enum ClientError {\n"));
    assert!(code.contains("}\n\nconst PATH_PARAM_ENCODE_SET: &percent_encoding::AsciiSet = &percent_encoding::NON_ALPHANUMERIC\n    .remove(b'-')\n"));
    assert!(code.ends_with(&format!("{}\n", emit_client_struct(&schemes()))));
    let without = Service { operations: vec![op(vec![], false)], security_schemes: schemes() };
    let code = emit_client_preamble(&without).expect("no scheme is named");
    assert!(!code.contains("PATH_PARAM_ENCODE_SET"));
}

#[test]
fn the_client_preamble_refuses_an_operation_with_an_uncarried_scheme() {
    let service = Service { operations: vec![op(vec!["apiKey"], false), op(vec!["oauth"], true)], security_schemes: schemes() };
    match emit_client_preamble(&service) {
        Err(Error::UnsupportedOperation { method, path, reason }) => {
            assert_eq!((method.as_str(), path.as_str()), ("get", "/pets/{id}"));
            assert_eq!(reason, "oauth2 flows are not supported");
        },
        other => panic!("expected UnsupportedOperation, got {other:?}"),
    }
}

use oapi_codegen::emit::reqwest::emit_client_constructors;

#[test]
fn the_constructors_start_every_carried_credential_unset() {
    let code = emit_client_constructors(&schemes());
    assert!(code.contains("        return Ok(Self { base_url: base_url.into(), http, basic_auth: None, api_key: None });\n"));
    assert!(code.contains("        return Self { base_url: base_url.into(), http, basic_auth: None, api_key: None };\n"));
    let bare = emit_client_constructors(&Vec::new());
    assert!(bare.contains("return Self { base_url: base_url.into(), http };\n"));
    assert!(bare.starts_with("    /// Build a client targeting `base_url` with a default blocking\n"));
}
