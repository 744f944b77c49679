use oapi_codegen::emit::foreign::foreign_resolver;
use oapi_codegen::emit::operation::emit_cookies_struct;
use oapi_codegen::emit::operation::emit_headers_struct;
use oapi_codegen::emit::operation::emit_response_enum;
use oapi_codegen::ir::Body;
use oapi_codegen::ir::BodyKind;
use oapi_codegen::ir::BodyVariant;
use oapi_codegen::ir::CookieParam;
use oapi_codegen::ir::Cookies;
use oapi_codegen::ir::ForeignDerives;
use oapi_codegen::ir::HeaderParam;
use oapi_codegen::ir::Headers;
use oapi_codegen::ir::Module;
use oapi_codegen::ir::NegotiatedBody;
use oapi_codegen::ir::Operation;
use oapi_codegen::ir::ResponseBody;
use oapi_codegen::ir::ResponseCase;
use oapi_codegen::ir::ResponseHeader;
use oapi_codegen::ir::ResponseStatus;
use oapi_codegen::ir::RustType;
use oapi_codegen::naming::RustIdent;

fn header(name: &str, ty: RustType, required: bool, doc: Option<&str>) -> HeaderParam {
    return HeaderParam {
        name: RustIdent::new(name),
        header_name: name.to_owned(),
        ty,
        required,
        doc: doc.map(|d| return d.to_owned()),
    };
}

#[test]
fn a_header_struct_derives_debug_and_clone_and_wraps_optional_headers() {
    let resolver = foreign_resolver(&Module { items: Vec::new() });
    let headers = Headers {
        name: RustIdent::new("ListPetsHeaders"),
        params: vec![
            header("x_trace", RustType::String, true, Some("Trace id.")),
            header("x_limit", RustType::I32, false, None),
        ],
    };
    assert_eq!(
        emit_headers_struct(&headers, &resolver),
        "#[derive(Debug, Clone)]\npub struct ListPetsHeaders {\n    /// Trace id.\n    pub x_trace: String,\n    pub x_limit: Option<i32>,\n}\n"
    );
}

#[test]
fn a_foreign_type_without_clone_narrows_the_header_struct() {
    let resolver = foreign_resolver(&Module { items: Vec::new() });
    let opaque = RustType::Verbatim {
        text: "my::Token".to_owned(),
        derives: ForeignDerives { debug: true, clone: false, partial_eq: false },
    };
    let headers = Headers { name: RustIdent::new("H"), params: vec![header("token", opaque, true, None)] };
    assert_eq!(emit_headers_struct(&headers, &resolver), "#[derive(Debug)]\npub struct H {\n    pub token: my::Token,\n}\n");
}

#[test]
fn a_cookie_struct_is_shaped_as_the_header_struct() {
    let resolver = foreign_resolver(&Module { items: Vec::new() });
    let cookies = Cookies {
        name: RustIdent::new("C"),
        params: vec![CookieParam {
            name: RustIdent::new("session"),
            cookie_name: "session".to_owned(),
            ty: RustType::String,
            required: false,
            doc: None,
        }],
    };
    assert_eq!(
        emit_cookies_struct(&cookies, &resolver),
        "#[derive(Debug, Clone)]\npub struct C {\n    pub session: Option<String>,\n}\n"
    );
}

fn case(variant: &str, status: ResponseStatus, body: Option<ResponseBody>, headers: Vec<ResponseHeader>) -> ResponseCase {
    return ResponseCase { variant: RustIdent::new(variant), status, body, headers, doc: None };
}

#[test]
fn a_response_enum_has_one_variant_per_response() {
    let resolver = foreign_resolver(&Module { items: Vec::new() });
    let json = |ty: RustType| return Some(ResponseBody::Single(Body { ty, kind: BodyKind::Json }));
    let op = Operation {
        name: RustIdent::new("get_pet"),
        response_enum: RustIdent::new("GetPetResponse"),
        doc: Some("Fetch a pet.".to_owned()),
        method: "get".to_owned(),
        path: "/pets/{id}".to_owned(),
        path_params: Vec::new(),
        query: None,
        headers: None,
        cookies: None,
        request: None,
        responses: vec![
            case("Ok", ResponseStatus::Fixed(200), json(RustType::Named("Pet".to_owned())), Vec::new()),
            case("NotFound", ResponseStatus::Fixed(404), None, Vec::new()),
            case("ServerError", ResponseStatus::Range(5), None, Vec::new()),
            case("Default", ResponseStatus::Default, json(RustType::Value), Vec::new()),
            case(
                "Created",
                ResponseStatus::Fixed(201),
                Some(ResponseBody::Negotiated(NegotiatedBody {
                    name: RustIdent::new("CreatedBody"),
                    variants: vec![BodyVariant {
                        variant: RustIdent::new("Json"),
                        body: Body { ty: RustType::String, kind: BodyKind::Json },
                    }],
                })),
                vec![ResponseHeader {
                    name: RustIdent::new("location"),
                    header_name: "Location".to_owned(),
                    ty: RustType::String,
                    required: false,
                    doc: Some("Where it is.".to_owned()),
                }],
            ),
        ],
        security: Vec::new(),
    };
    let expected = "/// Fetch a pet.\n#[derive(Debug, Clone, PartialEq)]\npub enum GetPetResponse {\n    Ok(Pet),\n    NotFound,\n    ServerError(http::StatusCode),\n    Default(http::StatusCode, serde_json::Value),\n    Created {\n        body: CreatedBody,\n        /// Where it is.\n        location: Option<String>,\n    },\n}\n";
    assert_eq!(emit_response_enum(&op, &resolver), expected);
}
