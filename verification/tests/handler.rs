use oapi_codegen::emit::axum::emit_handler;
use oapi_codegen::emit::axum::HandlerVisibility;
use oapi_codegen::ir::Body;
use oapi_codegen::ir::BodyKind;
use oapi_codegen::ir::Headers;
use oapi_codegen::ir::Multipart;
use oapi_codegen::ir::Operation;
use oapi_codegen::ir::Param;
use oapi_codegen::ir::RequestPayload;
use oapi_codegen::ir::RustType;
use oapi_codegen::ir::Struct;
use oapi_codegen::naming::RustIdent;

fn bare(name: &str, response: &str) -> Operation {
    return Operation {
        name: RustIdent::new(name),
        response_enum: RustIdent::new(response),
        doc: None,
        method: "get".to_owned(),
        path: "/pets".to_owned(),
        path_params: Vec::new(),
        query: None,
        headers: None,
        cookies: None,
        request: None,
        responses: Vec::new(),
        security: Vec::new(),
    };
}

#[test]
fn a_handler_without_inputs_extracts_only_the_state() {
    let code = emit_handler(&bare("list_pets", "ListPetsResponse"), "handle_list_pets", HandlerVisibility::Private);
    assert_eq!(
        code,
        "async fn handle_list_pets<T: Api>(axum::extract::State(api): axum::extract::State<T>) -> ListPetsResponse {\n    api.list_pets().await\n}\n"
    );
}

#[test]
fn a_handler_extracts_each_input_in_order() {
    let mut op = bare("update_pet", "UpdatePetResponse");
    op.path_params = vec![
        Param { name: RustIdent::new("owner"), ty: RustType::String },
        Param { name: RustIdent::new("pet_id"), ty: RustType::I64 },
    ];
    op.query = Some(Struct {
        name: RustIdent::new("UpdatePetQuery"),
        doc: None,
        deprecated: None,
        fields: Vec::new(),
        additional_properties: None,
        deny_unknown_fields: false,
    });
    op.headers = Some(Headers { name: RustIdent::new("UpdatePetHeaders"), params: Vec::new() });
    op.request = Some(RequestPayload::Single(Body { ty: RustType::Named("Pet".to_owned()), kind: BodyKind::Json }));
    let code = emit_handler(&op, "handle_update_pet", HandlerVisibility::Parent);
    assert_eq!(
        code,
        "pub(super) async fn handle_update_pet<T: Api>(axum::extract::State(api): axum::extract::State<T>, axum::extract::Path((owner, pet_id)): axum::extract::Path<(String, i64)>, axum_extra::extract::Query(query): axum_extra::extract::Query<UpdatePetQuery>, headers: UpdatePetHeaders, axum::Json(body): axum::Json<Pet>) -> UpdatePetResponse {\n    api.update_pet(owner, pet_id, query, headers, body).await\n}\n"
    );
}

#[test]
fn one_path_parameter_is_extracted_bare_and_bodies_by_kind() {
    let mut op = bare("get_pet", "GetPetResponse");
    op.path_params = vec![Param { name: RustIdent::new("id"), ty: RustType::Uuid }];
    op.request = Some(RequestPayload::Single(Body { ty: RustType::String, kind: BodyKind::Text }));
    let code = emit_handler(&op, "h", HandlerVisibility::Private);
    assert!(code.contains("axum::extract::Path(id): axum::extract::Path<uuid::Uuid>, body: String)"));
    assert!(code.contains("api.get_pet(id, body).await"));
    op.request = Some(RequestPayload::Single(Body { ty: RustType::Named("Form".to_owned()), kind: BodyKind::Form }));
    assert!(emit_handler(&op, "h", HandlerVisibility::Private).contains("axum::Form(body): axum::Form<Form>)"));
    op.request = Some(RequestPayload::Multipart(Multipart { name: RustIdent::new("UploadMultipart"), fields: Vec::new() }));
    assert!(emit_handler(&op, "h", HandlerVisibility::Private).contains(", body: UploadMultipart)"));
}

use oapi_codegen::emit::axum::emit_trait;
use oapi_codegen::ir::SecurityScheme;
use oapi_codegen::ir::SecuritySchemeKind;
use oapi_codegen::ir::Service;

#[test]
fn the_trait_has_one_documented_method_per_operation() {
    let mut list = bare("list_pets", "ListPetsResponse");
    list.doc = Some("List pets.".to_owned());
    list.path_params = vec![Param { name: RustIdent::new("owner"), ty: RustType::String }];
    list.query = Some(Struct {
        name: RustIdent::new("ListPetsQuery"),
        doc: None,
        deprecated: None,
        fields: Vec::new(),
        additional_properties: None,
        deny_unknown_fields: false,
    });
    list.request = Some(RequestPayload::Single(Body { ty: RustType::Named("Pet".to_owned()), kind: BodyKind::Json }));
    let service = Service { operations: vec![list, bare("ping", "PingResponse")], security_schemes: Vec::new() };
    let expected = "/// Server behaviour: implement one method per operation.\npub trait Api: Clone + Send + Sync + 'static {\n    /// List pets.\n    fn list_pets(&self, owner: String, query: ListPetsQuery, body: Pet) -> impl std::future::Future<Output = ListPetsResponse> + Send;\n    fn ping(&self) -> impl std::future::Future<Output = PingResponse> + Send;\n}\n";
    assert_eq!(emit_trait(&service), expected);
}

#[test]
fn a_secured_method_names_its_scheme_in_its_doc() {
    let mut op = bare("ping", "PingResponse");
    op.security = vec!["bearer".to_owned()];
    let service = Service {
        operations: vec![op],
        security_schemes: vec![SecurityScheme {
            key: "bearer".to_owned(),
            field: RustIdent::new("bearer"),
            kind: SecuritySchemeKind::HttpBearer,
            doc: None,
        }],
    };
    let code = emit_trait(&service);
    assert!(code.contains("    /// # Security\n    ///\n    /// The document names these security schemes for this operation:\n    ///\n    /// - "));
    assert!(code.contains("    /// This generator emits no check."));
    assert!(code.ends_with("    fn ping(&self) -> impl std::future::Future<Output = PingResponse> + Send;\n}\n"));
}
