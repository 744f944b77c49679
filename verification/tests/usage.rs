use oapi_codegen::emit::foreign::foreign_derives;
use oapi_codegen::emit::foreign::foreign_resolver;
use oapi_codegen::emit::models::debug_and_clone;
use oapi_codegen::emit::models::debug_clone_and_eq;
use oapi_codegen::emit::models::derive_names;
use oapi_codegen::emit::models::plain_derive_names;
use oapi_codegen::emit::models::ModelDerives;
use oapi_codegen::emit::models::SerdeDerives;
use oapi_codegen::emit::usage::adjacency;
use oapi_codegen::emit::usage::direction_usage;
use oapi_codegen::emit::usage::item_references;
use oapi_codegen::emit::usage::model_derives;
use oapi_codegen::emit::usage::models_only_derives;
use oapi_codegen::emit::usage::ModelEntry;
use oapi_codegen::emit::Targets;
use oapi_codegen::ir::Alias;
use oapi_codegen::ir::Body;
use oapi_codegen::ir::BodyKind;
use oapi_codegen::ir::Field;
use oapi_codegen::ir::ForeignDerives;
use oapi_codegen::ir::Item;
use oapi_codegen::ir::Module;
use oapi_codegen::ir::Operation;
use oapi_codegen::ir::Param;
use oapi_codegen::ir::ResponseBody;
use oapi_codegen::ir::ResponseCase;
use oapi_codegen::ir::ResponseHeader;
use oapi_codegen::ir::ResponseStatus;
use oapi_codegen::ir::RustType;
use oapi_codegen::ir::Service;
use oapi_codegen::ir::Struct;
use oapi_codegen::naming::to_ident;
use oapi_codegen::naming::Case;
use oapi_codegen::naming::RustIdent;

fn tname(name: &str) -> RustIdent {
    return to_ident(name, Case::Pascal);
}

fn fname(name: &str) -> RustIdent {
    return to_ident(name, Case::Snake);
}

fn named_field(field: &str, ty: &str) -> Field {
    return Field {
        name: fname(field),
        rename: None,
        doc: None,
        deprecated: None,
        ty: RustType::Named(ty.to_owned()),
        required: true,
        omit_empty: None,
        serde_skip: false,
        default: None,
        constraints: None,
    };
}

fn strukt(name: &str, fields: Vec<Field>) -> Item {
    return Item::Struct(Struct {
        name: tname(name),
        doc: None,
        deprecated: None,
        fields,
        additional_properties: None,
        deny_unknown_fields: false,
    });
}

fn response_operation(body_ty: &str) -> Operation {
    return Operation {
        name: fname("get_thing"),
        response_enum: tname("GetThingResponse"),
        doc: None,
        method: "get".to_owned(),
        path: "/thing".to_owned(),
        path_params: Vec::new(),
        query: None,
        headers: None,
        cookies: None,
        request: None,
        responses: vec![ResponseCase {
            variant: tname("Ok"),
            status: ResponseStatus::Fixed(200),
            body: Some(ResponseBody::Single(Body { ty: RustType::Named(body_ty.to_owned()), kind: BodyKind::Json })),
            headers: Vec::new(),
            doc: None,
        }],
        security: Vec::new(),
    };
}

fn foreign_field(field: &str, text: &str, derives: ForeignDerives) -> Field {
    let mut field = named_field(field, "Placeholder");
    field.ty = RustType::Verbatim { text: text.to_owned(), derives };
    return field;
}

const DEBUG_ONLY: ForeignDerives = ForeignDerives { debug: true, clone: false, partial_eq: false };

const NO_PARTIAL_EQ: ForeignDerives = ForeignDerives { debug: true, clone: true, partial_eq: false };

fn constraint_of(items: Vec<Item>, name: &str) -> ForeignDerives {
    let module = Module { items };
    let adjacency = adjacency(&module);
    return foreign_derives(&module, &adjacency)
        .iter()
        .find(|entry| return entry.name == name)
        .map(|entry| return entry.derives)
        .unwrap_or_default();
}

fn serde_of(entries: &[ModelEntry], name: &str) -> Option<SerdeDerives> {
    return entries.iter().find(|entry| return entry.name == name).map(|entry| return entry.derives.serde);
}

#[test]
fn model_naming_a_restricted_target_loses_the_missing_traits() {
    let items = vec![strukt("Holder", vec![foreign_field("value", "crate::Opaque", DEBUG_ONLY)])];
    assert_eq!(constraint_of(items, "Holder"), DEBUG_ONLY);
}

#[test]
fn constraint_propagates_up_one_reference() {
    let items = vec![
        strukt("Holder", vec![foreign_field("value", "crate::Opaque", DEBUG_ONLY)]),
        strukt("Outer", vec![named_field("held", "Holder")]),
    ];
    assert_eq!(constraint_of(items, "Outer"), DEBUG_ONLY);
}

#[test]
fn constraint_propagates_through_an_alias() {
    let items = vec![
        Item::Alias(Alias {
            name: tname("Opaque"),
            doc: None,
            deprecated: None,
            ty: RustType::Verbatim { text: "crate::Opaque".to_owned(), derives: DEBUG_ONLY },
        }),
        strukt("Holder", vec![named_field("value", "Opaque")]),
    ];
    assert_eq!(constraint_of(items, "Holder"), DEBUG_ONLY);
}

#[test]
fn two_restricted_targets_intersect_rather_than_the_last_one_winning() {
    let items = vec![strukt(
        "Holder",
        vec![
            foreign_field("opaque", "crate::Opaque", DEBUG_ONLY),
            foreign_field("handle", "crate::Handle", NO_PARTIAL_EQ),
        ],
    )];
    assert_eq!(constraint_of(items, "Holder"), DEBUG_ONLY);
}

#[test]
fn wrappers_are_transparent_to_the_constraint() {
    let mut field = foreign_field("values", "crate::Opaque", DEBUG_ONLY);
    field.ty = RustType::Vec(Box::new(RustType::Option(Box::new(field.ty.clone()))));
    assert_eq!(constraint_of(vec![strukt("Holder", vec![field])], "Holder"), DEBUG_ONLY);
}

#[test]
fn model_reaching_no_foreign_type_keeps_every_trait() {
    let items = vec![strukt("Plain", vec![named_field("name", "Other")])];
    let module = Module { items };
    let adjacency = adjacency(&module);
    assert!(foreign_derives(&module, &adjacency).is_empty(), "an unconstrained model needs no entry at all");
}

#[test]
fn a_reference_cycle_terminates() {
    let items = vec![
        strukt("Left", vec![foreign_field("value", "crate::Opaque", DEBUG_ONLY), named_field("right", "Right")]),
        strukt("Right", vec![named_field("left", "Left")]),
    ];
    assert_eq!(constraint_of(items.clone(), "Left"), DEBUG_ONLY);
    assert_eq!(constraint_of(items, "Right"), DEBUG_ONLY);
}

#[test]
fn resolver_narrows_a_per_operation_type_through_a_model_name() {
    let module = Module { items: vec![strukt("Holder", vec![foreign_field("value", "crate::Opaque", DEBUG_ONLY)])] };
    let resolver = foreign_resolver(&module);
    assert_eq!(resolver.of_type(&RustType::Named("Holder".to_owned())), DEBUG_ONLY);
    assert_eq!(
        resolver.of_types(&vec![RustType::Named("Holder".to_owned()), RustType::String]),
        DEBUG_ONLY,
        "a primitive alongside a constrained model does not widen the answer"
    );
}

#[test]
fn response_only_model_on_server_skips_deserialize() {
    let module = Module { items: vec![strukt("Thing", vec![named_field("nested", "Nested")]), strukt("Nested", vec![])] };
    let service = Service { operations: vec![response_operation("Thing")], security_schemes: Vec::new() };
    let targets = Targets { server: true, client: false };
    let derives = model_derives(&module, &service, targets);
    for name in ["Thing", "Nested"] {
        let serde = serde_of(&derives, name).expect("model reached");
        assert!(serde.serialize, "{name} is serialized on the server");
        assert!(!serde.deserialize, "{name} is never deserialized on a response-only server");
    }
}

#[test]
fn response_only_model_with_client_keeps_both() {
    let module = Module { items: vec![strukt("Thing", vec![])] };
    let service = Service { operations: vec![response_operation("Thing")], security_schemes: Vec::new() };
    let targets = Targets { server: true, client: true };
    let derives = model_derives(&module, &service, targets);
    let serde = serde_of(&derives, "Thing").expect("model reached");
    assert!(serde.serialize);
    assert!(serde.deserialize, "a client deserializes the response body");
}

#[test]
fn alias_reference_propagates_direction() {
    let module = Module {
        items: vec![
            strukt("Thing", vec![named_field("floor", "FloorHeating")]),
            Item::Alias(Alias {
                name: tname("FloorHeating"),
                doc: None,
                deprecated: None,
                ty: RustType::verbatim("crate::domain::FloorHeating"),
            }),
        ],
    };
    let service = Service { operations: vec![response_operation("Thing")], security_schemes: Vec::new() };
    let targets = Targets { server: true, client: false };
    let derives = model_derives(&module, &service, targets);
    let serde = serde_of(&derives, "FloorHeating").expect("alias reached");
    assert!(serde.serialize);
    assert!(!serde.deserialize);
}

#[test]
fn non_pascal_schema_name_is_matched_after_canonicalization() {
    let module = Module {
        items: vec![strukt("Thing", vec![named_field("floor", "floor_heating")]), strukt("floor_heating", vec![])],
    };
    let service = Service { operations: vec![response_operation("Thing")], security_schemes: Vec::new() };
    let targets = Targets { server: true, client: false };
    let derives = model_derives(&module, &service, targets);
    let serde = serde_of(&derives, "FloorHeating").expect("model reached via canonicalized name");
    assert!(serde.serialize);
    assert!(
        !serde.deserialize,
        "a response-only model must skip Deserialize even when its schema name is not PascalCase"
    );
}

#[test]
fn path_param_model_is_request_reachable() {
    let module = Module { items: vec![strukt("Status", vec![])] };
    let mut operation = response_operation("Ignored");
    operation.responses = vec![ResponseCase {
        variant: tname("NoContent"),
        status: ResponseStatus::Fixed(204),
        body: None,
        headers: Vec::new(),
        doc: None,
    }];
    operation.path_params = vec![Param { name: fname("status"), ty: RustType::Named("Status".to_owned()) }];
    let service = Service { operations: vec![operation], security_schemes: Vec::new() };
    let targets = Targets { server: true, client: false };
    let derives = model_derives(&module, &service, targets);
    let serde = serde_of(&derives, "Status").expect("path-param model reached");
    assert!(serde.deserialize, "the server's Path extractor deserializes a path-param model");
    assert!(!serde.serialize, "a request-only model is never serialized on the server");
}

#[test]
fn response_header_model_is_response_reachable() {
    let module = Module { items: vec![strukt("Kind", vec![])] };
    let mut operation = response_operation("Ignored");
    operation.responses = vec![ResponseCase {
        variant: tname("Ok"),
        status: ResponseStatus::Fixed(200),
        body: None,
        headers: vec![ResponseHeader {
            name: fname("x_kind"),
            header_name: "X-Kind".to_owned(),
            ty: RustType::Named("Kind".to_owned()),
            required: true,
            doc: None,
        }],
        doc: None,
    }];
    let service = Service { operations: vec![operation], security_schemes: Vec::new() };
    let targets = Targets { server: true, client: false };
    let derives = model_derives(&module, &service, targets);
    let serde = serde_of(&derives, "Kind").expect("response-header model reached");
    assert!(serde.serialize, "a response-header model is reachable in the response direction");
    assert!(!serde.deserialize);
}

#[test]
fn an_unreached_model_gets_no_entry_without_a_constraint() {
    let module = Module { items: vec![strukt("Thing", vec![]), strukt("Lonely", vec![])] };
    let service = Service { operations: vec![response_operation("Thing")], security_schemes: Vec::new() };
    let derives = model_derives(&module, &service, Targets { server: true, client: false });
    assert!(serde_of(&derives, "Lonely").is_none());
}

#[test]
fn models_only_output_derives_both_serde_traits() {
    let module = Module {
        items: vec![strukt("Holder", vec![foreign_field("value", "crate::Opaque", DEBUG_ONLY)]), strukt("Plain", vec![])],
    };
    let entries = models_only_derives(&module);
    let holder = entries.iter().find(|e| return e.name == "Holder").expect("constrained model listed");
    assert!(holder.derives.serde.serialize && holder.derives.serde.deserialize);
    assert_eq!(holder.derives.foreign, DEBUG_ONLY);
    assert!(entries.iter().all(|e| return e.name != "Plain"));
}

#[test]
fn item_references_are_canonical_names() {
    let item = strukt("Thing", vec![named_field("a", "floor_heating"), named_field("b", "Other")]);
    assert_eq!(item_references(&item), vec!["FloorHeating".to_owned(), "Other".to_owned()]);
}

#[test]
fn direction_usage_flags_each_reached_model_once() {
    let module = Module { items: vec![strukt("Thing", vec![named_field("nested", "Nested")]), strukt("Nested", vec![])] };
    let service = Service { operations: vec![response_operation("Thing")], security_schemes: Vec::new() };
    let usage = direction_usage(&module, &service);
    assert_eq!(usage.len(), 2);
    for entry in &usage {
        assert!(entry.usage.response);
        assert!(!entry.usage.request);
    }
}

#[test]
fn the_derive_list_keeps_serde_first_and_drops_what_a_foreign_type_lacks() {
    let all = ModelDerives::both();
    assert_eq!(derive_names(all), vec!["serde::Serialize", "serde::Deserialize", "Debug", "Clone", "PartialEq"]);
    let response_only = ModelDerives { serde: SerdeDerives { serialize: true, deserialize: false }, foreign: DEBUG_ONLY };
    assert_eq!(derive_names(response_only), vec!["serde::Serialize", "Debug"]);
    let nothing = ModelDerives {
        serde: SerdeDerives { serialize: false, deserialize: false },
        foreign: ForeignDerives { debug: false, clone: false, partial_eq: false },
    };
    assert!(derive_names(nothing).is_empty(), "no trait left gives no derive attribute");
}

#[test]
fn a_plain_derive_is_what_both_the_request_and_the_contents_allow() {
    assert_eq!(plain_derive_names(debug_and_clone(), ForeignDerives::all()), vec!["Debug", "Clone"]);
    assert_eq!(plain_derive_names(debug_clone_and_eq(), NO_PARTIAL_EQ), vec!["Debug", "Clone"]);
    assert_eq!(plain_derive_names(debug_clone_and_eq(), DEBUG_ONLY), vec!["Debug"]);
}
