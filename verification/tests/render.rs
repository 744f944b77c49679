use oapi_codegen::config::OutputOptions;
use oapi_codegen::emit::models::ModelDerives;
use oapi_codegen::emit::models::SerdeDerives;
use oapi_codegen::emit::models::emit_alias;
use oapi_codegen::emit::models::emit_enum;
use oapi_codegen::emit::render::emit_type;
use oapi_codegen::error::Error;
use oapi_codegen::ir::Alias;
use oapi_codegen::ir::Deprecation;
use oapi_codegen::ir::Enum;
use oapi_codegen::ir::EnumKind;
use oapi_codegen::ir::ForeignDerives;
use oapi_codegen::ir::IntegerVariant;
use oapi_codegen::ir::RustType;
use oapi_codegen::ir::StringVariant;
use oapi_codegen::ir::UnionVariant;
use oapi_codegen::loader::model::parse_spec;
use oapi_codegen::loader::split::SchemaSlot;
use oapi_codegen::naming::RustIdent;

fn derives(serialize: bool, deserialize: bool) -> ModelDerives {
    return ModelDerives {
        serde: SerdeDerives { serialize, deserialize },
        foreign: ForeignDerives { debug: true, clone: true, partial_eq: false },
    };
}

#[test]
fn nested_types_render_as_their_expressions() {
    let ty = RustType::Option(Box::new(RustType::Vec(Box::new(RustType::HashMap(Box::new(RustType::Boxed(
        Box::new(RustType::Named("Pet".to_owned())),
    )))))));
    assert_eq!(emit_type(&ty), "Option<Vec<std::collections::HashMap<String, Box<Pet>>>>");
    let external = RustType::External { module: "models".to_owned(), name: "Id".to_owned() };
    assert_eq!(emit_type(&external), "models::Id");
    assert_eq!(emit_type(&RustType::DateTime), "chrono::DateTime<chrono::Utc>");
}

#[test]
fn a_string_enum_renders_renames_docs_and_a_deprecation_note() {
    let enom = Enum {
        name: RustIdent::new("Status"),
        doc: Some("Where a pet is.\nSecond line.".to_owned()),
        deprecated: Some(Deprecation { note: Some("use \"State\"".to_owned()) }),
        kind: EnumKind::Strings(vec![
            StringVariant { name: RustIdent::new("Available"), rename: Some("available".to_owned()), doc: None },
            StringVariant { name: RustIdent::new("Sold"), rename: None, doc: Some("Gone.".to_owned()) },
        ]),
    };
    let expected = "/// Where a pet is.\n/// Second line.\n#[derive(serde::Serialize, serde::Deserialize, Debug, Clone)]\n#[deprecated(note = \"use \\\"State\\\"\")]\npub enum Status {\n    #[serde(rename = \"available\")]\n    Available,\n    /// Gone.\n    Sold,\n}\n";
    assert_eq!(emit_enum(&enom, derives(true, true)), expected);
}

#[test]
fn an_integer_enum_carries_its_conversions() {
    let enom = Enum {
        name: RustIdent::new("Level"),
        doc: None,
        deprecated: None,
        kind: EnumKind::Integers {
            repr: RustType::I64,
            variants: vec![
                IntegerVariant { name: RustIdent::new("Low"), value: -3, doc: None },
                IntegerVariant { name: RustIdent::new("High"), value: 12, doc: None },
            ],
        },
    };
    let code = emit_enum(&enom, derives(false, true));
    let expected = "#[derive(serde::Deserialize, Debug, Clone)]\n#[serde(try_from = \"i64\")]\n#[repr(i64)]\npub enum Level {\n    Low = -3,\n    High = 12,\n}\n\nimpl From<Level> for i64 {\n    fn from(value: Level) -> Self {\n        return match value {\n            Level::Low => -3,\n            Level::High => 12,\n        };\n    }\n}\n\nimpl TryFrom<i64> for Level {\n    type Error = String;\n\n    fn try_from(value: i64) -> Result<Self, Self::Error> {\n        return match value {\n            -3 => Ok(Level::Low),\n            12 => Ok(Level::High),\n            other => Err(format!(\"`{}` is not a value of `{}`\", other, \"Level\")),\n        };\n    }\n}\n";
    assert_eq!(code, expected);
    let both = emit_enum(&enom, derives(true, true));
    assert!(both.contains("#[serde(try_from = \"i64\", into = \"i64\")]\n"));
    let neither = emit_enum(&enom, derives(false, false));
    assert!(!neither.contains("#[serde("));
}

#[test]
fn the_smallest_discriminant_renders_without_overflow() {
    let enom = Enum {
        name: RustIdent::new("Edge"),
        doc: None,
        deprecated: None,
        kind: EnumKind::Integers {
            repr: RustType::I64,
            variants: vec![IntegerVariant { name: RustIdent::new("Min"), value: i64::MIN, doc: None }],
        },
    };
    let code = emit_enum(&enom, derives(true, false));
    assert!(code.contains("    Min = -9223372036854775808,\n"));
}

#[test]
fn a_union_is_untagged_over_newtype_variants() {
    let enom = Enum {
        name: RustIdent::new("Shape"),
        doc: None,
        deprecated: Some(Deprecation { note: None }),
        kind: EnumKind::Union(vec![
            UnionVariant { name: RustIdent::new("Circle"), ty: RustType::Named("Circle".to_owned()) },
            UnionVariant { name: RustIdent::new("Side"), ty: RustType::F64 },
        ]),
    };
    let nothing = ModelDerives {
        serde: SerdeDerives { serialize: false, deserialize: false },
        foreign: ForeignDerives { debug: false, clone: false, partial_eq: false },
    };
    let expected = "#[serde(untagged)]\n#[deprecated]\npub enum Shape {\n    Circle(Circle),\n    Side(f64),\n}\n";
    assert_eq!(emit_enum(&enom, nothing), expected);
}

#[test]
fn an_alias_derives_nothing() {
    let alias = Alias {
        name: RustIdent::new("Tags"),
        doc: Some("Labels.".to_owned()),
        deprecated: None,
        ty: RustType::Vec(Box::new(RustType::String)),
    };
    assert_eq!(emit_alias(&alias), "/// Labels.\npub type Tags = Vec<String>;\n");
}

const PETSTORE: &str = "openapi: 3.0.3
info:
  title: Pets
  version: '1'
servers:
  - url: https://example.com
paths:
  /pets:
    get:
      operationId: listPets
      tags: [pets]
      responses:
        '200':
          description: ok
    post:
      operationId: addPet
      tags: [admin]
      responses:
        '200':
          description: ok
components:
  schemas:
    Pet:
      type: object
      properties:
        id:
          type: integer
          readOnly: true
        owner:
          $ref: '#/components/schemas/Owner'
    Owner:
      type: object
      properties:
        name:
          type: string
    Hidden:
      type: string
";

#[test]
fn a_parsed_document_counts_its_schemas_paths_and_servers() {
    let model = parse_spec("pets.yaml", PETSTORE).expect("the document parses");
    let stats = model.stats();
    assert_eq!((stats.schemas, stats.paths, stats.servers), (3, 1, 1));
    let names: Vec<&str> = model.schemas.iter().map(|e| return e.name.as_str()).collect();
    assert_eq!(names, vec!["Pet", "Owner", "Hidden"]);
    assert_eq!(model.path_items.len(), 1);
    assert_eq!(model.path_items[0].len(), 8);
    assert_eq!(model.path_items[0][0].as_ref().unwrap().operation_id.as_deref(), Some("listPets"));
    assert!(model.path_items[0][1].is_none());
    assert_eq!(model.path_items[0][2].as_ref().unwrap().tags, vec!["admin".to_owned()]);
    match &model.schemas[0].schema {
        SchemaSlot::Item(shape) => {
            assert_eq!(shape.properties.len(), 2);
            assert!(!shape.read_only);
        },
        SchemaSlot::Reference(_) => panic!("Pet is written in place"),
    }
    assert_eq!(model.split_schemas(), vec!["Pet".to_owned()]);
}

#[test]
fn filters_empty_operation_slots_and_drop_excluded_schemas() {
    let mut model = parse_spec("pets.yaml", PETSTORE).expect("the document parses");
    let mut opts = OutputOptions::default();
    opts.exclude_tags = vec!["admin".to_owned()];
    opts.exclude_schemas = vec!["Hidden".to_owned(), "Missing".to_owned()];
    model.apply_filters(&opts);
    let names: Vec<&str> = model.schemas.iter().map(|e| return e.name.as_str()).collect();
    assert_eq!(names, vec!["Pet", "Owner"]);
    assert!(model.path_items[0][0].is_some());
    assert!(model.path_items[0][2].is_none());
    let stats = model.stats();
    assert_eq!((stats.schemas, stats.paths, stats.servers), (2, 1, 1));
}

#[test]
fn a_text_that_is_not_openapi_is_a_parse_error_naming_the_document() {
    match parse_spec("broken.yaml", "openapi: [") {
        Err(Error::ParseSpec { path, source }) => {
            assert_eq!(path, "broken.yaml");
            assert!(!source.is_empty());
        },
        other => panic!("expected a parse error, got {:?}", other.map(|_| return ())),
    }
}

use oapi_codegen::emit::servers::emit_server_urls;
use oapi_codegen::ir::ServerUrl;
use oapi_codegen::ir::ServerUrlBuilder;
use oapi_codegen::ir::ServerUrlConst;
use oapi_codegen::ir::ServerUrlEnum;
use oapi_codegen::ir::ServerUrlEnumVariant;
use oapi_codegen::ir::ServerUrlParam;
use oapi_codegen::ir::ServerUrlParamType;
use oapi_codegen::ir::ServerUrls;

#[test]
fn servers_render_as_constants_builders_and_enums() {
    let urls = ServerUrls {
        enums: vec![ServerUrlEnum {
            name: RustIdent::new("Region"),
            doc: Some("The `region` variable.".to_owned()),
            variants: vec![
                ServerUrlEnumVariant { name: RustIdent::new("Eu"), value: "eu".to_owned() },
                ServerUrlEnumVariant { name: RustIdent::new("Us"), value: "us".to_owned() },
            ],
            default: Some(RustIdent::new("Eu")),
        }],
        servers: vec![
            ServerUrl::Const(ServerUrlConst {
                name: RustIdent::new("PRODUCTION"),
                doc: None,
                url: "https://api.example.com".to_owned(),
            }),
            ServerUrl::Builder(ServerUrlBuilder {
                name: RustIdent::new("regional"),
                doc: None,
                url_template: "https://{region}.example.com/{stage}".to_owned(),
                params: vec![
                    ServerUrlParam {
                        ident: RustIdent::new("region"),
                        placeholder: "region".to_owned(),
                        ty: ServerUrlParamType::Enum(RustIdent::new("Region")),
                    },
                    ServerUrlParam {
                        ident: RustIdent::new("stage"),
                        placeholder: "stage".to_owned(),
                        ty: ServerUrlParamType::Str,
                    },
                ],
            }),
        ],
    };
    let expected = "/// The `region` variable.\n#[derive(Debug, Clone, Copy, PartialEq, Eq)]\npub enum Region {\n    Eu,\n    Us,\n}\n\nimpl Region {\n    /// The wire value substituted into the server URL.\n    pub fn as_str(&self) -> &'static str {\n        return match self {\n            Region::Eu => \"eu\",\n            Region::Us => \"us\",\n        };\n    }\n}\n\nimpl Default for Region {\n    fn default() -> Self {\n        return Region::Eu;\n    }\n}\n\npub const PRODUCTION: &str = \"https://api.example.com\";\n\npub fn regional(region: Region, stage: &str) -> Result<String, String> {\n    let mut url = String::from(\"https://{region}.example.com/{stage}\");\n    url = url.replace(\"{region}\", region.as_str());\n    url = url.replace(\"{stage}\", stage);\n    if url.contains('{') || url.contains('}') {\n        return Err(format!(\"server URL still contains an unresolved placeholder: {url}\"));\n    }\n    return Ok(url);\n}\n\n";
    assert_eq!(emit_server_urls(&urls), expected);
}

#[test]
fn a_url_with_a_quote_stays_inside_its_literal() {
    let urls = ServerUrls {
        enums: Vec::new(),
        servers: vec![ServerUrl::Const(ServerUrlConst {
            name: RustIdent::new("ODD"),
            doc: Some("First.\nSecond.".to_owned()),
            url: "https://x\"); panic!(\"\\".to_owned(),
        })],
    };
    assert_eq!(
        emit_server_urls(&urls),
        "/// First.\n/// Second.\npub const ODD: &str = \"https://x\\\"); panic!(\\\"\\\\\";\n\n"
    );
}
