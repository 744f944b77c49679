use oapi_codegen::loader::model::parse_spec;
use oapi_codegen::loader::split::direction_split_schemas;
use oapi_codegen::loader::split::SchemaEntry;
use oapi_codegen::loader::split::SchemaShape;
use oapi_codegen::loader::split::SchemaSlot;

fn shape(read_only: bool, properties: Vec<SchemaSlot>) -> SchemaShape {
    return SchemaShape { read_only, write_only: false, properties, others: Vec::new() };
}

fn reference(name: &str) -> SchemaSlot {
    return SchemaSlot::Reference(format!("#/components/schemas/{name}"));
}

fn entry(name: &str, schema: SchemaSlot) -> SchemaEntry {
    return SchemaEntry { name: name.to_owned(), schema };
}

fn split_of(entries: &Vec<SchemaEntry>) -> Vec<String> {
    return direction_split_schemas(entries);
}

fn holds(split: &[String], name: &str) -> bool {
    return split.iter().any(|n| return n == name);
}

/// The split of a document's text, read through the library's parse.
fn split_of_text(text: &str) -> Vec<String> {
    return parse_spec("doc.yaml", text).expect("parse doc").split_schemas();
}

#[test]
fn a_schema_level_mark_splits_only_the_referrers() {
    let split = split_of_text(
        "openapi: 3.0.3\ninfo:\n  title: t\n  version: '1'\npaths: {}\ncomponents:\n  schemas:\n    Marked:\n      type: string\n      readOnly: true\n    Holder:\n      type: object\n      properties:\n        a:\n          $ref: '#/components/schemas/Marked'\n    Bystander:\n      type: object\n      properties:\n        b:\n          type: string\n",
    );
    assert!(holds(&split, "Holder"), "a property that names a marked schema splits");
    assert!(!holds(&split, "Marked"), "a marked primitive keeps its one name");
    assert!(!holds(&split, "Bystander"), "an unrelated schema keeps its one name");
}

#[test]
fn an_alias_to_a_split_model_splits_as_well() {
    let split = split_of_text(
        "openapi: 3.0.3\ninfo:\n  title: t\n  version: '1'\npaths: {}\ncomponents:\n  schemas:\n    Marked:\n      type: object\n      properties:\n        id:\n          type: string\n          readOnly: true\n    Alias:\n      $ref: '#/components/schemas/Marked'\n    Plain:\n      type: object\n      properties:\n        a:\n          type: string\n    PlainAlias:\n      $ref: '#/components/schemas/Plain'\n",
    );
    assert!(holds(&split, "Marked"), "the model that declares the mark splits");
    assert!(holds(&split, "Alias"), "an alias to a split model splits");
    assert!(!holds(&split, "Plain"), "an unmarked model keeps its one name");
    assert!(!holds(&split, "PlainAlias"), "an alias to an unmarked model keeps its one name");
}

#[test]
fn a_property_mark_splits_the_declaring_model_and_its_referrers() {
    let split = split_of_text(
        "openapi: 3.0.3\ninfo:\n  title: t\n  version: '1'\npaths: {}\ncomponents:\n  schemas:\n    Leaf:\n      type: object\n      properties:\n        id:\n          type: string\n          readOnly: true\n    Parent:\n      type: object\n      properties:\n        leaf:\n          $ref: '#/components/schemas/Leaf'\n",
    );
    assert!(holds(&split, "Leaf"), "the model that declares the mark splits");
    assert!(holds(&split, "Parent"), "a model that reaches the mark splits");
}

#[test]
fn a_mark_deep_inside_an_inline_schema_splits_and_travels_up_a_chain() {
    let inner = SchemaShape {
        read_only: false,
        write_only: false,
        properties: Vec::new(),
        others: vec![SchemaSlot::Item(SchemaShape {
            read_only: false,
            write_only: false,
            properties: vec![SchemaSlot::Item(SchemaShape {
                read_only: false,
                write_only: true,
                properties: Vec::new(),
                others: Vec::new(),
            })],
            others: Vec::new(),
        })],
    };
    let entries = vec![
        entry("Deep", SchemaSlot::Item(inner)),
        entry("Middle", SchemaSlot::Item(SchemaShape {
            read_only: false,
            write_only: false,
            properties: Vec::new(),
            others: vec![reference("Deep")],
        })),
        entry("Top", SchemaSlot::Item(shape(false, vec![reference("Middle")]))),
        entry("Elsewhere", SchemaSlot::Item(shape(false, vec![SchemaSlot::Reference("other.yaml#/components/schemas/Deep".to_owned())]))),
    ];
    let split = split_of(&entries);
    assert_eq!(split.len(), 3);
    assert!(holds(&split, "Deep") && holds(&split, "Middle") && holds(&split, "Top"));
    assert!(!holds(&split, "Elsewhere"), "a cross-file reference is not followed");
}

#[test]
fn a_reference_cycle_splits_each_member_once() {
    let entries = vec![
        entry("A", SchemaSlot::Item(shape(false, vec![reference("B"), SchemaSlot::Item(shape(true, vec![]))]))),
        entry("B", SchemaSlot::Item(shape(false, vec![reference("A")]))),
    ];
    let split = split_of(&entries);
    assert_eq!(split.len(), 2);
    assert!(holds(&split, "A") && holds(&split, "B"));
}

#[test]
fn no_marks_split_nothing() {
    let entries = vec![entry("A", SchemaSlot::Item(shape(false, vec![reference("B")]))), entry("B", reference("A"))];
    assert!(split_of(&entries).is_empty());
}
