//! What the generator reads of an OpenAPI document once it has passed the
//! checks: its component schemas, its operations, and how many paths and
//! servers it declares.

use vstd::prelude::*;

use openapiv3::AdditionalProperties;
use openapiv3::AnySchema;
use openapiv3::OpenAPI;
use openapiv3::PathItem;
use openapiv3::ReferenceOr;
use openapiv3::Schema;
use openapiv3::SchemaKind;
use openapiv3::Type;

use crate::config::OutputOptions;
use crate::console::SpecStats;
use crate::emit::foreign::contains_name;
use crate::error::Error;
use crate::text::owned;
use crate::filter::OperationInfo;
use crate::filter::filter_operations;
use crate::filter::kept_slot;
use crate::graph::views;
use crate::loader::split::SchemaEntry;
use crate::loader::split::SchemaShape;
use crate::loader::split::SchemaSlot;
use crate::loader::split::direction_split_schemas;
use crate::loader::split::split_names;

verus! {

/// `openapiv3::OpenAPI`, carried opaquely from the parser to the conversion.
#[verifier::external_type_specification]
#[verifier::external_body]
pub struct ExOpenApi(OpenAPI);

/// `openapiv3::PathItem`, carried opaquely.
#[verifier::external_type_specification]
#[verifier::external_body]
pub struct ExPathItem(PathItem);

/// `openapiv3::Schema`, carried opaquely.
#[verifier::external_type_specification]
#[verifier::external_body]
pub struct ExSchema(Schema);

/// `openapiv3::SchemaKind`, carried opaquely.
#[verifier::external_type_specification]
#[verifier::external_body]
pub struct ExSchemaKind(SchemaKind);

/// `openapiv3::AnySchema`, carried opaquely.
#[verifier::external_type_specification]
#[verifier::external_body]
pub struct ExAnySchema(AnySchema);

/// `openapiv3::AdditionalProperties`, carried opaquely.
#[verifier::external_type_specification]
#[verifier::external_body]
pub struct ExAdditionalProperties(AdditionalProperties);

/// `openapiv3::ReferenceOr`, carried opaquely.
#[verifier::external_type_specification]
#[verifier::external_body]
#[verifier::reject_recursive_types(T)]
pub struct ExReferenceOr<T>(ReferenceOr<T>);

/// An OpenAPI document as the generator reads it.
#[derive(Debug)]
pub struct SpecModel {
    /// The `components.schemas` entries, in document order.
    pub schemas: Vec<SchemaEntry>,
    /// The operation slots of every path item, path by path, each path item
    /// holding eight (`get`, `put`, `post`, `delete`, `options`, `head`,
    /// `patch`, `trace`; an empty slot declares no operation). A path item
    /// that is a `$ref` holds none.
    pub path_items: Vec<Vec<Option<OperationInfo>>>,
    /// How many top-level `servers` the document declares.
    pub servers: usize,
}

/// The model a text parses to as OpenAPI 3, or the parser's message: what
/// `serde_yaml::from_str::<openapiv3::OpenAPI>` gives, converted.
pub uninterp spec fn openapi_parse(text: Seq<char>) -> Result<SpecModel, Seq<char>>;

/// A schema position as the library reads it, variant by variant.
#[verifier::external_body]
fn slot_of(entry: &ReferenceOr<Schema>) -> SchemaSlot {
    match entry {
        ReferenceOr::Item(schema) => SchemaSlot::Item(shape_of(schema)),
        ReferenceOr::Reference { reference } => SchemaSlot::Reference(reference.clone()),
    }
}

/// A boxed schema position as the library reads it, variant by variant.
#[verifier::external_body]
fn boxed_slot_of(entry: &ReferenceOr<Box<Schema>>) -> SchemaSlot {
    match entry {
        ReferenceOr::Item(schema) => SchemaSlot::Item(shape_of(schema)),
        ReferenceOr::Reference { reference } => SchemaSlot::Reference(reference.clone()),
    }
}

/// The schema an `additionalProperties` holds, as a list of none or one.
#[verifier::external_body]
fn additional_of(entry: &Option<AdditionalProperties>) -> Vec<SchemaSlot> {
    match entry {
        Some(AdditionalProperties::Schema(inner)) => vec![slot_of(inner)],
        Some(AdditionalProperties::Any(_)) | None => Vec::new(),
    }
}

/// The properties and the other schemas an untyped schema holds in place.
#[verifier::external_body]
fn any_members(any: &AnySchema) -> (Vec<SchemaSlot>, Vec<SchemaSlot>) {
    let mut others = additional_of(&any.additional_properties);
    others.extend(any.items.iter().map(boxed_slot_of));
    others.extend(any.one_of.iter().chain(&any.all_of).chain(&any.any_of).map(slot_of));
    others.extend(any.not.iter().map(|not| slot_of(not)));
    (any.properties.values().map(boxed_slot_of).collect(), others)
}

/// The properties and the other schemas a schema holds in place, kind by kind.
#[verifier::external_body]
fn kind_members(kind: &SchemaKind) -> (Vec<SchemaSlot>, Vec<SchemaSlot>) {
    match kind {
        SchemaKind::Type(Type::Object(o)) => (o.properties.values().map(boxed_slot_of).collect(), additional_of(&o.additional_properties)),
        SchemaKind::Type(Type::Array(a)) => (Vec::new(), a.items.iter().map(boxed_slot_of).collect()),
        SchemaKind::Type(_) => (Vec::new(), Vec::new()),
        SchemaKind::OneOf { one_of: v } | SchemaKind::AllOf { all_of: v } | SchemaKind::AnyOf { any_of: v } => (Vec::new(), v.iter().map(slot_of).collect()),
        SchemaKind::Not { not } => (Vec::new(), vec![slot_of(not)]),
        SchemaKind::Any(any) => any_members(any),
    }
}

/// An `openapiv3` schema as the library reads it: its marks and what it holds.
#[verifier::external_body]
fn shape_of(schema: &Schema) -> SchemaShape {
    let (properties, others) = kind_members(&schema.schema_kind);
    SchemaShape { read_only: schema.schema_data.read_only, write_only: schema.schema_data.write_only, properties, others }
}

/// The eight operation slots of a path item, each what the filters read of
/// its operation; a `$ref` path item has none.
#[verifier::external_body]
fn slots_of(entry: &ReferenceOr<PathItem>) -> Vec<Option<OperationInfo>> {
    match entry {
        ReferenceOr::Item(i) => [&i.get, &i.put, &i.post, &i.delete, &i.options, &i.head, &i.patch, &i.trace]
            .map(|op| op.as_ref().map(|o| OperationInfo { tags: o.tags.clone(), operation_id: o.operation_id.clone() }))
            .to_vec(),
        ReferenceOr::Reference { .. } => Vec::new(),
    }
}

/// An `openapiv3` document as the library reads it, field by field.
#[verifier::external_body]
fn model_of(doc: &OpenAPI) -> SpecModel {
    let schemas = doc.components.iter().flat_map(|c| c.schemas.iter());
    SpecModel {
        schemas: schemas.map(|(name, entry)| SchemaEntry { name: name.clone(), schema: slot_of(entry) }).collect(),
        path_items: doc.paths.paths.values().map(slots_of).collect(),
        servers: doc.servers.len(),
    }
}

/// Parses a document's text with `serde_yaml::from_str::<openapiv3::OpenAPI>`
/// and converts what it gives; on failure, the error's `Display` text. The
/// contract claims only that the outcome is a function of the text.
#[verifier::external_body]
fn parse_openapi(text: &str) -> (r: Result<SpecModel, String>)
    ensures
        match r {
            Ok(m) => openapi_parse(text@) == Ok::<SpecModel, Seq<char>>(m),
            Err(e) => openapi_parse(text@) == Err::<SpecModel, Seq<char>>(e@),
        },
{
    match serde_yaml::from_str::<OpenAPI>(text) {
        Ok(doc) => Ok(model_of(&doc)),
        Err(e) => Err(e.to_string()),
    }
}

/// Parses a checked document's text as OpenAPI 3 and reads its model; a text
/// that does not parse is a [`Error::ParseSpec`] naming the document and
/// carrying the parser's message.
pub fn parse_spec(document: &str, text: &str) -> (r: Result<SpecModel, Error>)
    ensures
        match openapi_parse(text@) {
            Ok(m) => r == Ok::<SpecModel, Error>(m),
            Err(message) => r matches Err(Error::ParseSpec { path, source }) && path@ == document@ && source@
                == message,
        },
{
    match parse_openapi(text) {
        Ok(m) => Ok(m),
        Err(message) => Err(Error::ParseSpec { path: owned(document), source: message }),
    }
}

/// The entries whose name `exclude` does not hold, in their order.
pub open spec fn kept_entries(s: Seq<SchemaEntry>, exclude: Seq<Seq<char>>) -> Seq<SchemaEntry>
    decreases s.len(),
{
    if s.len() == 0 {
        Seq::empty()
    } else {
        (if exclude.contains(s[0].name@) {
            Seq::empty()
        } else {
            seq![s[0]]
        }) + kept_entries(s.skip(1), exclude)
    }
}

impl SpecModel {
    /// The counts that explain an empty output: how many component schemas,
    /// paths and top-level servers the document holds.
    pub fn stats(&self) -> (r: SpecStats)
        ensures
            r.schemas == self.schemas@.len(),
            r.paths == self.path_items@.len(),
            r.servers == self.servers,
    {
        SpecStats { schemas: self.schemas.len(), paths: self.path_items.len(), servers: self.servers }
    }

    /// The component schemas the direction pass splits.
    pub fn split_schemas(&self) -> (split: Vec<String>)
        ensures
            views(split@).no_duplicates(),
            views(split@).to_set() == split_names(self.schemas@),
    {
        direction_split_schemas(&self.schemas)
    }

    /// Applies the configured filters in place: every operation slot that the
    /// operation filters drop is emptied, and every component schema whose
    /// name `exclude-schemas` lists leaves; paths, servers and the order of
    /// what stays are kept.
#[verifier::spinoff_prover]
    pub fn apply_filters(&mut self, opts: &OutputOptions)
        ensures
            final(self).servers == old(self).servers,
            final(self).schemas@ == kept_entries(old(self).schemas@, views(opts.exclude_schemas@)),
            final(self).path_items@.len() == old(self).path_items@.len(),
            forall|p: int| 0 <= p < old(self).path_items@.len() ==> {
                let before = #[trigger] old(self).path_items@[p]@;
                &&& final(self).path_items@[p]@.len() == before.len()
                &&& forall|i: int| 0 <= i < before.len() ==> #[trigger] final(self).path_items@[p]@[i] == kept_slot(before[i], *opts)
            },
    {
        let mut items: Vec<Vec<Option<OperationInfo>>> = Vec::new();
        std::mem::swap(&mut items, &mut self.path_items);
        let ghost orig = items@;
        let count: usize = items.len();
        assert(orig.len() == count);
        let mut done: Vec<Vec<Option<OperationInfo>>> = Vec::new();
        let mut k: usize = 0;
        while items.len() > 0
            invariant
                orig.len() <= usize::MAX,
                k + items@.len() == orig.len(),
                done@.len() == k,
                items@ == orig.skip(k as int),
                forall|p: int| 0 <= p < k ==> {
                    let before = #[trigger] orig[p]@;
                    &&& done@[p]@.len() == before.len()
                    &&& forall|i: int| 0 <= i < before.len() ==> #[trigger] done@[p]@[i] == kept_slot(before[i], *opts)
                },
            decreases items@.len(),
        {
            let mut slots = items.remove(0);
            filter_operations(&mut slots, opts);
            done.push(slots);
            k = k + 1;
            assert(items@ =~= orig.skip(k as int));
        }
        self.path_items = done;
        let mut entries: Vec<SchemaEntry> = Vec::new();
        std::mem::swap(&mut entries, &mut self.schemas);
        self.schemas = exclude_entries(entries, &opts.exclude_schemas);
    }
}

/// The entries whose name `exclude` does not list, in their order.
fn exclude_entries(entries: Vec<SchemaEntry>, exclude: &Vec<String>) -> (kept: Vec<SchemaEntry>)
    ensures
        kept@ == kept_entries(entries@, views(exclude@)),
{
    let ghost orig = entries@;
    let mut rest = entries;
    let mut kept: Vec<SchemaEntry> = Vec::new();
    while rest.len() > 0
        invariant
            kept@ + kept_entries(rest@, views(exclude@)) == kept_entries(orig, views(exclude@)),
        decreases rest@.len(),
    {
        let ghost before = rest@;
        let e = rest.remove(0);
        assert(rest@ =~= before.skip(1));
        let drop = contains_name(exclude, &e.name);
        if !drop {
            kept.push(e);
        }
        assert(kept@ + kept_entries(rest@, views(exclude@)) =~= kept_entries(orig, views(exclude@)));
    }
    assert(kept@ + kept_entries(rest@, views(exclude@)) =~= kept@);
    kept
}

} // verus!
