//! Intermediate representation (IR) of generated Rust types.
//!
//! Lowering turns OpenAPI schemas and operations into this IR, and emission
//! turns the IR into Rust source. Keeping the two apart makes the mapping logic
//! testable without touching token generation.
//!
//! A number that the document writes as a float (a `number` bound or default)
//! is held as its IEEE-754 bit pattern: nothing in the library computes with
//! it, and the bits carry it to emission unchanged.

use vstd::prelude::*;

use crate::naming::RustIdent;
use crate::text::owned;
use crate::text::push_char;
use crate::text::push_str;

verus! {

/// A generated Rust source module: an ordered list of top-level items.
#[derive(Debug, Clone, PartialEq)]
pub struct Module {
    /// Top-level type declarations, in deterministic emission order.
    pub items: Vec<Item>,
}

/// A top-level item declaration.
#[derive(Debug, Clone, PartialEq)]
pub enum Item {
    /// A `struct` declaration.
    Struct(Struct),
    /// An `enum` declaration (string enum, integer enum, or union).
    Enum(Enum),
    /// A `type X = Y;` alias.
    Alias(Alias),
}

/// The declared name of an item.
pub open spec fn item_name(item: Item) -> Seq<char> {
    match item {
        Item::Struct(s) => s.name@,
        Item::Enum(e) => e.name@,
        Item::Alias(a) => a.name@,
    }
}

impl Item {
    /// The declared name of the item, used for stable ordering.
    pub fn name(&self) -> (r: &str)
        ensures
            r@ == item_name(*self),
    {
        match self {
            Item::Struct(s) => s.name.logical(),
            Item::Enum(e) => e.name.logical(),
            Item::Alias(a) => a.name.logical(),
        }
    }
}

/// A generated `struct`.
#[derive(Debug, Clone, PartialEq)]
pub struct Struct {
    /// Type name.
    pub name: RustIdent,
    /// Doc comment derived from the schema `description`.
    pub doc: Option<String>,
    /// `#[deprecated]` annotation from `deprecated: true`.
    pub deprecated: Option<Deprecation>,
    /// Named fields, in deterministic order.
    pub fields: Vec<Field>,
    /// When set, the struct captures unknown keys into a flattened map of this
    /// element type (`additionalProperties`).
    pub additional_properties: Option<RustType>,
    /// Whether the schema set `additionalProperties: false`, which becomes
    /// `#[serde(deny_unknown_fields)]`.
    pub deny_unknown_fields: bool,
}

/// A single struct field.
#[derive(Debug, Clone, PartialEq)]
pub struct Field {
    /// Rust field identifier.
    pub name: RustIdent,
    /// `#[serde(rename = "...")]` value, when the wire name differs.
    pub rename: Option<String>,
    /// Doc comment derived from the property `description`.
    pub doc: Option<String>,
    /// `#[deprecated]` annotation.
    pub deprecated: Option<Deprecation>,
    /// Field type (already wrapped in `Option<..>` when optional).
    pub ty: RustType,
    /// Whether the property is required.
    pub required: bool,
    /// `x-omitempty` override of `skip_serializing_if`.
    pub omit_empty: Option<bool>,
    /// `x-rust-serde-skip`: drop the field from (de)serialization.
    pub serde_skip: bool,
    /// The value that serde uses when the property is absent, from `default`.
    pub default: Option<DefaultValue>,
    /// The validation keywords the property declares, when it declares any.
    pub constraints: Option<Constraints>,
}

/// A numeric bound, in the form the document writes it.
#[derive(Debug, Clone, Copy, PartialEq, Eq)]
pub enum Bound {
    /// A bound on an `integer` schema.
    Int(i64),
    /// A bound on a `number` schema, as the bit pattern of its `f64`.
    Float(u64),
}

/// The validation keywords a schema declares.
#[derive(Debug, Clone, PartialEq)]
pub struct Constraints {
    /// `pattern`: the value must match this regular expression.
    pub pattern: Option<String>,
    /// `minLength`, counted in characters.
    pub min_length: Option<usize>,
    /// `maxLength`, counted in characters.
    pub max_length: Option<usize>,
    /// `minimum`.
    pub minimum: Option<Bound>,
    /// `maximum`.
    pub maximum: Option<Bound>,
    /// `exclusiveMinimum`: makes `minimum` a strict bound.
    pub exclusive_minimum: bool,
    /// `exclusiveMaximum`: makes `maximum` a strict bound.
    pub exclusive_maximum: bool,
    /// `multipleOf`.
    pub multiple_of: Option<Bound>,
    /// `minItems`.
    pub min_items: Option<usize>,
    /// `maxItems`.
    pub max_items: Option<usize>,
    /// `uniqueItems`.
    pub unique_items: bool,
    /// `minProperties`.
    pub min_properties: Option<usize>,
    /// `maxProperties`.
    pub max_properties: Option<usize>,
    /// The type the checks run against, when the field names an alias.
    pub checked_as: Option<RustType>,
}

/// Whether a set of keywords declares nothing at all.
pub open spec fn constraints_empty(c: Constraints) -> bool {
    &&& c.pattern is None
    &&& c.min_length is None
    &&& c.max_length is None
    &&& c.minimum is None
    &&& c.maximum is None
    &&& !c.exclusive_minimum
    &&& !c.exclusive_maximum
    &&& c.multiple_of is None
    &&& c.min_items is None
    &&& c.max_items is None
    &&& !c.unique_items
    &&& c.min_properties is None
    &&& c.max_properties is None
    &&& c.checked_as is None
}

impl Constraints {
    /// The empty keyword set.
    pub fn none() -> (r: Constraints)
        ensures
            constraints_empty(r),
    {
        Constraints {
            pattern: None,
            min_length: None,
            max_length: None,
            minimum: None,
            maximum: None,
            exclusive_minimum: false,
            exclusive_maximum: false,
            multiple_of: None,
            min_items: None,
            max_items: None,
            unique_items: false,
            min_properties: None,
            max_properties: None,
            checked_as: None,
        }
    }

    /// Whether the schema declares no keyword at all.
    pub fn is_empty(&self) -> (r: bool)
        ensures
            r == constraints_empty(*self),
    {
        self.pattern.is_none() && self.min_length.is_none() && self.max_length.is_none()
            && self.minimum.is_none() && self.maximum.is_none() && !self.exclusive_minimum
            && !self.exclusive_maximum && self.multiple_of.is_none() && self.min_items.is_none()
            && self.max_items.is_none() && !self.unique_items && self.min_properties.is_none()
            && self.max_properties.is_none() && self.checked_as.is_none()
    }
}

/// The value that serde uses when a property is absent.
#[derive(Debug, Clone, PartialEq)]
pub enum DefaultValue {
    /// A string literal.
    Str(String),
    /// An integer literal.
    Int(i64),
    /// A floating-point literal, as the bit pattern of its `f64`.
    Float(u64),
    /// A `bool` literal.
    Bool(bool),
    /// A unit variant of a generated string enum, named by its identifier.
    Variant(RustIdent),
    /// An empty collection.
    Empty,
}

/// A generated `enum`.
#[derive(Debug, Clone, PartialEq)]
pub struct Enum {
    /// Type name.
    pub name: RustIdent,
    /// Doc comment derived from the schema `description`.
    pub doc: Option<String>,
    /// `#[deprecated]` annotation.
    pub deprecated: Option<Deprecation>,
    /// The flavour of enum to emit.
    pub kind: EnumKind,
}

/// The flavour of a generated enum.
#[derive(Debug, Clone, PartialEq)]
pub enum EnumKind {
    /// A C-like string enum: unit variants mapped to wire strings.
    Strings(Vec<StringVariant>),
    /// A C-like integer enum: unit variants with explicit discriminants.
    Integers {
        /// The integer type the discriminants take, either `i32` or `i64`.
        repr: RustType,
        /// The permitted values, in document order.
        variants: Vec<IntegerVariant>,
    },
    /// A `#[serde(untagged)]` union over the given newtype variants.
    Union(Vec<UnionVariant>),
}

/// A unit variant of a string enum.
#[derive(Debug, Clone, PartialEq)]
pub struct StringVariant {
    /// Rust variant identifier.
    pub name: RustIdent,
    /// `#[serde(rename = "...")]` value, when the wire value differs.
    pub rename: Option<String>,
    /// Doc comment, if any.
    pub doc: Option<String>,
}

/// A unit variant of an integer enum.
#[derive(Debug, Clone, PartialEq)]
pub struct IntegerVariant {
    /// Rust variant identifier.
    pub name: RustIdent,
    /// The discriminant, and the value on the wire.
    pub value: i64,
    /// Doc comment, if any.
    pub doc: Option<String>,
}

/// A newtype variant of a union enum.
#[derive(Debug, Clone, PartialEq)]
pub struct UnionVariant {
    /// Rust variant identifier.
    pub name: RustIdent,
    /// The wrapped type.
    pub ty: RustType,
}

/// A generated `type X = Y;` alias.
#[derive(Debug, Clone, PartialEq)]
pub struct Alias {
    /// Alias name.
    pub name: RustIdent,
    /// Doc comment, if any.
    pub doc: Option<String>,
    /// `#[deprecated]` annotation.
    pub deprecated: Option<Deprecation>,
    /// Aliased type.
    pub ty: RustType,
}

/// A `#[deprecated]` annotation, optionally carrying `x-deprecated-reason`.
#[derive(Debug, Clone, PartialEq)]
pub struct Deprecation {
    /// The `x-deprecated-reason` text, emitted as `#[deprecated(note = "...")]`.
    pub note: Option<String>,
}

/// Which of `Debug`, `Clone`, and `PartialEq` a foreign (`x-rust-type`) type
/// implements, as `x-rust-derive` declares it.
///
/// The default claims all three.
#[derive(Debug, Clone, Copy, PartialEq, Eq, Structural)]
pub struct ForeignDerives {
    /// The target implements `Debug`.
    pub debug: bool,
    /// The target implements `Clone`.
    pub clone: bool,
    /// The target implements `PartialEq`.
    pub partial_eq: bool,
}

/// All three traits.
pub open spec fn all_derives() -> ForeignDerives {
    ForeignDerives { debug: true, clone: true, partial_eq: true }
}

/// The traits both `a` and `b` allow.
pub open spec fn meet(a: ForeignDerives, b: ForeignDerives) -> ForeignDerives {
    ForeignDerives {
        debug: a.debug && b.debug,
        clone: a.clone && b.clone,
        partial_eq: a.partial_eq && b.partial_eq,
    }
}

impl Default for ForeignDerives {
    fn default() -> (r: Self)
        ensures
            r == all_derives(),
    {
        ForeignDerives { debug: true, clone: true, partial_eq: true }
    }
}

impl ForeignDerives {
    /// All three traits, the claim a target makes when `x-rust-derive` is absent.
    pub fn all() -> (r: Self)
        ensures
            r == all_derives(),
    {
        ForeignDerives { debug: true, clone: true, partial_eq: true }
    }

    /// Whether this target satisfies all three traits, and so constrains nothing.
    pub fn is_unconstrained(self) -> (r: bool)
        ensures
            r == (self == all_derives()),
    {
        self.debug && self.clone && self.partial_eq
    }

    /// Narrow to the traits both `self` and `other` satisfy.
    pub fn intersect(self, other: Self) -> (r: Self)
        ensures
            r == meet(self, other),
    {
        ForeignDerives {
            debug: self.debug && other.debug,
            clone: self.clone && other.clone,
            partial_eq: self.partial_eq && other.partial_eq,
        }
    }
}

/// A Rust type expression usable in field/alias position.
#[derive(Debug, PartialEq, Eq)]
pub enum RustType {
    /// `bool`.
    Bool,
    /// `i32`.
    I32,
    /// `i64`.
    I64,
    /// `f64`.
    F64,
    /// `String`.
    String,
    /// `serde_json::Value` (free-form / empty schema).
    Value,
    /// `chrono::NaiveDate` (`format: date`).
    Date,
    /// `chrono::DateTime<chrono::Utc>` (`format: date-time`).
    DateTime,
    /// `uuid::Uuid` (`format: uuid`).
    Uuid,
    /// `Vec<u8>` (`format: byte`/`binary`).
    Bytes,
    /// `Vec<T>`.
    Vec(Box<RustType>),
    /// `std::collections::HashMap<String, T>`.
    HashMap(Box<RustType>),
    /// `Option<T>`.
    Option(Box<RustType>),
    /// `Box<T>`, added to give a cyclic type a size.
    Boxed(Box<RustType>),
    /// A reference to a named (generated or external) type.
    Named(String),
    /// A reference to a type from an import-mapped module: `module::Name`.
    External { module: String, name: String },
    /// A verbatim type expression from an `x-rust-type` extension, with what its
    /// `x-rust-derive` says the target implements.
    Verbatim {
        /// The Rust type expression, emitted as written.
        text: String,
        /// Which of `Debug`, `Clone`, `PartialEq` the target satisfies.
        derives: ForeignDerives,
    },
}

impl Clone for RustType {
    fn clone(&self) -> (r: Self)
        ensures
            r == *self,
        decreases self,
    {
        match self {
            RustType::Bool => RustType::Bool,
            RustType::I32 => RustType::I32,
            RustType::I64 => RustType::I64,
            RustType::F64 => RustType::F64,
            RustType::String => RustType::String,
            RustType::Value => RustType::Value,
            RustType::Date => RustType::Date,
            RustType::DateTime => RustType::DateTime,
            RustType::Uuid => RustType::Uuid,
            RustType::Bytes => RustType::Bytes,
            RustType::Vec(inner) => RustType::Vec(Box::new((**inner).clone())),
            RustType::HashMap(inner) => RustType::HashMap(Box::new((**inner).clone())),
            RustType::Option(inner) => RustType::Option(Box::new((**inner).clone())),
            RustType::Boxed(inner) => RustType::Boxed(Box::new((**inner).clone())),
            RustType::Named(name) => RustType::Named(name.clone()),
            RustType::External { module, name } => RustType::External {
                module: module.clone(),
                name: name.clone(),
            },
            RustType::Verbatim { text, derives } => RustType::Verbatim {
                text: text.clone(),
                derives: *derives,
            },
        }
    }
}

/// The type inside any `Option` or `Box` wrapper.
pub open spec fn innermost_of(t: RustType) -> RustType
    decreases t,
{
    match t {
        RustType::Option(inner) => innermost_of(*inner),
        RustType::Boxed(inner) => innermost_of(*inner),
        other => other,
    }
}

/// Whether a type is a scalar the generated code compares with `==`.
pub open spec fn scalar(t: RustType) -> bool {
    match t {
        RustType::Bool | RustType::I32 | RustType::I64 | RustType::F64 | RustType::String => true,
        _ => false,
    }
}

/// The type as Rust text.
pub open spec fn label_of(t: RustType) -> Seq<char>
    decreases t,
{
    match t {
        RustType::Bool => "bool"@,
        RustType::I32 => "i32"@,
        RustType::I64 => "i64"@,
        RustType::F64 => "f64"@,
        RustType::String => "String"@,
        RustType::Value => "serde_json::Value"@,
        RustType::Date => "chrono::NaiveDate"@,
        RustType::DateTime => "chrono::DateTime<chrono::Utc>"@,
        RustType::Uuid => "uuid::Uuid"@,
        RustType::Bytes => "Vec<u8>"@,
        RustType::Vec(inner) => "Vec<"@ + label_of(*inner) + ">"@,
        RustType::HashMap(inner) => "std::collections::HashMap<String, "@ + label_of(*inner) + ">"@,
        RustType::Option(inner) => "Option<"@ + label_of(*inner) + ">"@,
        RustType::Boxed(inner) => "Box<"@ + label_of(*inner) + ">"@,
        RustType::Named(name) => name@,
        RustType::External { module, name } => module@ + "::"@ + name@,
        RustType::Verbatim { text, .. } => text@,
    }
}

impl RustType {
    /// Wrap this type in `Option<..>`.
    pub fn optional(self) -> (r: RustType)
        ensures
            r == RustType::Option(Box::new(self)),
    {
        RustType::Option(Box::new(self))
    }

    /// Whether this type is an `Option<..>`.
    pub fn is_option(&self) -> (r: bool)
        ensures
            r == (*self is Option),
    {
        match self {
            RustType::Option(_) => true,
            _ => false,
        }
    }

    /// The type inside any `Option` or `Box` wrapper.
    ///
    /// A `Vec` and a `Map` are not wrappers here: each carries keywords of its own.
    pub fn innermost(&self) -> (r: &RustType)
        ensures
            *r == innermost_of(*self),
        decreases self,
    {
        match self {
            RustType::Option(inner) => inner.innermost(),
            RustType::Boxed(inner) => inner.innermost(),
            other => other,
        }
    }

    /// Whether this is a scalar the generated code compares with `==`.
    pub fn is_scalar(&self) -> (r: bool)
        ensures
            r == scalar(*self),
    {
        match self {
            RustType::Bool | RustType::I32 | RustType::I64 | RustType::F64 | RustType::String => true,
            _ => false,
        }
    }

    /// The type as text, for an error message.
    pub fn label(&self) -> (r: String)
        ensures
            r@ == label_of(*self),
        decreases self,
    {
        match self {
            RustType::Bool => owned("bool"),
            RustType::I32 => owned("i32"),
            RustType::I64 => owned("i64"),
            RustType::F64 => owned("f64"),
            RustType::String => owned("String"),
            RustType::Value => owned("serde_json::Value"),
            RustType::Date => owned("chrono::NaiveDate"),
            RustType::DateTime => owned("chrono::DateTime<chrono::Utc>"),
            RustType::Uuid => owned("uuid::Uuid"),
            RustType::Bytes => owned("Vec<u8>"),
            RustType::Vec(inner) => wrapped("Vec<", inner.label()),
            RustType::HashMap(inner) => wrapped("std::collections::HashMap<String, ", inner.label()),
            RustType::Option(inner) => wrapped("Option<", inner.label()),
            RustType::Boxed(inner) => wrapped("Box<", inner.label()),
            RustType::Named(name) => owned(name.as_str()),
            RustType::External { module, name } => {
                let mut s = owned(module.as_str());
                push_str(&mut s, "::");
                push_str(&mut s, name.as_str());
                s
            },
            RustType::Verbatim { text, .. } => owned(text.as_str()),
        }
    }

    /// An `x-rust-type` target whose `x-rust-derive` is absent, so it claims all
    /// three non-serde traits.
    pub fn verbatim(text: &str) -> (r: RustType)
        ensures
            r matches RustType::Verbatim { text: t, derives } && t@ == text@ && derives
                == all_derives(),
    {
        RustType::Verbatim { text: owned(text), derives: ForeignDerives::all() }
    }
}

/// `open`, then `inner`, then `>`.
fn wrapped(open: &str, inner: String) -> (r: String)
    ensures
        r@ == open@ + inner@ + ">"@,
{
    let mut s = owned(open);
    push_str(&mut s, inner.as_str());
    push_char(&mut s, '>');
    proof {
        reveal_strlit(">");
    }
    assert(s@ =~= open@ + inner@ + ">"@);
    s
}

/// A request or response body: its Rust type plus the wire content type.
#[derive(Debug, Clone, PartialEq)]
pub struct Body {
    /// The Rust type of the decoded body.
    pub ty: RustType,
    /// The content type that selects the extractor / response wrapper.
    pub kind: BodyKind,
}

/// The supported request/response content type for a [`Body`].
#[derive(Debug, Clone, Copy, PartialEq, Eq)]
pub enum BodyKind {
    /// `application/json` (and `+json` / charset variants).
    Json,
    /// `text/plain`.
    Text,
    /// `application/x-www-form-urlencoded`.
    Form,
    /// `multipart/form-data` (request bodies only).
    Multipart,
}

/// A `multipart/form-data` request body lowered into a per-operation extractor.
#[derive(Debug, Clone, PartialEq)]
pub struct Multipart {
    /// Struct name (`<Op>Multipart`).
    pub name: RustIdent,
    /// Fields parsed from the multipart stream, in declaration order.
    pub fields: Vec<MultipartField>,
}

/// A single field of a [`Multipart`] body.
#[derive(Debug, Clone, PartialEq)]
pub struct MultipartField {
    /// Wire field name (the part's `Content-Disposition` `name`).
    pub wire_name: String,
    /// Target struct field identifier.
    pub rust_name: RustIdent,
    /// The decoded field type, bare even when the field is optional.
    pub ty: RustType,
    /// Whether the generated struct wraps this field in `Option<..>`.
    pub optional: bool,
    /// Whether the part is a binary/file field read as raw bytes.
    pub is_file: bool,
}

/// An operation's request payload, when it declares one.
#[derive(Debug, Clone, PartialEq)]
pub enum RequestPayload {
    /// A single supported content type.
    Single(Body),
    /// A `multipart/form-data` body.
    Multipart(Multipart),
    /// Several supported content types, dispatched on `Content-Type`.
    Negotiated(NegotiatedBody),
}

/// A body offering several content-type representations.
#[derive(Debug, Clone, PartialEq)]
pub struct NegotiatedBody {
    /// Enum name.
    pub name: RustIdent,
    /// One variant per supported content type, in priority order.
    pub variants: Vec<BodyVariant>,
}

/// One content-type representation within a [`NegotiatedBody`].
#[derive(Debug, Clone, PartialEq)]
pub struct BodyVariant {
    /// Variant identifier, named after the content kind.
    pub variant: RustIdent,
    /// The decoded body type and content kind for this representation.
    pub body: Body,
}

/// The body of a response variant, when it declares supported content.
#[derive(Debug, Clone, PartialEq)]
pub enum ResponseBody {
    /// A single supported content type.
    Single(Body),
    /// Several supported content types the handler chooses among.
    Negotiated(NegotiatedBody),
}

/// A generated server interface: the operations and the schemes they use.
#[derive(Debug, Clone, PartialEq)]
pub struct Service {
    /// Operations in deterministic (document) order.
    pub operations: Vec<Operation>,
    /// Security schemes referenced by at least one operation.
    pub security_schemes: Vec<SecurityScheme>,
}

/// A security scheme the client can apply to outgoing requests.
#[derive(Debug, Clone, PartialEq)]
pub struct SecurityScheme {
    /// The scheme's key in `components.securitySchemes`.
    pub key: String,
    /// `snake_case` base name for the credential field and its setter.
    pub field: RustIdent,
    /// How the credential is carried on the request.
    pub kind: SecuritySchemeKind,
    /// Doc comment derived from the scheme's `description`.
    pub doc: Option<String>,
}

/// How a [`SecurityScheme`]'s credential is applied to a request.
#[derive(Debug, Clone, PartialEq)]
pub enum SecuritySchemeKind {
    /// `type: http, scheme: bearer`.
    HttpBearer,
    /// `type: http, scheme: basic`.
    HttpBasic,
    /// `type: apiKey, in: header`, with the header name.
    ApiKeyHeader(String),
    /// `type: apiKey, in: query`, with the parameter name.
    ApiKeyQuery(String),
    /// `type: apiKey, in: cookie`, with the cookie name.
    ApiKeyCookie(String),
    /// A scheme the client cannot carry, with the reason.
    Unsupported(String),
}

/// A single HTTP operation lowered for code generation.
#[derive(Debug, Clone, PartialEq)]
pub struct Operation {
    /// `Api` trait method name (`snake_case`).
    pub name: RustIdent,
    /// Per-operation response enum name.
    pub response_enum: RustIdent,
    /// Doc comment derived from the operation `summary`/`description`.
    pub doc: Option<String>,
    /// Lowercase HTTP method verb.
    pub method: String,
    /// Request path template.
    pub path: String,
    /// Typed path parameters, in path order.
    pub path_params: Vec<Param>,
    /// Generated query-parameter struct, when the operation declares any.
    pub query: Option<Struct>,
    /// Generated header-parameter struct, when the operation declares any.
    pub headers: Option<Headers>,
    /// Generated cookie-parameter struct, when the operation declares any.
    pub cookies: Option<Cookies>,
    /// Request payload, when the operation declares a request body.
    pub request: Option<RequestPayload>,
    /// Response variants, in declaration order.
    pub responses: Vec<ResponseCase>,
    /// Keys of the security schemes this operation applies.
    pub security: Vec<String>,
}

/// A typed operation parameter.
#[derive(Debug, Clone, PartialEq)]
pub struct Param {
    /// Rust argument identifier.
    pub name: RustIdent,
    /// Parameter type.
    pub ty: RustType,
}

/// A generated per-operation header struct.
#[derive(Debug, Clone, PartialEq)]
pub struct Headers {
    /// Struct name (`<Op>Headers`).
    pub name: RustIdent,
    /// Header fields, in declaration order.
    pub params: Vec<HeaderParam>,
}

/// A single header parameter within a [`Headers`] struct.
#[derive(Debug, Clone, PartialEq)]
pub struct HeaderParam {
    /// Rust field identifier (`snake_case`).
    pub name: RustIdent,
    /// The exact OpenAPI header name.
    pub header_name: String,
    /// The parsed scalar type, bare even when the header is optional.
    pub ty: RustType,
    /// Whether the header is required.
    pub required: bool,
    /// Doc comment derived from the parameter `description`.
    pub doc: Option<String>,
}

/// A generated per-operation cookie struct.
#[derive(Debug, Clone, PartialEq)]
pub struct Cookies {
    /// Struct name (`<Op>Cookies`).
    pub name: RustIdent,
    /// Cookie fields, in declaration order.
    pub params: Vec<CookieParam>,
}

/// A single cookie parameter within a [`Cookies`] struct.
#[derive(Debug, Clone, PartialEq)]
pub struct CookieParam {
    /// Rust field identifier (`snake_case`).
    pub name: RustIdent,
    /// The exact OpenAPI cookie name.
    pub cookie_name: String,
    /// The parsed scalar type, bare even when optional.
    pub ty: RustType,
    /// Whether the cookie is required.
    pub required: bool,
    /// Doc comment derived from the parameter `description`.
    pub doc: Option<String>,
}

/// One arm of an operation's response enum.
#[derive(Debug, Clone, PartialEq)]
pub struct ResponseCase {
    /// Variant identifier.
    pub variant: RustIdent,
    /// How the variant's HTTP status code is determined.
    pub status: ResponseStatus,
    /// Response body, when the response declares supported content.
    pub body: Option<ResponseBody>,
    /// Declared response headers, in declaration order.
    pub headers: Vec<ResponseHeader>,
    /// Doc comment derived from the response `description`.
    pub doc: Option<String>,
}

/// A single declared response header.
#[derive(Debug, Clone, PartialEq)]
pub struct ResponseHeader {
    /// Rust field identifier (`snake_case`).
    pub name: RustIdent,
    /// Exact header name as written to the response.
    pub header_name: String,
    /// Scalar type, bare even when optional.
    pub ty: RustType,
    /// Whether the header is always written.
    pub required: bool,
    /// Doc comment derived from the header `description`.
    pub doc: Option<String>,
}

/// How a response variant's HTTP status code is produced.
#[derive(Debug, Clone, PartialEq, Eq)]
pub enum ResponseStatus {
    /// A concrete status code.
    Fixed(u16),
    /// The `default` catch-all response.
    Default,
    /// A status-code range such as `5XX`, carrying the leading digit.
    Range(u8),
}

/// The lowered `servers:` block.
#[derive(Debug, Clone, PartialEq)]
pub struct ServerUrls {
    /// Enum types for the enum-constrained server variables.
    pub enums: Vec<ServerUrlEnum>,
    /// One entry per declared server, in document order.
    pub servers: Vec<ServerUrl>,
}

/// A single lowered server URL: either a constant or a builder function.
#[derive(Debug, Clone, PartialEq)]
pub enum ServerUrl {
    /// A server URL with no variables.
    Const(ServerUrlConst),
    /// A server URL with `{placeholder}`s.
    Builder(ServerUrlBuilder),
}

/// A variable-free server URL emitted as a string constant.
#[derive(Debug, Clone, PartialEq)]
pub struct ServerUrlConst {
    /// `SCREAMING_SNAKE_CASE` constant name.
    pub name: RustIdent,
    /// Doc comment derived from the server `description`.
    pub doc: Option<String>,
    /// The literal server URL.
    pub url: String,
}

/// A server URL with `{placeholder}`s emitted as a builder function.
#[derive(Debug, Clone, PartialEq)]
pub struct ServerUrlBuilder {
    /// `snake_case` function name.
    pub name: RustIdent,
    /// Doc comment derived from the server `description`.
    pub doc: Option<String>,
    /// The URL template, retaining its `{placeholder}` tokens.
    pub url_template: String,
    /// Parameters, sorted by placeholder name.
    pub params: Vec<ServerUrlParam>,
}

/// One parameter of a [`ServerUrlBuilder`], bound to a URL placeholder.
#[derive(Debug, Clone, PartialEq)]
pub struct ServerUrlParam {
    /// `snake_case` parameter identifier.
    pub ident: RustIdent,
    /// The placeholder name as it appears in the URL (without braces).
    pub placeholder: String,
    /// How the parameter is typed.
    pub ty: ServerUrlParamType,
}

/// The type of a [`ServerUrlParam`].
#[derive(Debug, Clone, PartialEq)]
pub enum ServerUrlParamType {
    /// A free-form `&str` parameter.
    Str,
    /// An enum-constrained parameter of the named [`ServerUrlEnum`] type.
    Enum(RustIdent),
}

/// An enum type generated for an enum-constrained server variable.
#[derive(Debug, Clone, PartialEq)]
pub struct ServerUrlEnum {
    /// `PascalCase` enum type name.
    pub name: RustIdent,
    /// Doc comment naming the server variable this enum constrains.
    pub doc: Option<String>,
    /// The permitted values, in declaration order.
    pub variants: Vec<ServerUrlEnumVariant>,
    /// The variant identifier used for the `Default` impl, when declared.
    pub default: Option<RustIdent>,
}

/// One variant of a [`ServerUrlEnum`]: a Rust identifier and its wire value.
#[derive(Debug, Clone, PartialEq)]
pub struct ServerUrlEnumVariant {
    /// `PascalCase` variant identifier.
    pub name: RustIdent,
    /// The wire value substituted into the URL.
    pub value: String,
}

} // verus!
