//! The OpenAPI 3.0 object keys, and the checks a document goes through before
//! typed deserialization.
//!
//! The sweep walks the document by object kind. A key the kind does not know
//! is a problem; a key the generator reads, or reads as an annotation, is
//! walked further; a key it cannot honour is a warning. Extensions are opaque,
//! and a reference's siblings are ignored with a warning.

use vstd::prelude::*;

use crate::diagnostic::Warning;
use crate::diagnostic::pointer;
use crate::diagnostic::pointer_text;
use crate::error::Error;
use crate::text::decimal;
use crate::text::decimal_string;
use crate::text::has_prefix;
use crate::text::has_sub;
use crate::text::owned;
use crate::text::push_str;
use crate::text::same_text;
use crate::yaml::Yaml;
use crate::yaml::untag;

verus! {

/// The deepest object nesting the sweep inspects.
pub const MAX_DEPTH: usize = 128;

/// The kind of OpenAPI object a value is read as.
#[derive(Debug, Clone, Copy, PartialEq, Eq, Structural)]
pub enum Context {
    /// A `Document` object.
    Document,
    /// A `Info` object.
    Info,
    /// A `Contact` object.
    Contact,
    /// A `License` object.
    License,
    /// A `Server` object.
    Server,
    /// A `ServerVariable` object.
    ServerVariable,
    /// A `Paths` object.
    Paths,
    /// A `PathItem` object.
    PathItem,
    /// A `Operation` object.
    Operation,
    /// A `Components` object.
    Components,
    /// A `Schema` object.
    Schema,
    /// A `PropertySchema` object.
    PropertySchema,
    /// A `Parameter` object.
    Parameter,
    /// A `Header` object.
    Header,
    /// A `RequestBody` object.
    RequestBody,
    /// A `Responses` object.
    Responses,
    /// A `Response` object.
    Response,
    /// A `MediaType` object.
    MediaType,
    /// A `Encoding` object.
    Encoding,
    /// A `Example` object.
    Example,
    /// A `Link` object.
    Link,
    /// A `Callback` object.
    Callback,
    /// A `SecurityScheme` object.
    SecurityScheme,
    /// A `OAuthFlows` object.
    OAuthFlows,
    /// A `OAuthFlow` object.
    OAuthFlow,
    /// A `ExternalDocs` object.
    ExternalDocs,
    /// A `Tag` object.
    Tag,
    /// A `Discriminator` object.
    Discriminator,
    /// A `Xml` object.
    Xml,
}

/// The name of an object kind, as messages write it.
pub open spec fn context_text(c: Context) -> Seq<char> {
    match c {
        Context::Document => "Document"@,
        Context::Info => "Info"@,
        Context::Contact => "Contact"@,
        Context::License => "License"@,
        Context::Server => "Server"@,
        Context::ServerVariable => "ServerVariable"@,
        Context::Paths => "Paths"@,
        Context::PathItem => "PathItem"@,
        Context::Operation => "Operation"@,
        Context::Components => "Components"@,
        Context::Schema => "Schema"@,
        Context::PropertySchema => "PropertySchema"@,
        Context::Parameter => "Parameter"@,
        Context::Header => "Header"@,
        Context::RequestBody => "RequestBody"@,
        Context::Responses => "Responses"@,
        Context::Response => "Response"@,
        Context::MediaType => "MediaType"@,
        Context::Encoding => "Encoding"@,
        Context::Example => "Example"@,
        Context::Link => "Link"@,
        Context::Callback => "Callback"@,
        Context::SecurityScheme => "SecurityScheme"@,
        Context::OAuthFlows => "OAuthFlows"@,
        Context::OAuthFlow => "OAuthFlow"@,
        Context::ExternalDocs => "ExternalDocs"@,
        Context::Tag => "Tag"@,
        Context::Discriminator => "Discriminator"@,
        Context::Xml => "Xml"@,
    }
}

/// The name of an object kind, as messages write it.
pub fn context_name(c: Context) -> (r: &'static str)
    ensures
        r@ == context_text(c),
{
    match c {
        Context::Document => "Document",
        Context::Info => "Info",
        Context::Contact => "Contact",
        Context::License => "License",
        Context::Server => "Server",
        Context::ServerVariable => "ServerVariable",
        Context::Paths => "Paths",
        Context::PathItem => "PathItem",
        Context::Operation => "Operation",
        Context::Components => "Components",
        Context::Schema => "Schema",
        Context::PropertySchema => "PropertySchema",
        Context::Parameter => "Parameter",
        Context::Header => "Header",
        Context::RequestBody => "RequestBody",
        Context::Responses => "Responses",
        Context::Response => "Response",
        Context::MediaType => "MediaType",
        Context::Encoding => "Encoding",
        Context::Example => "Example",
        Context::Link => "Link",
        Context::Callback => "Callback",
        Context::SecurityScheme => "SecurityScheme",
        Context::OAuthFlows => "OAuthFlows",
        Context::OAuthFlow => "OAuthFlow",
        Context::ExternalDocs => "ExternalDocs",
        Context::Tag => "Tag",
        Context::Discriminator => "Discriminator",
        Context::Xml => "Xml",
    }
}

/// How the value under a key is walked.
#[derive(Debug, Clone, Copy, PartialEq, Eq, Structural)]
pub enum Traversal {
    /// A value the sweep does not look inside.
    Literal,
    /// A schema object, or a boolean in its place.
    SchemaOrBool,
    /// One object of the given kind.
    Object(Context),
    /// A map from names to objects of the given kind.
    NameMap(Context),
    /// A list of objects of the given kind.
    Array(Context),
}

/// How the generator treats a key.
#[derive(Debug, Clone, Copy, PartialEq, Eq)]
pub enum Handling {
    /// The generator reads it.
    Read,
    /// The generator accepts it as documentation.
    Annotation,
    /// The generator cannot honour it, for the given reason.
    Unsupported(&'static str),
}

/// A catalogue entry: a key, how its value is walked, and how it is treated.
#[derive(Debug, Clone, Copy)]
pub struct Field {
    /// The key.
    pub name: &'static str,
    /// How the value under it is walked.
    pub traversal: Traversal,
    /// How the generator treats it.
    pub handling: Handling,
}

/// How the generator treats a key, as text.
pub enum HandlingSpec {
    Read,
    Annotation,
    Unsupported(Seq<char>),
}

/// A catalogue entry, as text: how the value is walked and how the key is treated.
pub struct FieldSpec {
    pub traversal: Traversal,
    pub handling: HandlingSpec,
}

/// The text of a catalogue entry.
pub open spec fn field_view(f: Option<Field>) -> Option<FieldSpec> {
    match f {
        Some(field) => Some(FieldSpec {
            traversal: field.traversal,
            handling: match field.handling {
                Handling::Read => HandlingSpec::Read,
                Handling::Annotation => HandlingSpec::Annotation,
                Handling::Unsupported(reason) => HandlingSpec::Unsupported(reason@),
            },
        }),
        None => None,
    }
}

/// The catalogue entry for `key` in an object of kind `context`: how the
/// value under the key is walked and how the generator treats the key.
pub open spec fn catalogue(context: Context, key: Seq<char>) -> Option<FieldSpec> {
    match context {
        Context::Document => if key == "openapi"@ { Some(FieldSpec { traversal: Traversal::Literal, handling: HandlingSpec::Read }) } else if key == "info"@ { Some(FieldSpec { traversal: Traversal::Object(Context::Info), handling: HandlingSpec::Annotation }) } else if key == "servers"@ { Some(FieldSpec { traversal: Traversal::Array(Context::Server), handling: HandlingSpec::Read }) } else if key == "paths"@ { Some(FieldSpec { traversal: Traversal::Object(Context::Paths), handling: HandlingSpec::Read }) } else if key == "components"@ { Some(FieldSpec { traversal: Traversal::Object(Context::Components), handling: HandlingSpec::Read }) } else if key == "security"@ { Some(FieldSpec { traversal: Traversal::Literal, handling: HandlingSpec::Read }) } else if key == "tags"@ { Some(FieldSpec { traversal: Traversal::Array(Context::Tag), handling: HandlingSpec::Annotation }) } else if key == "externalDocs"@ { Some(FieldSpec { traversal: Traversal::Object(Context::ExternalDocs), handling: HandlingSpec::Annotation }) } else { None },
        Context::Info => if key == "title"@ { Some(FieldSpec { traversal: Traversal::Literal, handling: HandlingSpec::Annotation }) } else if key == "description"@ { Some(FieldSpec { traversal: Traversal::Literal, handling: HandlingSpec::Annotation }) } else if key == "termsOfService"@ { Some(FieldSpec { traversal: Traversal::Literal, handling: HandlingSpec::Annotation }) } else if key == "contact"@ { Some(FieldSpec { traversal: Traversal::Object(Context::Contact), handling: HandlingSpec::Annotation }) } else if key == "license"@ { Some(FieldSpec { traversal: Traversal::Object(Context::License), handling: HandlingSpec::Annotation }) } else if key == "version"@ { Some(FieldSpec { traversal: Traversal::Literal, handling: HandlingSpec::Annotation }) } else { None },
        Context::Contact => if key == "name"@ { Some(FieldSpec { traversal: Traversal::Literal, handling: HandlingSpec::Annotation }) } else if key == "url"@ { Some(FieldSpec { traversal: Traversal::Literal, handling: HandlingSpec::Annotation }) } else if key == "email"@ { Some(FieldSpec { traversal: Traversal::Literal, handling: HandlingSpec::Annotation }) } else { None },
        Context::License => if key == "name"@ { Some(FieldSpec { traversal: Traversal::Literal, handling: HandlingSpec::Annotation }) } else if key == "url"@ { Some(FieldSpec { traversal: Traversal::Literal, handling: HandlingSpec::Annotation }) } else { None },
        Context::Server => if key == "url"@ { Some(FieldSpec { traversal: Traversal::Literal, handling: HandlingSpec::Read }) } else if key == "description"@ { Some(FieldSpec { traversal: Traversal::Literal, handling: HandlingSpec::Read }) } else if key == "variables"@ { Some(FieldSpec { traversal: Traversal::NameMap(Context::ServerVariable), handling: HandlingSpec::Read }) } else { None },
        Context::ServerVariable => if key == "enum"@ { Some(FieldSpec { traversal: Traversal::Literal, handling: HandlingSpec::Read }) } else if key == "default"@ { Some(FieldSpec { traversal: Traversal::Literal, handling: HandlingSpec::Read }) } else if key == "description"@ { Some(FieldSpec { traversal: Traversal::Literal, handling: HandlingSpec::Read }) } else { None },
        Context::Paths => None,
        Context::PathItem => if key == "summary"@ { Some(FieldSpec { traversal: Traversal::Literal, handling: HandlingSpec::Annotation }) } else if key == "description"@ { Some(FieldSpec { traversal: Traversal::Literal, handling: HandlingSpec::Annotation }) } else if key == "get"@ { Some(FieldSpec { traversal: Traversal::Object(Context::Operation), handling: HandlingSpec::Read }) } else if key == "put"@ { Some(FieldSpec { traversal: Traversal::Object(Context::Operation), handling: HandlingSpec::Read }) } else if key == "post"@ { Some(FieldSpec { traversal: Traversal::Object(Context::Operation), handling: HandlingSpec::Read }) } else if key == "delete"@ { Some(FieldSpec { traversal: Traversal::Object(Context::Operation), handling: HandlingSpec::Read }) } else if key == "options"@ { Some(FieldSpec { traversal: Traversal::Object(Context::Operation), handling: HandlingSpec::Read }) } else if key == "head"@ { Some(FieldSpec { traversal: Traversal::Object(Context::Operation), handling: HandlingSpec::Read }) } else if key == "patch"@ { Some(FieldSpec { traversal: Traversal::Object(Context::Operation), handling: HandlingSpec::Read }) } else if key == "trace"@ { Some(FieldSpec { traversal: Traversal::Object(Context::Operation), handling: HandlingSpec::Read }) } else if key == "servers"@ { Some(FieldSpec { traversal: Traversal::Array(Context::Server), handling: HandlingSpec::Unsupported("path-level server overrides are not implemented"@) }) } else if key == "parameters"@ { Some(FieldSpec { traversal: Traversal::Array(Context::Parameter), handling: HandlingSpec::Read }) } else { None },
        Context::Operation => if key == "tags"@ { Some(FieldSpec { traversal: Traversal::Literal, handling: HandlingSpec::Read }) } else if key == "summary"@ { Some(FieldSpec { traversal: Traversal::Literal, handling: HandlingSpec::Read }) } else if key == "description"@ { Some(FieldSpec { traversal: Traversal::Literal, handling: HandlingSpec::Read }) } else if key == "externalDocs"@ { Some(FieldSpec { traversal: Traversal::Object(Context::ExternalDocs), handling: HandlingSpec::Annotation }) } else if key == "operationId"@ { Some(FieldSpec { traversal: Traversal::Literal, handling: HandlingSpec::Read }) } else if key == "parameters"@ { Some(FieldSpec { traversal: Traversal::Array(Context::Parameter), handling: HandlingSpec::Read }) } else if key == "requestBody"@ { Some(FieldSpec { traversal: Traversal::Object(Context::RequestBody), handling: HandlingSpec::Read }) } else if key == "responses"@ { Some(FieldSpec { traversal: Traversal::Object(Context::Responses), handling: HandlingSpec::Read }) } else if key == "callbacks"@ { Some(FieldSpec { traversal: Traversal::NameMap(Context::Callback), handling: HandlingSpec::Unsupported("callback operations are not generated"@) }) } else if key == "deprecated"@ { Some(FieldSpec { traversal: Traversal::Literal, handling: HandlingSpec::Unsupported("operation deprecation is not emitted"@) }) } else if key == "security"@ { Some(FieldSpec { traversal: Traversal::Literal, handling: HandlingSpec::Read }) } else if key == "servers"@ { Some(FieldSpec { traversal: Traversal::Array(Context::Server), handling: HandlingSpec::Unsupported("operation-level server overrides are not implemented"@) }) } else { None },
        Context::Components => if key == "schemas"@ { Some(FieldSpec { traversal: Traversal::NameMap(Context::Schema), handling: HandlingSpec::Read }) } else if key == "responses"@ { Some(FieldSpec { traversal: Traversal::NameMap(Context::Response), handling: HandlingSpec::Read }) } else if key == "parameters"@ { Some(FieldSpec { traversal: Traversal::NameMap(Context::Parameter), handling: HandlingSpec::Read }) } else if key == "examples"@ { Some(FieldSpec { traversal: Traversal::NameMap(Context::Example), handling: HandlingSpec::Annotation }) } else if key == "requestBodies"@ { Some(FieldSpec { traversal: Traversal::NameMap(Context::RequestBody), handling: HandlingSpec::Read }) } else if key == "headers"@ { Some(FieldSpec { traversal: Traversal::NameMap(Context::Header), handling: HandlingSpec::Read }) } else if key == "securitySchemes"@ { Some(FieldSpec { traversal: Traversal::NameMap(Context::SecurityScheme), handling: HandlingSpec::Read }) } else if key == "links"@ { Some(FieldSpec { traversal: Traversal::NameMap(Context::Link), handling: HandlingSpec::Unsupported("response links are not generated"@) }) } else if key == "callbacks"@ { Some(FieldSpec { traversal: Traversal::NameMap(Context::Callback), handling: HandlingSpec::Unsupported("callback operations are not generated"@) }) } else { None },
        Context::Schema => if key == "title"@ { Some(FieldSpec { traversal: Traversal::Literal, handling: HandlingSpec::Annotation }) } else if key == "multipleOf"@ { Some(FieldSpec { traversal: Traversal::Literal, handling: HandlingSpec::Read }) } else if key == "maximum"@ { Some(FieldSpec { traversal: Traversal::Literal, handling: HandlingSpec::Read }) } else if key == "exclusiveMaximum"@ { Some(FieldSpec { traversal: Traversal::Literal, handling: HandlingSpec::Read }) } else if key == "minimum"@ { Some(FieldSpec { traversal: Traversal::Literal, handling: HandlingSpec::Read }) } else if key == "exclusiveMinimum"@ { Some(FieldSpec { traversal: Traversal::Literal, handling: HandlingSpec::Read }) } else if key == "maxLength"@ { Some(FieldSpec { traversal: Traversal::Literal, handling: HandlingSpec::Read }) } else if key == "minLength"@ { Some(FieldSpec { traversal: Traversal::Literal, handling: HandlingSpec::Read }) } else if key == "pattern"@ { Some(FieldSpec { traversal: Traversal::Literal, handling: HandlingSpec::Read }) } else if key == "maxItems"@ { Some(FieldSpec { traversal: Traversal::Literal, handling: HandlingSpec::Read }) } else if key == "minItems"@ { Some(FieldSpec { traversal: Traversal::Literal, handling: HandlingSpec::Read }) } else if key == "uniqueItems"@ { Some(FieldSpec { traversal: Traversal::Literal, handling: HandlingSpec::Read }) } else if key == "maxProperties"@ { Some(FieldSpec { traversal: Traversal::Literal, handling: HandlingSpec::Read }) } else if key == "minProperties"@ { Some(FieldSpec { traversal: Traversal::Literal, handling: HandlingSpec::Read }) } else if key == "required"@ { Some(FieldSpec { traversal: Traversal::Literal, handling: HandlingSpec::Read }) } else if key == "enum"@ { Some(FieldSpec { traversal: Traversal::Literal, handling: HandlingSpec::Read }) } else if key == "type"@ { Some(FieldSpec { traversal: Traversal::Literal, handling: HandlingSpec::Read }) } else if key == "allOf"@ { Some(FieldSpec { traversal: Traversal::Array(Context::Schema), handling: HandlingSpec::Read }) } else if key == "oneOf"@ { Some(FieldSpec { traversal: Traversal::Array(Context::Schema), handling: HandlingSpec::Read }) } else if key == "anyOf"@ { Some(FieldSpec { traversal: Traversal::Array(Context::Schema), handling: HandlingSpec::Read }) } else if key == "not"@ { Some(FieldSpec { traversal: Traversal::Object(Context::Schema), handling: HandlingSpec::Read }) } else if key == "items"@ { Some(FieldSpec { traversal: Traversal::Object(Context::Schema), handling: HandlingSpec::Read }) } else if key == "properties"@ { Some(FieldSpec { traversal: Traversal::NameMap(Context::PropertySchema), handling: HandlingSpec::Read }) } else if key == "additionalProperties"@ { Some(FieldSpec { traversal: Traversal::SchemaOrBool, handling: HandlingSpec::Read }) } else if key == "description"@ { Some(FieldSpec { traversal: Traversal::Literal, handling: HandlingSpec::Read }) } else if key == "format"@ { Some(FieldSpec { traversal: Traversal::Literal, handling: HandlingSpec::Read }) } else if key == "default"@ { Some(FieldSpec { traversal: Traversal::Literal, handling: HandlingSpec::Read }) } else if key == "nullable"@ { Some(FieldSpec { traversal: Traversal::Literal, handling: HandlingSpec::Read }) } else if key == "discriminator"@ { Some(FieldSpec { traversal: Traversal::Object(Context::Discriminator), handling: HandlingSpec::Read }) } else if key == "readOnly"@ { Some(FieldSpec { traversal: Traversal::Literal, handling: HandlingSpec::Read }) } else if key == "writeOnly"@ { Some(FieldSpec { traversal: Traversal::Literal, handling: HandlingSpec::Read }) } else if key == "xml"@ { Some(FieldSpec { traversal: Traversal::Object(Context::Xml), handling: HandlingSpec::Unsupported("XML serialization is not implemented"@) }) } else if key == "externalDocs"@ { Some(FieldSpec { traversal: Traversal::Object(Context::ExternalDocs), handling: HandlingSpec::Annotation }) } else if key == "example"@ { Some(FieldSpec { traversal: Traversal::Literal, handling: HandlingSpec::Annotation }) } else if key == "deprecated"@ { Some(FieldSpec { traversal: Traversal::Literal, handling: HandlingSpec::Read }) } else { None },
        Context::PropertySchema => if key == "title"@ { Some(FieldSpec { traversal: Traversal::Literal, handling: HandlingSpec::Annotation }) } else if key == "multipleOf"@ { Some(FieldSpec { traversal: Traversal::Literal, handling: HandlingSpec::Read }) } else if key == "maximum"@ { Some(FieldSpec { traversal: Traversal::Literal, handling: HandlingSpec::Read }) } else if key == "exclusiveMaximum"@ { Some(FieldSpec { traversal: Traversal::Literal, handling: HandlingSpec::Read }) } else if key == "minimum"@ { Some(FieldSpec { traversal: Traversal::Literal, handling: HandlingSpec::Read }) } else if key == "exclusiveMinimum"@ { Some(FieldSpec { traversal: Traversal::Literal, handling: HandlingSpec::Read }) } else if key == "maxLength"@ { Some(FieldSpec { traversal: Traversal::Literal, handling: HandlingSpec::Read }) } else if key == "minLength"@ { Some(FieldSpec { traversal: Traversal::Literal, handling: HandlingSpec::Read }) } else if key == "pattern"@ { Some(FieldSpec { traversal: Traversal::Literal, handling: HandlingSpec::Read }) } else if key == "maxItems"@ { Some(FieldSpec { traversal: Traversal::Literal, handling: HandlingSpec::Read }) } else if key == "minItems"@ { Some(FieldSpec { traversal: Traversal::Literal, handling: HandlingSpec::Read }) } else if key == "uniqueItems"@ { Some(FieldSpec { traversal: Traversal::Literal, handling: HandlingSpec::Read }) } else if key == "maxProperties"@ { Some(FieldSpec { traversal: Traversal::Literal, handling: HandlingSpec::Read }) } else if key == "minProperties"@ { Some(FieldSpec { traversal: Traversal::Literal, handling: HandlingSpec::Read }) } else if key == "required"@ { Some(FieldSpec { traversal: Traversal::Literal, handling: HandlingSpec::Read }) } else if key == "enum"@ { Some(FieldSpec { traversal: Traversal::Literal, handling: HandlingSpec::Read }) } else if key == "type"@ { Some(FieldSpec { traversal: Traversal::Literal, handling: HandlingSpec::Read }) } else if key == "allOf"@ { Some(FieldSpec { traversal: Traversal::Array(Context::Schema), handling: HandlingSpec::Read }) } else if key == "oneOf"@ { Some(FieldSpec { traversal: Traversal::Array(Context::Schema), handling: HandlingSpec::Read }) } else if key == "anyOf"@ { Some(FieldSpec { traversal: Traversal::Array(Context::Schema), handling: HandlingSpec::Read }) } else if key == "not"@ { Some(FieldSpec { traversal: Traversal::Object(Context::Schema), handling: HandlingSpec::Read }) } else if key == "items"@ { Some(FieldSpec { traversal: Traversal::Object(Context::Schema), handling: HandlingSpec::Read }) } else if key == "properties"@ { Some(FieldSpec { traversal: Traversal::NameMap(Context::PropertySchema), handling: HandlingSpec::Read }) } else if key == "additionalProperties"@ { Some(FieldSpec { traversal: Traversal::SchemaOrBool, handling: HandlingSpec::Read }) } else if key == "description"@ { Some(FieldSpec { traversal: Traversal::Literal, handling: HandlingSpec::Read }) } else if key == "format"@ { Some(FieldSpec { traversal: Traversal::Literal, handling: HandlingSpec::Read }) } else if key == "default"@ { Some(FieldSpec { traversal: Traversal::Literal, handling: HandlingSpec::Read }) } else if key == "nullable"@ { Some(FieldSpec { traversal: Traversal::Literal, handling: HandlingSpec::Read }) } else if key == "discriminator"@ { Some(FieldSpec { traversal: Traversal::Object(Context::Discriminator), handling: HandlingSpec::Read }) } else if key == "readOnly"@ { Some(FieldSpec { traversal: Traversal::Literal, handling: HandlingSpec::Read }) } else if key == "writeOnly"@ { Some(FieldSpec { traversal: Traversal::Literal, handling: HandlingSpec::Read }) } else if key == "xml"@ { Some(FieldSpec { traversal: Traversal::Object(Context::Xml), handling: HandlingSpec::Unsupported("XML serialization is not implemented"@) }) } else if key == "externalDocs"@ { Some(FieldSpec { traversal: Traversal::Object(Context::ExternalDocs), handling: HandlingSpec::Annotation }) } else if key == "example"@ { Some(FieldSpec { traversal: Traversal::Literal, handling: HandlingSpec::Annotation }) } else if key == "deprecated"@ { Some(FieldSpec { traversal: Traversal::Literal, handling: HandlingSpec::Read }) } else { None },
        Context::Parameter => if key == "name"@ { Some(FieldSpec { traversal: Traversal::Literal, handling: HandlingSpec::Read }) } else if key == "in"@ { Some(FieldSpec { traversal: Traversal::Literal, handling: HandlingSpec::Read }) } else if key == "description"@ { Some(FieldSpec { traversal: Traversal::Literal, handling: HandlingSpec::Read }) } else if key == "required"@ { Some(FieldSpec { traversal: Traversal::Literal, handling: HandlingSpec::Read }) } else if key == "deprecated"@ { Some(FieldSpec { traversal: Traversal::Literal, handling: HandlingSpec::Unsupported("parameter deprecation is not emitted"@) }) } else if key == "allowEmptyValue"@ { Some(FieldSpec { traversal: Traversal::Literal, handling: HandlingSpec::Unsupported("allowEmptyValue is not implemented"@) }) } else if key == "style"@ { Some(FieldSpec { traversal: Traversal::Literal, handling: HandlingSpec::Read }) } else if key == "explode"@ { Some(FieldSpec { traversal: Traversal::Literal, handling: HandlingSpec::Read }) } else if key == "allowReserved"@ { Some(FieldSpec { traversal: Traversal::Literal, handling: HandlingSpec::Unsupported("allowReserved is not implemented"@) }) } else if key == "schema"@ { Some(FieldSpec { traversal: Traversal::Object(Context::Schema), handling: HandlingSpec::Read }) } else if key == "example"@ { Some(FieldSpec { traversal: Traversal::Literal, handling: HandlingSpec::Annotation }) } else if key == "examples"@ { Some(FieldSpec { traversal: Traversal::NameMap(Context::Example), handling: HandlingSpec::Annotation }) } else if key == "content"@ { Some(FieldSpec { traversal: Traversal::NameMap(Context::MediaType), handling: HandlingSpec::Read }) } else { None },
        Context::Header => if key == "description"@ { Some(FieldSpec { traversal: Traversal::Literal, handling: HandlingSpec::Read }) } else if key == "required"@ { Some(FieldSpec { traversal: Traversal::Literal, handling: HandlingSpec::Read }) } else if key == "deprecated"@ { Some(FieldSpec { traversal: Traversal::Literal, handling: HandlingSpec::Unsupported("header deprecation is not emitted"@) }) } else if key == "allowEmptyValue"@ { Some(FieldSpec { traversal: Traversal::Literal, handling: HandlingSpec::Unsupported("header allowEmptyValue is not implemented"@) }) } else if key == "allowReserved"@ { Some(FieldSpec { traversal: Traversal::Literal, handling: HandlingSpec::Unsupported("header allowReserved is not implemented"@) }) } else if key == "style"@ { Some(FieldSpec { traversal: Traversal::Literal, handling: HandlingSpec::Unsupported("response-header serialization styles are not implemented"@) }) } else if key == "explode"@ { Some(FieldSpec { traversal: Traversal::Literal, handling: HandlingSpec::Unsupported("response-header explode is not implemented"@) }) } else if key == "schema"@ { Some(FieldSpec { traversal: Traversal::Object(Context::Schema), handling: HandlingSpec::Read }) } else if key == "example"@ { Some(FieldSpec { traversal: Traversal::Literal, handling: HandlingSpec::Annotation }) } else if key == "examples"@ { Some(FieldSpec { traversal: Traversal::NameMap(Context::Example), handling: HandlingSpec::Annotation }) } else if key == "content"@ { Some(FieldSpec { traversal: Traversal::NameMap(Context::MediaType), handling: HandlingSpec::Read }) } else { None },
        Context::RequestBody => if key == "description"@ { Some(FieldSpec { traversal: Traversal::Literal, handling: HandlingSpec::Annotation }) } else if key == "content"@ { Some(FieldSpec { traversal: Traversal::NameMap(Context::MediaType), handling: HandlingSpec::Read }) } else if key == "required"@ { Some(FieldSpec { traversal: Traversal::Literal, handling: HandlingSpec::Read }) } else { None },
        Context::Responses => None,
        Context::Response => if key == "description"@ { Some(FieldSpec { traversal: Traversal::Literal, handling: HandlingSpec::Read }) } else if key == "headers"@ { Some(FieldSpec { traversal: Traversal::NameMap(Context::Header), handling: HandlingSpec::Read }) } else if key == "content"@ { Some(FieldSpec { traversal: Traversal::NameMap(Context::MediaType), handling: HandlingSpec::Read }) } else if key == "links"@ { Some(FieldSpec { traversal: Traversal::NameMap(Context::Link), handling: HandlingSpec::Unsupported("response links are not generated"@) }) } else { None },
        Context::MediaType => if key == "schema"@ { Some(FieldSpec { traversal: Traversal::Object(Context::Schema), handling: HandlingSpec::Read }) } else if key == "example"@ { Some(FieldSpec { traversal: Traversal::Literal, handling: HandlingSpec::Annotation }) } else if key == "examples"@ { Some(FieldSpec { traversal: Traversal::NameMap(Context::Example), handling: HandlingSpec::Annotation }) } else if key == "encoding"@ { Some(FieldSpec { traversal: Traversal::NameMap(Context::Encoding), handling: HandlingSpec::Unsupported("per-property body encoding is not implemented"@) }) } else { None },
        Context::Encoding => if key == "contentType"@ { Some(FieldSpec { traversal: Traversal::Literal, handling: HandlingSpec::Read }) } else if key == "headers"@ { Some(FieldSpec { traversal: Traversal::NameMap(Context::Header), handling: HandlingSpec::Read }) } else if key == "style"@ { Some(FieldSpec { traversal: Traversal::Literal, handling: HandlingSpec::Read }) } else if key == "explode"@ { Some(FieldSpec { traversal: Traversal::Literal, handling: HandlingSpec::Read }) } else if key == "allowReserved"@ { Some(FieldSpec { traversal: Traversal::Literal, handling: HandlingSpec::Read }) } else { None },
        Context::Example => if key == "summary"@ { Some(FieldSpec { traversal: Traversal::Literal, handling: HandlingSpec::Annotation }) } else if key == "description"@ { Some(FieldSpec { traversal: Traversal::Literal, handling: HandlingSpec::Annotation }) } else if key == "value"@ { Some(FieldSpec { traversal: Traversal::Literal, handling: HandlingSpec::Annotation }) } else if key == "externalValue"@ { Some(FieldSpec { traversal: Traversal::Literal, handling: HandlingSpec::Annotation }) } else { None },
        Context::Link => if key == "operationRef"@ { Some(FieldSpec { traversal: Traversal::Literal, handling: HandlingSpec::Read }) } else if key == "operationId"@ { Some(FieldSpec { traversal: Traversal::Literal, handling: HandlingSpec::Read }) } else if key == "parameters"@ { Some(FieldSpec { traversal: Traversal::Literal, handling: HandlingSpec::Read }) } else if key == "requestBody"@ { Some(FieldSpec { traversal: Traversal::Literal, handling: HandlingSpec::Read }) } else if key == "description"@ { Some(FieldSpec { traversal: Traversal::Literal, handling: HandlingSpec::Annotation }) } else if key == "server"@ { Some(FieldSpec { traversal: Traversal::Object(Context::Server), handling: HandlingSpec::Read }) } else { None },
        Context::Callback => None,
        Context::SecurityScheme => if key == "type"@ { Some(FieldSpec { traversal: Traversal::Literal, handling: HandlingSpec::Read }) } else if key == "description"@ { Some(FieldSpec { traversal: Traversal::Literal, handling: HandlingSpec::Read }) } else if key == "name"@ { Some(FieldSpec { traversal: Traversal::Literal, handling: HandlingSpec::Read }) } else if key == "in"@ { Some(FieldSpec { traversal: Traversal::Literal, handling: HandlingSpec::Read }) } else if key == "scheme"@ { Some(FieldSpec { traversal: Traversal::Literal, handling: HandlingSpec::Read }) } else if key == "bearerFormat"@ { Some(FieldSpec { traversal: Traversal::Literal, handling: HandlingSpec::Annotation }) } else if key == "flows"@ { Some(FieldSpec { traversal: Traversal::Object(Context::OAuthFlows), handling: HandlingSpec::Read }) } else if key == "openIdConnectUrl"@ { Some(FieldSpec { traversal: Traversal::Literal, handling: HandlingSpec::Read }) } else { None },
        Context::OAuthFlows => if key == "implicit"@ { Some(FieldSpec { traversal: Traversal::Object(Context::OAuthFlow), handling: HandlingSpec::Read }) } else if key == "password"@ { Some(FieldSpec { traversal: Traversal::Object(Context::OAuthFlow), handling: HandlingSpec::Read }) } else if key == "clientCredentials"@ { Some(FieldSpec { traversal: Traversal::Object(Context::OAuthFlow), handling: HandlingSpec::Read }) } else if key == "authorizationCode"@ { Some(FieldSpec { traversal: Traversal::Object(Context::OAuthFlow), handling: HandlingSpec::Read }) } else { None },
        Context::OAuthFlow => if key == "authorizationUrl"@ { Some(FieldSpec { traversal: Traversal::Literal, handling: HandlingSpec::Read }) } else if key == "tokenUrl"@ { Some(FieldSpec { traversal: Traversal::Literal, handling: HandlingSpec::Read }) } else if key == "refreshUrl"@ { Some(FieldSpec { traversal: Traversal::Literal, handling: HandlingSpec::Read }) } else if key == "scopes"@ { Some(FieldSpec { traversal: Traversal::Literal, handling: HandlingSpec::Read }) } else { None },
        Context::ExternalDocs => if key == "description"@ { Some(FieldSpec { traversal: Traversal::Literal, handling: HandlingSpec::Annotation }) } else if key == "url"@ { Some(FieldSpec { traversal: Traversal::Literal, handling: HandlingSpec::Annotation }) } else { None },
        Context::Tag => if key == "name"@ { Some(FieldSpec { traversal: Traversal::Literal, handling: HandlingSpec::Annotation }) } else if key == "description"@ { Some(FieldSpec { traversal: Traversal::Literal, handling: HandlingSpec::Annotation }) } else if key == "externalDocs"@ { Some(FieldSpec { traversal: Traversal::Object(Context::ExternalDocs), handling: HandlingSpec::Annotation }) } else { None },
        Context::Discriminator => if key == "propertyName"@ { Some(FieldSpec { traversal: Traversal::Literal, handling: HandlingSpec::Unsupported("discriminator dispatch uses shapes rather than this property"@) }) } else if key == "mapping"@ { Some(FieldSpec { traversal: Traversal::Literal, handling: HandlingSpec::Read }) } else { None },
        Context::Xml => if key == "name"@ { Some(FieldSpec { traversal: Traversal::Literal, handling: HandlingSpec::Annotation }) } else if key == "namespace"@ { Some(FieldSpec { traversal: Traversal::Literal, handling: HandlingSpec::Annotation }) } else if key == "prefix"@ { Some(FieldSpec { traversal: Traversal::Literal, handling: HandlingSpec::Annotation }) } else if key == "attribute"@ { Some(FieldSpec { traversal: Traversal::Literal, handling: HandlingSpec::Annotation }) } else if key == "wrapped"@ { Some(FieldSpec { traversal: Traversal::Literal, handling: HandlingSpec::Annotation }) } else { None },
    }
}

/// The catalogue entry for `key` in an object of kind `context`; the entry
/// found is the one named `key`.
pub fn find_field(context: Context, key: &str) -> (r: Option<Field>)
    ensures
        field_view(r) == catalogue(context, key@),
        r matches Some(f) ==> f.name@ == key@,
{
    match context {
        Context::Document => {
            if same_text(key, "openapi") {
                return Some(Field { name: "openapi", traversal: Traversal::Literal, handling: Handling::Read });
            }
            if same_text(key, "info") {
                return Some(Field { name: "info", traversal: Traversal::Object(Context::Info), handling: Handling::Annotation });
            }
            if same_text(key, "servers") {
                return Some(Field { name: "servers", traversal: Traversal::Array(Context::Server), handling: Handling::Read });
            }
            if same_text(key, "paths") {
                return Some(Field { name: "paths", traversal: Traversal::Object(Context::Paths), handling: Handling::Read });
            }
            if same_text(key, "components") {
                return Some(Field { name: "components", traversal: Traversal::Object(Context::Components), handling: Handling::Read });
            }
            if same_text(key, "security") {
                return Some(Field { name: "security", traversal: Traversal::Literal, handling: Handling::Read });
            }
            if same_text(key, "tags") {
                return Some(Field { name: "tags", traversal: Traversal::Array(Context::Tag), handling: Handling::Annotation });
            }
            if same_text(key, "externalDocs") {
                return Some(Field { name: "externalDocs", traversal: Traversal::Object(Context::ExternalDocs), handling: Handling::Annotation });
            }
            None
        },
        Context::Info => {
            if same_text(key, "title") {
                return Some(Field { name: "title", traversal: Traversal::Literal, handling: Handling::Annotation });
            }
            if same_text(key, "description") {
                return Some(Field { name: "description", traversal: Traversal::Literal, handling: Handling::Annotation });
            }
            if same_text(key, "termsOfService") {
                return Some(Field { name: "termsOfService", traversal: Traversal::Literal, handling: Handling::Annotation });
            }
            if same_text(key, "contact") {
                return Some(Field { name: "contact", traversal: Traversal::Object(Context::Contact), handling: Handling::Annotation });
            }
            if same_text(key, "license") {
                return Some(Field { name: "license", traversal: Traversal::Object(Context::License), handling: Handling::Annotation });
            }
            if same_text(key, "version") {
                return Some(Field { name: "version", traversal: Traversal::Literal, handling: Handling::Annotation });
            }
            None
        },
        Context::Contact => {
            if same_text(key, "name") {
                return Some(Field { name: "name", traversal: Traversal::Literal, handling: Handling::Annotation });
            }
            if same_text(key, "url") {
                return Some(Field { name: "url", traversal: Traversal::Literal, handling: Handling::Annotation });
            }
            if same_text(key, "email") {
                return Some(Field { name: "email", traversal: Traversal::Literal, handling: Handling::Annotation });
            }
            None
        },
        Context::License => {
            if same_text(key, "name") {
                return Some(Field { name: "name", traversal: Traversal::Literal, handling: Handling::Annotation });
            }
            if same_text(key, "url") {
                return Some(Field { name: "url", traversal: Traversal::Literal, handling: Handling::Annotation });
            }
            None
        },
        Context::Server => {
            if same_text(key, "url") {
                return Some(Field { name: "url", traversal: Traversal::Literal, handling: Handling::Read });
            }
            if same_text(key, "description") {
                return Some(Field { name: "description", traversal: Traversal::Literal, handling: Handling::Read });
            }
            if same_text(key, "variables") {
                return Some(Field { name: "variables", traversal: Traversal::NameMap(Context::ServerVariable), handling: Handling::Read });
            }
            None
        },
        Context::ServerVariable => {
            if same_text(key, "enum") {
                return Some(Field { name: "enum", traversal: Traversal::Literal, handling: Handling::Read });
            }
            if same_text(key, "default") {
                return Some(Field { name: "default", traversal: Traversal::Literal, handling: Handling::Read });
            }
            if same_text(key, "description") {
                return Some(Field { name: "description", traversal: Traversal::Literal, handling: Handling::Read });
            }
            None
        },
        Context::Paths => None,
        Context::PathItem => {
            if same_text(key, "summary") {
                return Some(Field { name: "summary", traversal: Traversal::Literal, handling: Handling::Annotation });
            }
            if same_text(key, "description") {
                return Some(Field { name: "description", traversal: Traversal::Literal, handling: Handling::Annotation });
            }
            if same_text(key, "get") {
                return Some(Field { name: "get", traversal: Traversal::Object(Context::Operation), handling: Handling::Read });
            }
            if same_text(key, "put") {
                return Some(Field { name: "put", traversal: Traversal::Object(Context::Operation), handling: Handling::Read });
            }
            if same_text(key, "post") {
                return Some(Field { name: "post", traversal: Traversal::Object(Context::Operation), handling: Handling::Read });
            }
            if same_text(key, "delete") {
                return Some(Field { name: "delete", traversal: Traversal::Object(Context::Operation), handling: Handling::Read });
            }
            if same_text(key, "options") {
                return Some(Field { name: "options", traversal: Traversal::Object(Context::Operation), handling: Handling::Read });
            }
            if same_text(key, "head") {
                return Some(Field { name: "head", traversal: Traversal::Object(Context::Operation), handling: Handling::Read });
            }
            if same_text(key, "patch") {
                return Some(Field { name: "patch", traversal: Traversal::Object(Context::Operation), handling: Handling::Read });
            }
            if same_text(key, "trace") {
                return Some(Field { name: "trace", traversal: Traversal::Object(Context::Operation), handling: Handling::Read });
            }
            if same_text(key, "servers") {
                return Some(Field { name: "servers", traversal: Traversal::Array(Context::Server), handling: Handling::Unsupported("path-level server overrides are not implemented") });
            }
            if same_text(key, "parameters") {
                return Some(Field { name: "parameters", traversal: Traversal::Array(Context::Parameter), handling: Handling::Read });
            }
            None
        },
        Context::Operation => {
            if same_text(key, "tags") {
                return Some(Field { name: "tags", traversal: Traversal::Literal, handling: Handling::Read });
            }
            if same_text(key, "summary") {
                return Some(Field { name: "summary", traversal: Traversal::Literal, handling: Handling::Read });
            }
            if same_text(key, "description") {
                return Some(Field { name: "description", traversal: Traversal::Literal, handling: Handling::Read });
            }
            if same_text(key, "externalDocs") {
                return Some(Field { name: "externalDocs", traversal: Traversal::Object(Context::ExternalDocs), handling: Handling::Annotation });
            }
            if same_text(key, "operationId") {
                return Some(Field { name: "operationId", traversal: Traversal::Literal, handling: Handling::Read });
            }
            if same_text(key, "parameters") {
                return Some(Field { name: "parameters", traversal: Traversal::Array(Context::Parameter), handling: Handling::Read });
            }
            if same_text(key, "requestBody") {
                return Some(Field { name: "requestBody", traversal: Traversal::Object(Context::RequestBody), handling: Handling::Read });
            }
            if same_text(key, "responses") {
                return Some(Field { name: "responses", traversal: Traversal::Object(Context::Responses), handling: Handling::Read });
            }
            if same_text(key, "callbacks") {
                return Some(Field { name: "callbacks", traversal: Traversal::NameMap(Context::Callback), handling: Handling::Unsupported("callback operations are not generated") });
            }
            if same_text(key, "deprecated") {
                return Some(Field { name: "deprecated", traversal: Traversal::Literal, handling: Handling::Unsupported("operation deprecation is not emitted") });
            }
            if same_text(key, "security") {
                return Some(Field { name: "security", traversal: Traversal::Literal, handling: Handling::Read });
            }
            if same_text(key, "servers") {
                return Some(Field { name: "servers", traversal: Traversal::Array(Context::Server), handling: Handling::Unsupported("operation-level server overrides are not implemented") });
            }
            None
        },
        Context::Components => {
            if same_text(key, "schemas") {
                return Some(Field { name: "schemas", traversal: Traversal::NameMap(Context::Schema), handling: Handling::Read });
            }
            if same_text(key, "responses") {
                return Some(Field { name: "responses", traversal: Traversal::NameMap(Context::Response), handling: Handling::Read });
            }
            if same_text(key, "parameters") {
                return Some(Field { name: "parameters", traversal: Traversal::NameMap(Context::Parameter), handling: Handling::Read });
            }
            if same_text(key, "examples") {
                return Some(Field { name: "examples", traversal: Traversal::NameMap(Context::Example), handling: Handling::Annotation });
            }
            if same_text(key, "requestBodies") {
                return Some(Field { name: "requestBodies", traversal: Traversal::NameMap(Context::RequestBody), handling: Handling::Read });
            }
            if same_text(key, "headers") {
                return Some(Field { name: "headers", traversal: Traversal::NameMap(Context::Header), handling: Handling::Read });
            }
            if same_text(key, "securitySchemes") {
                return Some(Field { name: "securitySchemes", traversal: Traversal::NameMap(Context::SecurityScheme), handling: Handling::Read });
            }
            if same_text(key, "links") {
                return Some(Field { name: "links", traversal: Traversal::NameMap(Context::Link), handling: Handling::Unsupported("response links are not generated") });
            }
            if same_text(key, "callbacks") {
                return Some(Field { name: "callbacks", traversal: Traversal::NameMap(Context::Callback), handling: Handling::Unsupported("callback operations are not generated") });
            }
            None
        },
        Context::Schema => {
            if same_text(key, "title") {
                return Some(Field { name: "title", traversal: Traversal::Literal, handling: Handling::Annotation });
            }
            if same_text(key, "multipleOf") {
                return Some(Field { name: "multipleOf", traversal: Traversal::Literal, handling: Handling::Read });
            }
            if same_text(key, "maximum") {
                return Some(Field { name: "maximum", traversal: Traversal::Literal, handling: Handling::Read });
            }
            if same_text(key, "exclusiveMaximum") {
                return Some(Field { name: "exclusiveMaximum", traversal: Traversal::Literal, handling: Handling::Read });
            }
            if same_text(key, "minimum") {
                return Some(Field { name: "minimum", traversal: Traversal::Literal, handling: Handling::Read });
            }
            if same_text(key, "exclusiveMinimum") {
                return Some(Field { name: "exclusiveMinimum", traversal: Traversal::Literal, handling: Handling::Read });
            }
            if same_text(key, "maxLength") {
                return Some(Field { name: "maxLength", traversal: Traversal::Literal, handling: Handling::Read });
            }
            if same_text(key, "minLength") {
                return Some(Field { name: "minLength", traversal: Traversal::Literal, handling: Handling::Read });
            }
            if same_text(key, "pattern") {
                return Some(Field { name: "pattern", traversal: Traversal::Literal, handling: Handling::Read });
            }
            if same_text(key, "maxItems") {
                return Some(Field { name: "maxItems", traversal: Traversal::Literal, handling: Handling::Read });
            }
            if same_text(key, "minItems") {
                return Some(Field { name: "minItems", traversal: Traversal::Literal, handling: Handling::Read });
            }
            if same_text(key, "uniqueItems") {
                return Some(Field { name: "uniqueItems", traversal: Traversal::Literal, handling: Handling::Read });
            }
            if same_text(key, "maxProperties") {
                return Some(Field { name: "maxProperties", traversal: Traversal::Literal, handling: Handling::Read });
            }
            if same_text(key, "minProperties") {
                return Some(Field { name: "minProperties", traversal: Traversal::Literal, handling: Handling::Read });
            }
            if same_text(key, "required") {
                return Some(Field { name: "required", traversal: Traversal::Literal, handling: Handling::Read });
            }
            if same_text(key, "enum") {
                return Some(Field { name: "enum", traversal: Traversal::Literal, handling: Handling::Read });
            }
            if same_text(key, "type") {
                return Some(Field { name: "type", traversal: Traversal::Literal, handling: Handling::Read });
            }
            if same_text(key, "allOf") {
                return Some(Field { name: "allOf", traversal: Traversal::Array(Context::Schema), handling: Handling::Read });
            }
            if same_text(key, "oneOf") {
                return Some(Field { name: "oneOf", traversal: Traversal::Array(Context::Schema), handling: Handling::Read });
            }
            if same_text(key, "anyOf") {
                return Some(Field { name: "anyOf", traversal: Traversal::Array(Context::Schema), handling: Handling::Read });
            }
            if same_text(key, "not") {
                return Some(Field { name: "not", traversal: Traversal::Object(Context::Schema), handling: Handling::Read });
            }
            if same_text(key, "items") {
                return Some(Field { name: "items", traversal: Traversal::Object(Context::Schema), handling: Handling::Read });
            }
            if same_text(key, "properties") {
                return Some(Field { name: "properties", traversal: Traversal::NameMap(Context::PropertySchema), handling: Handling::Read });
            }
            if same_text(key, "additionalProperties") {
                return Some(Field { name: "additionalProperties", traversal: Traversal::SchemaOrBool, handling: Handling::Read });
            }
            if same_text(key, "description") {
                return Some(Field { name: "description", traversal: Traversal::Literal, handling: Handling::Read });
            }
            if same_text(key, "format") {
                return Some(Field { name: "format", traversal: Traversal::Literal, handling: Handling::Read });
            }
            if same_text(key, "default") {
                return Some(Field { name: "default", traversal: Traversal::Literal, handling: Handling::Read });
            }
            if same_text(key, "nullable") {
                return Some(Field { name: "nullable", traversal: Traversal::Literal, handling: Handling::Read });
            }
            if same_text(key, "discriminator") {
                return Some(Field { name: "discriminator", traversal: Traversal::Object(Context::Discriminator), handling: Handling::Read });
            }
            if same_text(key, "readOnly") {
                return Some(Field { name: "readOnly", traversal: Traversal::Literal, handling: Handling::Read });
            }
            if same_text(key, "writeOnly") {
                return Some(Field { name: "writeOnly", traversal: Traversal::Literal, handling: Handling::Read });
            }
            if same_text(key, "xml") {
                return Some(Field { name: "xml", traversal: Traversal::Object(Context::Xml), handling: Handling::Unsupported("XML serialization is not implemented") });
            }
            if same_text(key, "externalDocs") {
                return Some(Field { name: "externalDocs", traversal: Traversal::Object(Context::ExternalDocs), handling: Handling::Annotation });
            }
            if same_text(key, "example") {
                return Some(Field { name: "example", traversal: Traversal::Literal, handling: Handling::Annotation });
            }
            if same_text(key, "deprecated") {
                return Some(Field { name: "deprecated", traversal: Traversal::Literal, handling: Handling::Read });
            }
            None
        },
        Context::PropertySchema => {
            if same_text(key, "title") {
                return Some(Field { name: "title", traversal: Traversal::Literal, handling: Handling::Annotation });
            }
            if same_text(key, "multipleOf") {
                return Some(Field { name: "multipleOf", traversal: Traversal::Literal, handling: Handling::Read });
            }
            if same_text(key, "maximum") {
                return Some(Field { name: "maximum", traversal: Traversal::Literal, handling: Handling::Read });
            }
            if same_text(key, "exclusiveMaximum") {
                return Some(Field { name: "exclusiveMaximum", traversal: Traversal::Literal, handling: Handling::Read });
            }
            if same_text(key, "minimum") {
                return Some(Field { name: "minimum", traversal: Traversal::Literal, handling: Handling::Read });
            }
            if same_text(key, "exclusiveMinimum") {
                return Some(Field { name: "exclusiveMinimum", traversal: Traversal::Literal, handling: Handling::Read });
            }
            if same_text(key, "maxLength") {
                return Some(Field { name: "maxLength", traversal: Traversal::Literal, handling: Handling::Read });
            }
            if same_text(key, "minLength") {
                return Some(Field { name: "minLength", traversal: Traversal::Literal, handling: Handling::Read });
            }
            if same_text(key, "pattern") {
                return Some(Field { name: "pattern", traversal: Traversal::Literal, handling: Handling::Read });
            }
            if same_text(key, "maxItems") {
                return Some(Field { name: "maxItems", traversal: Traversal::Literal, handling: Handling::Read });
            }
            if same_text(key, "minItems") {
                return Some(Field { name: "minItems", traversal: Traversal::Literal, handling: Handling::Read });
            }
            if same_text(key, "uniqueItems") {
                return Some(Field { name: "uniqueItems", traversal: Traversal::Literal, handling: Handling::Read });
            }
            if same_text(key, "maxProperties") {
                return Some(Field { name: "maxProperties", traversal: Traversal::Literal, handling: Handling::Read });
            }
            if same_text(key, "minProperties") {
                return Some(Field { name: "minProperties", traversal: Traversal::Literal, handling: Handling::Read });
            }
            if same_text(key, "required") {
                return Some(Field { name: "required", traversal: Traversal::Literal, handling: Handling::Read });
            }
            if same_text(key, "enum") {
                return Some(Field { name: "enum", traversal: Traversal::Literal, handling: Handling::Read });
            }
            if same_text(key, "type") {
                return Some(Field { name: "type", traversal: Traversal::Literal, handling: Handling::Read });
            }
            if same_text(key, "allOf") {
                return Some(Field { name: "allOf", traversal: Traversal::Array(Context::Schema), handling: Handling::Read });
            }
            if same_text(key, "oneOf") {
                return Some(Field { name: "oneOf", traversal: Traversal::Array(Context::Schema), handling: Handling::Read });
            }
            if same_text(key, "anyOf") {
                return Some(Field { name: "anyOf", traversal: Traversal::Array(Context::Schema), handling: Handling::Read });
            }
            if same_text(key, "not") {
                return Some(Field { name: "not", traversal: Traversal::Object(Context::Schema), handling: Handling::Read });
            }
            if same_text(key, "items") {
                return Some(Field { name: "items", traversal: Traversal::Object(Context::Schema), handling: Handling::Read });
            }
            if same_text(key, "properties") {
                return Some(Field { name: "properties", traversal: Traversal::NameMap(Context::PropertySchema), handling: Handling::Read });
            }
            if same_text(key, "additionalProperties") {
                return Some(Field { name: "additionalProperties", traversal: Traversal::SchemaOrBool, handling: Handling::Read });
            }
            if same_text(key, "description") {
                return Some(Field { name: "description", traversal: Traversal::Literal, handling: Handling::Read });
            }
            if same_text(key, "format") {
                return Some(Field { name: "format", traversal: Traversal::Literal, handling: Handling::Read });
            }
            if same_text(key, "default") {
                return Some(Field { name: "default", traversal: Traversal::Literal, handling: Handling::Read });
            }
            if same_text(key, "nullable") {
                return Some(Field { name: "nullable", traversal: Traversal::Literal, handling: Handling::Read });
            }
            if same_text(key, "discriminator") {
                return Some(Field { name: "discriminator", traversal: Traversal::Object(Context::Discriminator), handling: Handling::Read });
            }
            if same_text(key, "readOnly") {
                return Some(Field { name: "readOnly", traversal: Traversal::Literal, handling: Handling::Read });
            }
            if same_text(key, "writeOnly") {
                return Some(Field { name: "writeOnly", traversal: Traversal::Literal, handling: Handling::Read });
            }
            if same_text(key, "xml") {
                return Some(Field { name: "xml", traversal: Traversal::Object(Context::Xml), handling: Handling::Unsupported("XML serialization is not implemented") });
            }
            if same_text(key, "externalDocs") {
                return Some(Field { name: "externalDocs", traversal: Traversal::Object(Context::ExternalDocs), handling: Handling::Annotation });
            }
            if same_text(key, "example") {
                return Some(Field { name: "example", traversal: Traversal::Literal, handling: Handling::Annotation });
            }
            if same_text(key, "deprecated") {
                return Some(Field { name: "deprecated", traversal: Traversal::Literal, handling: Handling::Read });
            }
            None
        },
        Context::Parameter => {
            if same_text(key, "name") {
                return Some(Field { name: "name", traversal: Traversal::Literal, handling: Handling::Read });
            }
            if same_text(key, "in") {
                return Some(Field { name: "in", traversal: Traversal::Literal, handling: Handling::Read });
            }
            if same_text(key, "description") {
                return Some(Field { name: "description", traversal: Traversal::Literal, handling: Handling::Read });
            }
            if same_text(key, "required") {
                return Some(Field { name: "required", traversal: Traversal::Literal, handling: Handling::Read });
            }
            if same_text(key, "deprecated") {
                return Some(Field { name: "deprecated", traversal: Traversal::Literal, handling: Handling::Unsupported("parameter deprecation is not emitted") });
            }
            if same_text(key, "allowEmptyValue") {
                return Some(Field { name: "allowEmptyValue", traversal: Traversal::Literal, handling: Handling::Unsupported("allowEmptyValue is not implemented") });
            }
            if same_text(key, "style") {
                return Some(Field { name: "style", traversal: Traversal::Literal, handling: Handling::Read });
            }
            if same_text(key, "explode") {
                return Some(Field { name: "explode", traversal: Traversal::Literal, handling: Handling::Read });
            }
            if same_text(key, "allowReserved") {
                return Some(Field { name: "allowReserved", traversal: Traversal::Literal, handling: Handling::Unsupported("allowReserved is not implemented") });
            }
            if same_text(key, "schema") {
                return Some(Field { name: "schema", traversal: Traversal::Object(Context::Schema), handling: Handling::Read });
            }
            if same_text(key, "example") {
                return Some(Field { name: "example", traversal: Traversal::Literal, handling: Handling::Annotation });
            }
            if same_text(key, "examples") {
                return Some(Field { name: "examples", traversal: Traversal::NameMap(Context::Example), handling: Handling::Annotation });
            }
            if same_text(key, "content") {
                return Some(Field { name: "content", traversal: Traversal::NameMap(Context::MediaType), handling: Handling::Read });
            }
            None
        },
        Context::Header => {
            if same_text(key, "description") {
                return Some(Field { name: "description", traversal: Traversal::Literal, handling: Handling::Read });
            }
            if same_text(key, "required") {
                return Some(Field { name: "required", traversal: Traversal::Literal, handling: Handling::Read });
            }
            if same_text(key, "deprecated") {
                return Some(Field { name: "deprecated", traversal: Traversal::Literal, handling: Handling::Unsupported("header deprecation is not emitted") });
            }
            if same_text(key, "allowEmptyValue") {
                return Some(Field { name: "allowEmptyValue", traversal: Traversal::Literal, handling: Handling::Unsupported("header allowEmptyValue is not implemented") });
            }
            if same_text(key, "allowReserved") {
                return Some(Field { name: "allowReserved", traversal: Traversal::Literal, handling: Handling::Unsupported("header allowReserved is not implemented") });
            }
            if same_text(key, "style") {
                return Some(Field { name: "style", traversal: Traversal::Literal, handling: Handling::Unsupported("response-header serialization styles are not implemented") });
            }
            if same_text(key, "explode") {
                return Some(Field { name: "explode", traversal: Traversal::Literal, handling: Handling::Unsupported("response-header explode is not implemented") });
            }
            if same_text(key, "schema") {
                return Some(Field { name: "schema", traversal: Traversal::Object(Context::Schema), handling: Handling::Read });
            }
            if same_text(key, "example") {
                return Some(Field { name: "example", traversal: Traversal::Literal, handling: Handling::Annotation });
            }
            if same_text(key, "examples") {
                return Some(Field { name: "examples", traversal: Traversal::NameMap(Context::Example), handling: Handling::Annotation });
            }
            if same_text(key, "content") {
                return Some(Field { name: "content", traversal: Traversal::NameMap(Context::MediaType), handling: Handling::Read });
            }
            None
        },
        Context::RequestBody => {
            if same_text(key, "description") {
                return Some(Field { name: "description", traversal: Traversal::Literal, handling: Handling::Annotation });
            }
            if same_text(key, "content") {
                return Some(Field { name: "content", traversal: Traversal::NameMap(Context::MediaType), handling: Handling::Read });
            }
            if same_text(key, "required") {
                return Some(Field { name: "required", traversal: Traversal::Literal, handling: Handling::Read });
            }
            None
        },
        Context::Responses => None,
        Context::Response => {
            if same_text(key, "description") {
                return Some(Field { name: "description", traversal: Traversal::Literal, handling: Handling::Read });
            }
            if same_text(key, "headers") {
                return Some(Field { name: "headers", traversal: Traversal::NameMap(Context::Header), handling: Handling::Read });
            }
            if same_text(key, "content") {
                return Some(Field { name: "content", traversal: Traversal::NameMap(Context::MediaType), handling: Handling::Read });
            }
            if same_text(key, "links") {
                return Some(Field { name: "links", traversal: Traversal::NameMap(Context::Link), handling: Handling::Unsupported("response links are not generated") });
            }
            None
        },
        Context::MediaType => {
            if same_text(key, "schema") {
                return Some(Field { name: "schema", traversal: Traversal::Object(Context::Schema), handling: Handling::Read });
            }
            if same_text(key, "example") {
                return Some(Field { name: "example", traversal: Traversal::Literal, handling: Handling::Annotation });
            }
            if same_text(key, "examples") {
                return Some(Field { name: "examples", traversal: Traversal::NameMap(Context::Example), handling: Handling::Annotation });
            }
            if same_text(key, "encoding") {
                return Some(Field { name: "encoding", traversal: Traversal::NameMap(Context::Encoding), handling: Handling::Unsupported("per-property body encoding is not implemented") });
            }
            None
        },
        Context::Encoding => {
            if same_text(key, "contentType") {
                return Some(Field { name: "contentType", traversal: Traversal::Literal, handling: Handling::Read });
            }
            if same_text(key, "headers") {
                return Some(Field { name: "headers", traversal: Traversal::NameMap(Context::Header), handling: Handling::Read });
            }
            if same_text(key, "style") {
                return Some(Field { name: "style", traversal: Traversal::Literal, handling: Handling::Read });
            }
            if same_text(key, "explode") {
                return Some(Field { name: "explode", traversal: Traversal::Literal, handling: Handling::Read });
            }
            if same_text(key, "allowReserved") {
                return Some(Field { name: "allowReserved", traversal: Traversal::Literal, handling: Handling::Read });
            }
            None
        },
        Context::Example => {
            if same_text(key, "summary") {
                return Some(Field { name: "summary", traversal: Traversal::Literal, handling: Handling::Annotation });
            }
            if same_text(key, "description") {
                return Some(Field { name: "description", traversal: Traversal::Literal, handling: Handling::Annotation });
            }
            if same_text(key, "value") {
                return Some(Field { name: "value", traversal: Traversal::Literal, handling: Handling::Annotation });
            }
            if same_text(key, "externalValue") {
                return Some(Field { name: "externalValue", traversal: Traversal::Literal, handling: Handling::Annotation });
            }
            None
        },
        Context::Link => {
            if same_text(key, "operationRef") {
                return Some(Field { name: "operationRef", traversal: Traversal::Literal, handling: Handling::Read });
            }
            if same_text(key, "operationId") {
                return Some(Field { name: "operationId", traversal: Traversal::Literal, handling: Handling::Read });
            }
            if same_text(key, "parameters") {
                return Some(Field { name: "parameters", traversal: Traversal::Literal, handling: Handling::Read });
            }
            if same_text(key, "requestBody") {
                return Some(Field { name: "requestBody", traversal: Traversal::Literal, handling: Handling::Read });
            }
            if same_text(key, "description") {
                return Some(Field { name: "description", traversal: Traversal::Literal, handling: Handling::Annotation });
            }
            if same_text(key, "server") {
                return Some(Field { name: "server", traversal: Traversal::Object(Context::Server), handling: Handling::Read });
            }
            None
        },
        Context::Callback => None,
        Context::SecurityScheme => {
            if same_text(key, "type") {
                return Some(Field { name: "type", traversal: Traversal::Literal, handling: Handling::Read });
            }
            if same_text(key, "description") {
                return Some(Field { name: "description", traversal: Traversal::Literal, handling: Handling::Read });
            }
            if same_text(key, "name") {
                return Some(Field { name: "name", traversal: Traversal::Literal, handling: Handling::Read });
            }
            if same_text(key, "in") {
                return Some(Field { name: "in", traversal: Traversal::Literal, handling: Handling::Read });
            }
            if same_text(key, "scheme") {
                return Some(Field { name: "scheme", traversal: Traversal::Literal, handling: Handling::Read });
            }
            if same_text(key, "bearerFormat") {
                return Some(Field { name: "bearerFormat", traversal: Traversal::Literal, handling: Handling::Annotation });
            }
            if same_text(key, "flows") {
                return Some(Field { name: "flows", traversal: Traversal::Object(Context::OAuthFlows), handling: Handling::Read });
            }
            if same_text(key, "openIdConnectUrl") {
                return Some(Field { name: "openIdConnectUrl", traversal: Traversal::Literal, handling: Handling::Read });
            }
            None
        },
        Context::OAuthFlows => {
            if same_text(key, "implicit") {
                return Some(Field { name: "implicit", traversal: Traversal::Object(Context::OAuthFlow), handling: Handling::Read });
            }
            if same_text(key, "password") {
                return Some(Field { name: "password", traversal: Traversal::Object(Context::OAuthFlow), handling: Handling::Read });
            }
            if same_text(key, "clientCredentials") {
                return Some(Field { name: "clientCredentials", traversal: Traversal::Object(Context::OAuthFlow), handling: Handling::Read });
            }
            if same_text(key, "authorizationCode") {
                return Some(Field { name: "authorizationCode", traversal: Traversal::Object(Context::OAuthFlow), handling: Handling::Read });
            }
            None
        },
        Context::OAuthFlow => {
            if same_text(key, "authorizationUrl") {
                return Some(Field { name: "authorizationUrl", traversal: Traversal::Literal, handling: Handling::Read });
            }
            if same_text(key, "tokenUrl") {
                return Some(Field { name: "tokenUrl", traversal: Traversal::Literal, handling: Handling::Read });
            }
            if same_text(key, "refreshUrl") {
                return Some(Field { name: "refreshUrl", traversal: Traversal::Literal, handling: Handling::Read });
            }
            if same_text(key, "scopes") {
                return Some(Field { name: "scopes", traversal: Traversal::Literal, handling: Handling::Read });
            }
            None
        },
        Context::ExternalDocs => {
            if same_text(key, "description") {
                return Some(Field { name: "description", traversal: Traversal::Literal, handling: Handling::Annotation });
            }
            if same_text(key, "url") {
                return Some(Field { name: "url", traversal: Traversal::Literal, handling: Handling::Annotation });
            }
            None
        },
        Context::Tag => {
            if same_text(key, "name") {
                return Some(Field { name: "name", traversal: Traversal::Literal, handling: Handling::Annotation });
            }
            if same_text(key, "description") {
                return Some(Field { name: "description", traversal: Traversal::Literal, handling: Handling::Annotation });
            }
            if same_text(key, "externalDocs") {
                return Some(Field { name: "externalDocs", traversal: Traversal::Object(Context::ExternalDocs), handling: Handling::Annotation });
            }
            None
        },
        Context::Discriminator => {
            if same_text(key, "propertyName") {
                return Some(Field { name: "propertyName", traversal: Traversal::Literal, handling: Handling::Unsupported("discriminator dispatch uses shapes rather than this property") });
            }
            if same_text(key, "mapping") {
                return Some(Field { name: "mapping", traversal: Traversal::Literal, handling: Handling::Read });
            }
            None
        },
        Context::Xml => {
            if same_text(key, "name") {
                return Some(Field { name: "name", traversal: Traversal::Literal, handling: Handling::Annotation });
            }
            if same_text(key, "namespace") {
                return Some(Field { name: "namespace", traversal: Traversal::Literal, handling: Handling::Annotation });
            }
            if same_text(key, "prefix") {
                return Some(Field { name: "prefix", traversal: Traversal::Literal, handling: Handling::Annotation });
            }
            if same_text(key, "attribute") {
                return Some(Field { name: "attribute", traversal: Traversal::Literal, handling: Handling::Annotation });
            }
            if same_text(key, "wrapped") {
                return Some(Field { name: "wrapped", traversal: Traversal::Literal, handling: Handling::Annotation });
            }
            None
        },
    }
}

/// Whether an object of this kind may be a `$ref` in place of its content.
pub open spec fn takes_reference(c: Context) -> bool {
    c == Context::Schema || c == Context::PropertySchema || c == Context::PathItem || c == Context::Parameter || c
        == Context::Header || c == Context::RequestBody || c == Context::Response || c == Context::Example || c
        == Context::Link || c == Context::SecurityScheme || c == Context::Callback
}

impl Context {
    /// Whether an object of this kind may be a `$ref` in place of its content.
    pub fn references(self) -> (r: bool)
        ensures
            r == takes_reference(self),
    {
        match self {
            Context::Schema | Context::PropertySchema | Context::PathItem | Context::Parameter | Context::Header
            | Context::RequestBody | Context::Response | Context::Example | Context::Link | Context::SecurityScheme
            | Context::Callback => true,
            _ => false,
        }
    }
}

/// Whether `c` is an ASCII digit.
pub open spec fn is_digit(c: char) -> bool {
    '0' <= c && c <= '9'
}

/// Whether a response key is a status code (`100` to `599`), a status range
/// (`1XX` to `5XX`), or `default`.
pub open spec fn is_response_key(key: Seq<char>) -> bool {
    key == "default"@ || (key.len() == 3 && '1' <= key[0] && key[0] <= '5' && ((is_digit(key[1]) && is_digit(key[2]))
        || (key[1] == 'X' && key[2] == 'X')))
}

/// Whether a response key is a status code, a status range, or `default`.
pub fn response_key(key: &str) -> (r: bool)
    ensures
        r == is_response_key(key@),
{
    if same_text(key, "default") {
        return true;
    }
    let cs = crate::text::chars_of(key);
    if cs.len() != 3 {
        return false;
    }
    let (a, b, c) = (cs[0], cs[1], cs[2]);
    '1' <= a && a <= '5' && (('0' <= b && b <= '9' && '0' <= c && c <= '9') || (b == 'X' && c == 'X'))
}



/// What a sweep found: warnings and problems, each as its pointer and text.
pub struct Findings {
    pub warnings: Seq<(Seq<char>, Seq<char>)>,
    pub problems: Seq<(Seq<char>, Seq<char>)>,
}

/// Nothing found.
pub open spec fn nothing() -> Findings {
    Findings { warnings: Seq::empty(), problems: Seq::empty() }
}

/// One warning.
pub open spec fn warning_at(path: Seq<char>, message: Seq<char>) -> Findings {
    Findings { warnings: seq![(path, message)], problems: Seq::empty() }
}

/// One problem.
pub open spec fn problem_at(path: Seq<char>, reason: Seq<char>) -> Findings {
    Findings { warnings: Seq::empty(), problems: seq![(path, reason)] }
}

/// What `a` found, then what `b` found.
pub open spec fn then(a: Findings, b: Findings) -> Findings {
    Findings { warnings: a.warnings + b.warnings, problems: a.problems + b.problems }
}

/// The value under a plain-string key `key` of a mapping, tags looked through.
pub open spec fn get(v: Yaml, key: Seq<char>) -> Option<Yaml> {
    match untag(v) {
        Yaml::Mapping(es) => entry_value(es@, key),
        _ => None,
    }
}

/// The value of the first entry whose key is the plain string `key`.
pub open spec fn entry_value(es: Seq<(Yaml, Yaml)>, key: Seq<char>) -> Option<Yaml>
    decreases es.len(),
{
    if es.len() == 0 {
        None
    } else {
        match es[0].0 {
            Yaml::String(k) => if k@ == key {
                Some(es[0].1)
            } else {
                entry_value(es.subrange(1, es.len() as int), key)
            },
            _ => entry_value(es.subrange(1, es.len() as int), key),
        }
    }
}

/// The boolean under `key`, if it is one.
pub open spec fn get_bool(v: Yaml, key: Seq<char>) -> Option<bool> {
    match get(v, key) {
        Some(x) => match untag(x) {
            Yaml::Bool(b) => Some(b),
            _ => None,
        },
        None => None,
    }
}

/// The string under `key`, if it is one.
pub open spec fn get_str(v: Yaml, key: Seq<char>) -> Option<Seq<char>> {
    match get(v, key) {
        Some(x) => match untag(x) {
            Yaml::String(s) => Some(s@),
            _ => None,
        },
        None => None,
    }
}

/// Whether the value is a boolean.
pub open spec fn is_bool(v: Yaml) -> bool {
    untag(v) is Bool
}

/// The text of a key as the sweep reads it: a plain string, or in the
/// `Responses` object a plain number.
pub open spec fn key_text(key: Yaml, context: Context) -> Option<Seq<char>> {
    match key {
        Yaml::String(k) => Some(k@),
        Yaml::Number(n) => if context == Context::Responses {
            Some(n@)
        } else {
            None
        },
        _ => None,
    }
}

/// The object kind a key opens by its shape rather than by the catalogue: a
/// path under `paths`, a status under `responses`, and any expression under a
/// callback.
pub open spec fn dynamic_context(context: Context, key: Seq<char>) -> Option<Context> {
    if context == Context::Paths && has_prefix(key, "/"@) {
        Some(Context::PathItem)
    } else if context == Context::Responses && is_response_key(key) {
        Some(Context::Response)
    } else if context == Context::Callback {
        Some(Context::PathItem)
    } else {
        None
    }
}

/// The extensions the generator reads in an object of kind `context`.
pub open spec fn handled_extension(context: Context, key: Seq<char>) -> bool {
    match context {
        Context::PropertySchema => key == "x-rust-type"@ || key == "x-rust-name"@ || key == "x-rust-derive"@ || key
            == "x-rust-serde-skip"@ || key == "x-omitempty"@ || key == "x-order"@ || key == "x-deprecated-reason"@
            || key == "x-enum-varnames"@ || key == "x-enumNames"@,
        Context::Schema => key == "x-rust-type"@ || key == "x-rust-name"@ || key == "x-rust-derive"@ || key
            == "x-deprecated-reason"@ || key == "x-enum-varnames"@ || key == "x-enumNames"@,
        Context::Operation => key == "x-rust-name"@,
        _ => false,
    }
}

/// The finding for an extension key: `x-go-` extensions belong to another
/// generator and pass quietly; any other the generator does not read warns.
pub open spec fn extension_findings(key: Seq<char>, context: Context, path: Seq<char>) -> Findings {
    if has_prefix(key, "x-go-"@) || handled_extension(context, key) {
        nothing()
    } else {
        warning_at(path, "this extension is not implemented here and is ignored"@)
    }
}

/// Whether some security requirement names a scope.
pub open spec fn names_a_scope(requirements: Seq<Yaml>) -> bool {
    exists|i: int|
        #![trigger requirements[i]]
        0 <= i < requirements.len() && match untag(requirements[i]) {
            Yaml::Mapping(schemes) => exists|j: int|
                #![trigger schemes@[j]]
                0 <= j < schemes@.len() && match untag(schemes@[j].1) {
                    Yaml::Sequence(scopes) => scopes@.len() > 0,
                    _ => false,
                },
            _ => false,
        }
}

/// Whether an `allOf` list merges more than it validates: two or more
/// members, or one member that is not a bare `$ref`.
pub open spec fn merging_all_of(members: Seq<Yaml>) -> bool {
    members.len() >= 2 || (members.len() == 1 && get(members[0], "$ref"@) is None)
}

/// The notes on a key's value: flattened security alternatives and unenforced
/// scopes, and what schema keywords do not carry over into Rust.
pub open spec fn value_notes(context: Context, key: Seq<char>, value: Yaml, path: Seq<char>) -> Findings {
    let security = if (context == Context::Document || context == Context::Operation) && key == "security"@ {
        match untag(value) {
            Yaml::Sequence(requirements) => then(
                if requirements@.len() > 1 {
                    warning_at(path, "security alternatives are flattened into a list of scheme names"@)
                } else {
                    nothing()
                },
                if names_a_scope(requirements@) {
                    warning_at(path, "security scopes are not enforced by the generated code"@)
                } else {
                    nothing()
                },
            ),
            _ => nothing(),
        }
    } else {
        nothing()
    };
    let schema = if context == Context::Schema || context == Context::PropertySchema {
        if key == "oneOf"@ || key == "anyOf"@ {
            warning_at(
                path,
                "Rust deserialization checks do not enforce all schema constraints, which can affect union match counts"@,
            )
        } else if key == "allOf"@ && (untag(value) matches Yaml::Sequence(members) && merging_all_of(members@)) {
            warning_at(path, "allOf merges properties rather than validating every member independently"@)
        } else if key == "default"@ && untag(value) is Null {
            warning_at(
                path,
                "the parser discards a null default, so an absent property does not receive explicit null"@,
            )
        } else if key == "default"@ && context == Context::Schema {
            warning_at(path, "defaults are applied only at supported property and query-parameter uses"@)
        } else {
            nothing()
        }
    } else {
        nothing()
    };
    then(security, schema)
}


/// Whether a value's YAML parses as an OpenAPI schema object: what
/// `serde_yaml::from_value::<openapiv3::Schema>` decides.
pub uninterp spec fn schema_parse_ok(v: Yaml) -> bool;

/// Whether a value deserializes as an OpenAPI schema object, by
/// `serde_yaml::from_value::<openapiv3::Schema>` on the value converted back
/// to YAML. The contract claims only that the answer is a function of the value.
#[verifier::external_body]
fn schema_parses(v: &Yaml) -> (r: bool)
    ensures
        r == schema_parse_ok(*v),
{
    serde_yaml::from_value::<openapiv3::Schema>(crate::yaml::value_of(v)).is_ok()
}

/// Whether position `i` holds the first occurrence of `needle` in `hay`.
pub open spec fn first_occurrence(hay: Seq<char>, needle: Seq<char>, i: int) -> bool {
    &&& crate::text::occurs_at(hay, needle, i)
    &&& forall|j: int| 0 <= j < i ==> !crate::text::occurs_at(hay, needle, j)
}

/// The text before the first occurrence of `needle`, or all of it.
pub open spec fn before_first(hay: Seq<char>, needle: Seq<char>) -> Seq<char> {
    if exists|i: int| first_occurrence(hay, needle, i) {
        hay.take(choose|i: int| first_occurrence(hay, needle, i))
    } else {
        hay
    }
}

/// Whether a schema sits in a wire format with no null representation: a
/// parameter, a header, or a multipart, form, or plain-text body, outside the
/// component schemas.
pub open spec fn wire_location(location: Seq<char>) -> bool {
    !has_prefix(location, "/components/schemas/"@) && (has_sub(location, "/parameters/"@) || has_sub(
        location,
        "/headers/"@,
    ) || has_sub(location, "/content/multipart~1form-data/"@) || has_sub(
        location,
        "/content/application~1x-www-form-urlencoded/"@,
    ) || has_sub(location, "/content/text~1plain/"@))
}

/// Whether a schema `type` is one OpenAPI 3.0 defines.
pub open spec fn known_schema_type(k: Seq<char>) -> bool {
    k == "string"@ || k == "integer"@ || k == "number"@ || k == "boolean"@ || k == "object"@ || k == "array"@
}

/// The six types OpenAPI 3.0 defines are each a known schema type, and no
/// other text is one: `string`, `integer`, `number`, `boolean`, `object` and
/// `array` pass the type check, everything else is a problem.
pub proof fn openapi_types_are_known(k: Seq<char>)
    ensures
        known_schema_type("string"@),
        known_schema_type("integer"@),
        known_schema_type("number"@),
        known_schema_type("boolean"@),
        known_schema_type("object"@),
        known_schema_type("array"@),
        known_schema_type(k) ==> k == "string"@ || k == "integer"@ || k == "number"@ || k == "boolean"@ || k
            == "object"@ || k == "array"@,
{
}

/// A schema whose `type` is one of the OpenAPI 3.0 types draws no problem
/// from its schema notes; one whose `type` is any other text draws a
/// problem naming that text.
pub proof fn known_types_draw_no_type_problem(value: Yaml, context: Context, path: Seq<char>)
    requires
        get_str(value, "type"@) matches Some(k) && (k == "string"@ || k == "integer"@ || k == "number"@ || k
            == "boolean"@ || k == "object"@ || k == "array"@),
    ensures
        schema_notes(value, context, path).problems.len() == 0,
{
}

/// A schema whose `type` is any other text draws exactly one problem, at its
/// `type`, naming the text.
pub proof fn unknown_types_draw_one_type_problem(value: Yaml, context: Context, path: Seq<char>)
    requires
        get_str(value, "type"@) matches Some(k) && !(k == "string"@ || k == "integer"@ || k == "number"@ || k
            == "boolean"@ || k == "object"@ || k == "array"@),
    ensures
        get_str(value, "type"@) matches Some(k) && schema_notes(value, context, path).problems == seq![
            (pointer_text(path, "type"@), "`"@ + k + "` is not an OpenAPI 3.0 schema type"@),
        ],
{
}

/// Whether the generator implements a `format` for the schema's `type`.
pub open spec fn format_handled(kind: Option<Seq<char>>, format: Seq<char>) -> bool {
    match kind {
        Some(k) => if k == "string"@ {
            format == "date"@ || format == "date-time"@ || format == "byte"@ || format == "binary"@ || format
                == "password"@ || format == "uuid"@
        } else if k == "integer"@ {
            format == "int32"@ || format == "int64"@
        } else if k == "number"@ {
            format == "float"@ || format == "double"@
        } else {
            false
        },
        None => false,
    }
}

/// Whether a schema carries a validation keyword.
pub open spec fn has_constraint(v: Yaml) -> bool {
    get(v, "multipleOf"@) is Some || get(v, "maximum"@) is Some || get(v, "exclusiveMaximum"@) is Some || get(v, "minimum"@) is Some || get(v, "exclusiveMinimum"@) is Some || get(v, "maxLength"@) is Some || get(v, "minLength"@) is Some || get(v, "pattern"@) is Some || get(v, "maxItems"@) is Some || get(v, "minItems"@) is Some || get(v, "uniqueItems"@) is Some || get(v, "maxProperties"@) is Some || get(v, "minProperties"@) is Some
}

/// Whether an `additionalProperties: false` object declares no properties.
pub open spec fn no_declared_properties(v: Yaml) -> bool {
    match get(v, "properties"@) {
        Some(p) => match untag(p) {
            Yaml::Mapping(es) => es@.len() == 0,
            _ => true,
        },
        None => true,
    }
}

/// The notes on a schema object: what of it the generated code does not honour.
/// The library holds no decider for which nullable defaults have a Rust
/// literal, nor for which nullable value types keep their constraints (both
/// belong to lowering a schema into the IR), so it gives neither of those
/// two notes.
pub open spec fn schema_notes(value: Yaml, context: Context, path: Seq<char>) -> Findings {
    let kind = get_str(value, "type"@);
    let n1 = if get(value, "x-rust-type"@) is Some && get(value, "allOf"@) is Some {
        warning_at(path, "constraints inherited through allOf are not enforced for x-rust-type"@)
    } else {
        nothing()
    };
    let n2 = if get_bool(value, "nullable"@) == Some(true) && schema_parse_ok(value) && wire_location(
        before_first(path, "/schema/"@),
    ) {
        warning_at(path, "nullable values have no supported null representation in this wire format"@)
    } else {
        nothing()
    };
    let n3 = match kind {
        Some(k) => if known_schema_type(k) {
            nothing()
        } else {
            problem_at(pointer_text(path, "type"@), "`"@ + k + "` is not an OpenAPI 3.0 schema type"@)
        },
        None => nothing(),
    };
    let n4 = if context == Context::Schema && has_constraint(value) {
        warning_at(path, "constraints are enforced only at supported field uses, not on type aliases or array items"@)
    } else {
        nothing()
    };
    let n5 = if get(value, "x-rust-derive"@) is Some && get(value, "x-rust-type"@) is None {
        warning_at(pointer_text(path, "x-rust-derive"@), "x-rust-derive requires x-rust-type and is otherwise ignored"@)
    } else {
        nothing()
    };
    let n6 = if (kind == Some("number"@) || kind == Some("boolean"@)) && get(value, "enum"@) is Some {
        warning_at(pointer_text(path, "enum"@), "number and boolean enum restrictions are not enforced"@)
    } else {
        nothing()
    };
    let n7 = match get_str(value, "format"@) {
        Some(f) => if format_handled(kind, f) {
            nothing()
        } else {
            warning_at(pointer_text(path, "format"@), "this format is not implemented and the base type is used"@)
        },
        None => nothing(),
    };
    let n8 = if kind == Some("object"@) && get_bool(value, "additionalProperties"@) == Some(false)
        && no_declared_properties(value) {
        warning_at(
            pointer_text(path, "additionalProperties"@),
            "an object without declared properties becomes a map and does not reject additional properties"@,
        )
    } else {
        nothing()
    };
    then(then(then(then(then(then(then(n1, n2), n3), n4), n5), n6), n7), n8)
}

/// The notes on a whole object: an optional request body, a media entry
/// without a schema, and a schema's own notes.
pub open spec fn object_notes(value: Yaml, context: Context, path: Seq<char>) -> Findings {
    if context == Context::RequestBody {
        if get_bool(value, "required"@) != Some(true) {
            warning_at(path, "optional request bodies are generated as required when a body type is emitted"@)
        } else {
            nothing()
        }
    } else if context == Context::MediaType {
        if get(value, "schema"@) is None {
            warning_at(path, "a media entry without a schema does not generate a body type"@)
        } else {
            nothing()
        }
    } else if context == Context::Schema || context == Context::PropertySchema {
        schema_notes(value, context, path)
    } else {
        nothing()
    }
}

/// The problem of an object nested past the inspection limit.
pub open spec fn depth_problem(path: Seq<char>) -> Findings {
    problem_at(path, "OpenAPI object nesting exceeds "@ + decimal(MAX_DEPTH as nat) + " levels"@)
}

/// What the sweep finds in `value`, read as an object of kind `context` at
/// `path`, `depth` objects deep.
pub open spec fn object_findings(value: Yaml, context: Context, path: Seq<char>, depth: nat) -> Findings
    decreases value, 0nat,
{
    if depth > MAX_DEPTH {
        depth_problem(path)
    } else {
        match value {
            Yaml::Tagged(_, inner) => object_findings(*inner, context, path, depth),
            Yaml::Mapping(es) => {
                let reference = takes_reference(context) && entry_value(es@, "$ref"@) is Some;
                then(
                    entries_findings(es@, context, path, depth, reference),
                    if !reference {
                        object_notes(value, context, path)
                    } else {
                        nothing()
                    },
                )
            },
            _ => problem_at(path, context_text(context) + " must be an object"@),
        }
    }
}

/// What the sweep finds in an object's entries, entry by entry; `reference`
/// says the object is a `$ref` whose siblings are ignored.
pub open spec fn entries_findings(
    es: Seq<(Yaml, Yaml)>,
    context: Context,
    path: Seq<char>,
    depth: nat,
    reference: bool,
) -> Findings
    decreases es, 0nat,
{
    if es.len() == 0 {
        nothing()
    } else {
        then(
            entries_findings(es.subrange(0, es.len() - 1), context, path, depth, reference),
            entry_findings(es[es.len() - 1].0, es[es.len() - 1].1, context, path, depth, reference),
        )
    }
}

/// What the sweep finds in one entry of an object: a key that is not a
/// string, a `$ref` that is not a string, an ignored sibling of a `$ref`, an
/// extension, a key the object kind does not know, a key the generator cannot
/// honour, and whatever the value under a known key holds.
pub open spec fn entry_findings(
    key: Yaml,
    child: Yaml,
    context: Context,
    path: Seq<char>,
    depth: nat,
    reference: bool,
) -> Findings
    decreases child, 2nat,
{
    match key_text(key, context) {
        None => problem_at(path, "OpenAPI object keys must be strings"@),
        Some(k) => {
            let at = pointer_text(path, k);
            if k == "$ref"@ && takes_reference(context) {
                if untag(child) is String {
                    nothing()
                } else {
                    problem_at(at, "$ref must be a string"@)
                }
            } else {
                then(
                    if reference && context != Context::PathItem {
                        warning_at(at, "siblings of $ref are ignored in OpenAPI 3.0"@)
                    } else {
                        nothing()
                    },
                    if has_prefix(k, "x-"@) {
                        extension_findings(k, context, at)
                    } else {
                        match dynamic_context(context, k) {
                            Some(next) => object_findings(child, next, at, depth + 1),
                            None => match catalogue(context, k) {
                                None => problem_at(at, "unknown OpenAPI 3.0 key `"@ + k + "` in "@ + context_text(context)),
                                Some(field) => then(
                                    if !reference {
                                        then(
                                            match field.handling {
                                                HandlingSpec::Unsupported(reason) => if untag(child) == Yaml::Bool(false) {
                                                    nothing()
                                                } else {
                                                    warning_at(at, reason)
                                                },
                                                _ => nothing(),
                                            },
                                            value_notes(context, k, child, at),
                                        )
                                    } else {
                                        nothing()
                                    },
                                    walk_findings(child, field.traversal, at, depth + 1),
                                ),
                            },
                        }
                    },
                )
            }
        },
    }
}

/// What the sweep finds in the value under a key, walked as the catalogue says.
pub open spec fn walk_findings(value: Yaml, traversal: Traversal, path: Seq<char>, depth: nat) -> Findings
    decreases value, 1nat,
{
    match traversal {
        Traversal::Literal => nothing(),
        Traversal::SchemaOrBool => if is_bool(value) {
            nothing()
        } else {
            object_findings(value, Context::Schema, path, depth)
        },
        Traversal::Object(c) => object_findings(value, c, path, depth),
        Traversal::NameMap(c) => match value {
            Yaml::Tagged(_, inner) => walk_findings(*inner, traversal, path, depth),
            Yaml::Mapping(es) => map_findings(es@, c, path, depth),
            _ => problem_at(path, "this OpenAPI field must be a map"@),
        },
        Traversal::Array(c) => match value {
            Yaml::Tagged(_, inner) => walk_findings(*inner, traversal, path, depth),
            Yaml::Sequence(items) => array_findings(items@, c, path, depth),
            _ => problem_at(path, "this OpenAPI field must be an array"@),
        },
    }
}

/// What the sweep finds in a map of named objects, name by name.
pub open spec fn map_findings(es: Seq<(Yaml, Yaml)>, c: Context, path: Seq<char>, depth: nat) -> Findings
    decreases es, 0nat,
{
    if es.len() == 0 {
        nothing()
    } else {
        then(
            map_findings(es.subrange(0, es.len() - 1), c, path, depth),
            match untag(es[es.len() - 1].0) {
                Yaml::String(name) => object_findings(es[es.len() - 1].1, c, pointer_text(path, name@), depth),
                _ => problem_at(path, "OpenAPI map names must be strings"@),
            },
        )
    }
}

/// What the sweep finds in a list of objects, item by item, each at its index.
pub open spec fn array_findings(items: Seq<Yaml>, c: Context, path: Seq<char>, depth: nat) -> Findings
    decreases items, 0nat,
{
    if items.len() == 0 {
        nothing()
    } else {
        then(
            array_findings(items.subrange(0, items.len() - 1), c, path, depth),
            object_findings(items[items.len() - 1], c, pointer_text(path, decimal((items.len() - 1) as nat)), depth),
        )
    }
}


/// What `then` builds is associative.
pub proof fn lemma_then_assoc(a: Findings, b: Findings, c: Findings)
    ensures
        then(then(a, b), c) == then(a, then(b, c)),
{
    assert(then(then(a, b), c).warnings =~= then(a, then(b, c)).warnings);
    assert(then(then(a, b), c).problems =~= then(a, then(b, c)).problems);
}

/// Finding nothing adds nothing.
pub proof fn lemma_then_nothing(a: Findings)
    ensures
        then(a, nothing()) == a,
        then(nothing(), a) == a,
{
    assert(then(a, nothing()).warnings =~= a.warnings);
    assert(then(a, nothing()).problems =~= a.problems);
    assert(then(nothing(), a).warnings =~= a.warnings);
    assert(then(nothing(), a).problems =~= a.problems);
}

/// The state of a sweep over one document: the warnings and problems found so far.
#[derive(Debug)]
pub struct Sweep {
    /// The document being checked, as messages name it.
    pub document: String,
    /// The warnings found, in the order found.
    pub warnings: Vec<Warning>,
    /// The problems found, in the order found.
    pub problems: Vec<Error>,
}

/// The pointer and reason of each problem.
pub open spec fn problem_texts(ps: Seq<Error>) -> Seq<(Seq<char>, Seq<char>)> {
    ps.map_values(
        |e: Error|
            match e {
                Error::InvalidSpec { path, reason, .. } => (path@, reason@),
                _ => (Seq::empty(), Seq::empty()),
            },
    )
}

/// Every problem is an invalid-spec error about `document`.
pub open spec fn problems_about(ps: Seq<Error>, document: Seq<char>) -> bool {
    forall|i: int| #![trigger ps[i]] 0 <= i < ps.len() ==> (ps[i] matches Error::InvalidSpec { document: d, .. } && d@ == document)
}

/// What a sweep has found so far.
pub open spec fn found(s: Sweep) -> Findings {
    Findings { warnings: crate::config::warning_texts(s.warnings@), problems: problem_texts(s.problems@) }
}

/// Whether `new` is `old` with `f` found after what `old` found.
pub open spec fn extends(old: Sweep, new: Sweep, f: Findings) -> bool {
    &&& new.document@ == old.document@
    &&& problems_about(new.problems@, new.document@)
    &&& found(new) == then(found(old), f)
}

impl Sweep {
    /// Record a problem at `path`.
    pub fn invalid(&mut self, path: &str, reason: &str)
        requires
            problems_about(old(self).problems@, old(self).document@),
        ensures
            extends(*old(self), *final(self), problem_at(path@, reason@)),
    {
        let document = self.document.clone();
        self.problems.push(Error::InvalidSpec { document, path: owned(path), reason: owned(reason) });
        assert(crate::config::warning_texts(self.warnings@) =~= crate::config::warning_texts(old(self).warnings@) + Seq::<(Seq<char>, Seq<char>)>::empty());
        assert(problem_texts(self.problems@) =~= problem_texts(old(self).problems@) + seq![(path@, reason@)]);
    }

    /// Record a warning at `path`.
    pub fn warn(&mut self, path: &str, message: &str)
        requires
            problems_about(old(self).problems@, old(self).document@),
        ensures
            extends(*old(self), *final(self), warning_at(path@, message@)),
    {
        self.warnings.push(Warning::new(path, message));
        assert(crate::config::warning_texts(self.warnings@) =~= crate::config::warning_texts(old(self).warnings@) + seq![(path@, message@)]);
        assert(problem_texts(self.problems@) =~= problem_texts(old(self).problems@) + Seq::<(Seq<char>, Seq<char>)>::empty());
    }
}

/// Finding `f` and then `g` extends by both.
pub proof fn lemma_extends_trans(a: Sweep, b: Sweep, c: Sweep, f: Findings, g: Findings)
    requires
        extends(a, b, f),
        extends(b, c, g),
    ensures
        extends(a, c, then(f, g)),
{
    lemma_then_assoc(found(a), f, g);
}

/// A sweep extends itself by nothing.
pub proof fn lemma_extends_refl(a: Sweep)
    requires
        problems_about(a.problems@, a.document@),
    ensures
        extends(a, a, nothing()),
{
    lemma_then_nothing(found(a));
}

/// The value of the first entry whose key is the plain string `key`, as the
/// entries from `k` on see it.
proof fn lemma_entry_value_step(es: Seq<(Yaml, Yaml)>, key: Seq<char>, k: int)
    requires
        0 <= k < es.len(),
    ensures
        entry_value(es.subrange(k, es.len() as int), key) == match es[k].0 {
            Yaml::String(s) => if s@ == key {
                Some(es[k].1)
            } else {
                entry_value(es.subrange(k + 1, es.len() as int), key)
            },
            _ => entry_value(es.subrange(k + 1, es.len() as int), key),
        },
{
    let tail = es.subrange(k, es.len() as int);
    assert(tail[0] == es[k]);
    assert(tail.subrange(1, tail.len() as int) =~= es.subrange(k + 1, es.len() as int));
}

/// The value under the plain-string key `key` of a mapping, tags looked through.
pub fn lookup<'a>(v: &'a Yaml, key: &str) -> (r: Option<&'a Yaml>)
    ensures
        match r {
            Some(x) => get(*v, key@) == Some(*x),
            None => get(*v, key@) is None,
        },
{
    match v.as_mapping() {
        None => None,
        Some(es) => {
            let mut k: usize = 0;
            assert(es@.subrange(0, es@.len() as int) =~= es@);
            while k < es.len()
                invariant
                    k <= es@.len(),
                    untag(*v) == Yaml::Mapping(*es),
                    entry_value(es@, key@) == entry_value(es@.subrange(k as int, es@.len() as int), key@),
                decreases es@.len() - k,
            {
                proof {
                    lemma_entry_value_step(es@, key@, k as int);
                }
                match &es[k].0 {
                    Yaml::String(name) => {
                        if same_text(name.as_str(), key) {
                            return Some(&es[k].1);
                        }
                    },
                    _ => {},
                }
                k = k + 1;
            }
            proof {
                assert(es@.subrange(k as int, es@.len() as int).len() == 0);
            }
            None
        },
    }
}

/// The boolean under `key`, if it is one.
fn lookup_bool(v: &Yaml, key: &str) -> (r: Option<bool>)
    ensures
        r == get_bool(*v, key@),
{
    match lookup(v, key) {
        Some(x) => x.as_bool(),
        None => None,
    }
}

/// The string under `key`, if it is one.
fn lookup_str<'a>(v: &'a Yaml, key: &str) -> (r: Option<&'a str>)
    ensures
        crate::loader::opt_text(r) == get_str(*v, key@),
{
    match lookup(v, key) {
        Some(x) => x.as_str(),
        None => None,
    }
}

/// Whether a schema carries a validation keyword.
fn carries_constraint(v: &Yaml) -> (r: bool)
    ensures
        r == has_constraint(*v),
{
    lookup(v, "multipleOf").is_some() || lookup(v, "maximum").is_some() || lookup(v, "exclusiveMaximum").is_some() || lookup(v, "minimum").is_some() || lookup(v, "exclusiveMinimum").is_some() || lookup(v, "maxLength").is_some() || lookup(v, "minLength").is_some() || lookup(v, "pattern").is_some() || lookup(v, "maxItems").is_some() || lookup(v, "minItems").is_some() || lookup(v, "uniqueItems").is_some() || lookup(v, "maxProperties").is_some() || lookup(v, "minProperties").is_some()
}

/// Whether a schema `type` is one OpenAPI 3.0 defines.
fn schema_type_known(k: &str) -> (r: bool)
    ensures
        r == known_schema_type(k@),
{
    same_text(k, "string") || same_text(k, "integer") || same_text(k, "number") || same_text(k, "boolean")
        || same_text(k, "object") || same_text(k, "array")
}

/// Whether the generator implements `format` for the schema's `type`.
fn format_known(kind: Option<&str>, format: &str) -> (r: bool)
    ensures
        r == format_handled(crate::loader::opt_text(kind), format@),
{
    match kind {
        Some(k) => {
            if same_text(k, "string") {
                same_text(format, "date") || same_text(format, "date-time") || same_text(format, "byte")
                    || same_text(format, "binary") || same_text(format, "password") || same_text(format, "uuid")
            } else if same_text(k, "integer") {
                same_text(format, "int32") || same_text(format, "int64")
            } else if same_text(k, "number") {
                same_text(format, "float") || same_text(format, "double")
            } else {
                false
            }
        },
        None => false,
    }
}

/// The text before the first occurrence of `needle`, or all of it.
fn text_before<'a>(hay: &'a str, needle: &str) -> (r: &'a str)
    ensures
        r@ == before_first(hay@, needle@),
{
    let h = crate::text::chars_of(hay);
    let n = crate::text::chars_of(needle);
    let mut i: usize = 0;
    while i < h.len()
        invariant
            i <= h@.len(),
            h@ == hay@,
            n@ == needle@,
            forall|j: int| 0 <= j < i ==> !crate::text::occurs_at(hay@, needle@, j),
        decreases h@.len() - i,
    {
        if crate::text::occurs_at_exec(h.as_slice(), n.as_slice(), i) {
            proof {
                assert(first_occurrence(hay@, needle@, i as int));
                let k = choose|k: int| first_occurrence(hay@, needle@, k);
                if k < i {
                } else if k > i {
                    assert(crate::text::occurs_at(hay@, needle@, i as int));
                }
                assert(hay@.subrange(0, i as int) =~= hay@.take(i as int));
            }
            return hay.substring_char(0, i);
        }
        i = i + 1;
    }
    proof {
        if exists|k: int| first_occurrence(hay@, needle@, k) {
            let k = choose|k: int| first_occurrence(hay@, needle@, k);
            assert(k >= hay@.len());
            assert(needle@.len() == 0);
            assert(crate::text::occurs_at(hay@, needle@, 0)) by {
                assert(hay@.subrange(0, 0) =~= needle@);
            }
            assert(hay@.len() == 0);
            assert(hay@.take(k) =~= hay@);
        }
    }
    hay
}


/// Whether some security requirement names a scope.
fn any_scope(requirements: &Vec<Yaml>) -> (r: bool)
    ensures
        r == names_a_scope(requirements@),
{
    let mut i: usize = 0;
    while i < requirements.len()
        invariant
            i <= requirements@.len(),
            forall|x: int| #![trigger requirements@[x]] 0 <= x < i ==> !(match untag(requirements@[x]) {
                Yaml::Mapping(schemes) => exists|j: int|
                    #![trigger schemes@[j]]
                    0 <= j < schemes@.len() && match untag(schemes@[j].1) {
                        Yaml::Sequence(scopes) => scopes@.len() > 0,
                        _ => false,
                    },
                _ => false,
            }),
        decreases requirements@.len() - i,
    {
        match requirements[i].as_mapping() {
            Some(schemes) => {
                let mut j: usize = 0;
                while j < schemes.len()
                    invariant
                        j <= schemes@.len(),
                        i < requirements@.len(),
                        untag(requirements@[i as int]) == Yaml::Mapping(*schemes),
                        forall|y: int| #![trigger schemes@[y]] 0 <= y < j ==> !(match untag(schemes@[y].1) {
                            Yaml::Sequence(scopes) => scopes@.len() > 0,
                            _ => false,
                        }),
                    decreases schemes@.len() - j,
                {
                    match schemes[j].1.as_sequence() {
                        Some(scopes) => {
                            if scopes.len() > 0 {
                                assert(untag(schemes@[j as int].1) == Yaml::Sequence(*scopes));
                                assert(exists|y: int|
                                    #![trigger schemes@[y]]
                                    0 <= y < schemes@.len() && match untag(schemes@[y].1) {
                                        Yaml::Sequence(sc) => sc@.len() > 0,
                                        _ => false,
                                    });
                                assert(match untag(requirements@[i as int]) {
                                    Yaml::Mapping(sch) => exists|y: int|
                                        #![trigger sch@[y]]
                                        0 <= y < sch@.len() && match untag(sch@[y].1) {
                                            Yaml::Sequence(sc) => sc@.len() > 0,
                                            _ => false,
                                        },
                                    _ => false,
                                });
                                assert(names_a_scope(requirements@));
                                return true;
                            }
                        },
                        None => {},
                    }
                    j = j + 1;
                }
            },
            None => {},
        }
        i = i + 1;
    }
    false
}

/// Whether an `allOf` value merges more than it validates.
fn merges_members(value: &Yaml) -> (r: bool)
    ensures
        r == (untag(*value) matches Yaml::Sequence(members) && merging_all_of(members@)),
{
    match value.as_sequence() {
        Some(members) => members.len() >= 2 || (members.len() == 1 && lookup(&members[0], "$ref").is_none()),
        None => false,
    }
}

/// Whether a schema sits in a wire format with no null representation.
fn in_wire_location(location: &str) -> (r: bool)
    ensures
        r == wire_location(location@),
{
    !crate::text::starts_with_text(location, "/components/schemas/") && (crate::text::contains_text(
        location,
        "/parameters/",
    ) || crate::text::contains_text(location, "/headers/") || crate::text::contains_text(
        location,
        "/content/multipart~1form-data/",
    ) || crate::text::contains_text(location, "/content/application~1x-www-form-urlencoded/")
        || crate::text::contains_text(location, "/content/text~1plain/"))
}

/// Whether an object declares no properties.
fn declares_no_properties(value: &Yaml) -> (r: bool)
    ensures
        r == no_declared_properties(*value),
{
    match lookup(value, "properties") {
        Some(p) => match p.as_mapping() {
            Some(es) => es.len() == 0,
            None => true,
        },
        None => true,
    }
}

/// Whether an extension key is one the generator reads here.
fn extension_handled(context: Context, key: &str) -> (r: bool)
    ensures
        r == handled_extension(context, key@),
{
    match context {
        Context::PropertySchema => same_text(key, "x-rust-type") || same_text(key, "x-rust-name") || same_text(
            key,
            "x-rust-derive",
        ) || same_text(key, "x-rust-serde-skip") || same_text(key, "x-omitempty") || same_text(key, "x-order")
            || same_text(key, "x-deprecated-reason") || same_text(key, "x-enum-varnames") || same_text(
            key,
            "x-enumNames",
        ),
        Context::Schema => same_text(key, "x-rust-type") || same_text(key, "x-rust-name") || same_text(
            key,
            "x-rust-derive",
        ) || same_text(key, "x-deprecated-reason") || same_text(key, "x-enum-varnames") || same_text(
            key,
            "x-enumNames",
        ),
        Context::Operation => same_text(key, "x-rust-name"),
        _ => false,
    }
}

impl Sweep {
    /// Record a warning at `path` when `cond` holds.
    fn warn_if(&mut self, cond: bool, path: &str, message: &str)
        requires
            problems_about(old(self).problems@, old(self).document@),
        ensures
            extends(*old(self), *final(self), if cond {
                warning_at(path@, message@)
            } else {
                nothing()
            }),
    {
        if cond {
            self.warn(path, message);
        } else {
            proof {
                lemma_extends_refl(*self);
            }
        }
    }

    /// Warn about an extension key the generator does not read.
    fn extension(&mut self, key: &str, context: Context, path: &str)
        requires
            problems_about(old(self).problems@, old(self).document@),
        ensures
            extends(*old(self), *final(self), extension_findings(key@, context, path@)),
    {
        let ignored = crate::text::starts_with_text(key, "x-go-") || extension_handled(context, key);
        self.warn_if(!ignored, path, "this extension is not implemented here and is ignored");
    }

    /// The notes on a key's value.
    fn value_notes(&mut self, context: Context, key: &str, value: &Yaml, path: &str)
        requires
            problems_about(old(self).problems@, old(self).document@),
        ensures
            extends(*old(self), *final(self), value_notes(context, key@, *value, path@)),
    {
        let ghost s0 = *self;
        let ghost security = if (context == Context::Document || context == Context::Operation) && key@ == "security"@ {
            match untag(*value) {
                Yaml::Sequence(requirements) => then(
                    if requirements@.len() > 1 {
                        warning_at(path@, "security alternatives are flattened into a list of scheme names"@)
                    } else {
                        nothing()
                    },
                    if names_a_scope(requirements@) {
                        warning_at(path@, "security scopes are not enforced by the generated code"@)
                    } else {
                        nothing()
                    },
                ),
                _ => nothing(),
            }
        } else {
            nothing()
        };
        if (context == Context::Document || context == Context::Operation) && same_text(key, "security") {
            match value.as_sequence() {
                Some(requirements) => {
                    let ghost a = *self;
                    self.warn_if(requirements.len() > 1, path, "security alternatives are flattened into a list of scheme names");
                    let ghost b = *self;
                    let scoped = any_scope(requirements);
                    self.warn_if(scoped, path, "security scopes are not enforced by the generated code");
                    proof {
                        lemma_extends_trans(a, b, *self, if requirements@.len() > 1 {
                            warning_at(path@, "security alternatives are flattened into a list of scheme names"@)
                        } else {
                            nothing()
                        }, if names_a_scope(requirements@) {
                            warning_at(path@, "security scopes are not enforced by the generated code"@)
                        } else {
                            nothing()
                        });
                    }
                },
                None => {
                    proof {
                        lemma_extends_refl(*self);
                    }
                },
            }
        } else {
            proof {
                lemma_extends_refl(*self);
            }
        }
        let ghost s1 = *self;
        assert(extends(s0, s1, security));
        let ghost schema = if context == Context::Schema || context == Context::PropertySchema {
            if key@ == "oneOf"@ || key@ == "anyOf"@ {
                warning_at(
                    path@,
                    "Rust deserialization checks do not enforce all schema constraints, which can affect union match counts"@,
                )
            } else if key@ == "allOf"@ && (untag(*value) matches Yaml::Sequence(members) && merging_all_of(members@)) {
                warning_at(path@, "allOf merges properties rather than validating every member independently"@)
            } else if key@ == "default"@ && untag(*value) is Null {
                warning_at(
                    path@,
                    "the parser discards a null default, so an absent property does not receive explicit null"@,
                )
            } else if key@ == "default"@ && context == Context::Schema {
                warning_at(path@, "defaults are applied only at supported property and query-parameter uses"@)
            } else {
                nothing()
            }
        } else {
            nothing()
        };
        if context == Context::Schema || context == Context::PropertySchema {
            if same_text(key, "oneOf") || same_text(key, "anyOf") {
                self.warn(
                    path,
                    "Rust deserialization checks do not enforce all schema constraints, which can affect union match counts",
                );
            } else if same_text(key, "allOf") && merges_members(value) {
                self.warn(path, "allOf merges properties rather than validating every member independently");
            } else if same_text(key, "default") && value.is_null() {
                self.warn(path, "the parser discards a null default, so an absent property does not receive explicit null");
            } else if same_text(key, "default") && context == Context::Schema {
                self.warn(path, "defaults are applied only at supported property and query-parameter uses");
            } else {
                proof {
                    lemma_extends_refl(*self);
                }
            }
        } else {
            proof {
                lemma_extends_refl(*self);
            }
        }
        proof {
            lemma_extends_trans(s0, s1, *self, security, schema);
        }
    }
}


impl Sweep {
    /// Record a problem at `path` when `cond` holds.
    fn invalid_if(&mut self, cond: bool, path: &str, reason: &str)
        requires
            problems_about(old(self).problems@, old(self).document@),
        ensures
            extends(*old(self), *final(self), if cond {
                problem_at(path@, reason@)
            } else {
                nothing()
            }),
    {
        if cond {
            self.invalid(path, reason);
        } else {
            proof {
                lemma_extends_refl(*self);
            }
        }
    }

    /// The notes on a schema object.
    fn schema_notes(&mut self, value: &Yaml, context: Context, path: &str)
        requires
            problems_about(old(self).problems@, old(self).document@),
        ensures
            extends(*old(self), *final(self), schema_notes(*value, context, path@)),
    {
        let ghost s0 = *self;
        let kind = lookup_str(value, "type");
        let ghost k = crate::loader::opt_text(kind);
        self.warn_if(
            lookup(value, "x-rust-type").is_some() && lookup(value, "allOf").is_some(),
            path,
            "constraints inherited through allOf are not enforced for x-rust-type",
        );
        let ghost s1 = *self;
        let nullable_on_wire = lookup_bool(value, "nullable") == Some(true) && schema_parses(value) && in_wire_location(
            text_before(path, "/schema/"),
        );
        self.warn_if(nullable_on_wire, path, "nullable values have no supported null representation in this wire format");
        let ghost s2 = *self;
        proof {
            lemma_extends_trans(s0, s1, s2, if get(*value, "x-rust-type"@) is Some && get(*value, "allOf"@) is Some {
                warning_at(path@, "constraints inherited through allOf are not enforced for x-rust-type"@)
            } else {
                nothing()
            }, if nullable_on_wire {
                warning_at(path@, "nullable values have no supported null representation in this wire format"@)
            } else {
                nothing()
            });
        }
        match kind {
            Some(t) => {
                if !schema_type_known(t) {
                    let at = pointer(path, "type");
                    let mut reason = owned("`");
                    push_str(&mut reason, t);
                    push_str(&mut reason, "` is not an OpenAPI 3.0 schema type");
                    self.invalid(at.as_str(), reason.as_str());
                } else {
                    proof {
                        lemma_extends_refl(*self);
                    }
                }
            },
            None => {
                proof {
                    lemma_extends_refl(*self);
                }
            },
        }
        let ghost n3 = match k {
            Some(t) => if known_schema_type(t) {
                nothing()
            } else {
                problem_at(pointer_text(path@, "type"@), "`"@ + t + "` is not an OpenAPI 3.0 schema type"@)
            },
            None => nothing(),
        };
        let ghost s3 = *self;
        assert(extends(s2, s3, n3));
        proof {
            lemma_extends_trans(s0, s2, s3, then(if get(*value, "x-rust-type"@) is Some && get(*value, "allOf"@) is Some {
                warning_at(path@, "constraints inherited through allOf are not enforced for x-rust-type"@)
            } else {
                nothing()
            }, if nullable_on_wire {
                warning_at(path@, "nullable values have no supported null representation in this wire format"@)
            } else {
                nothing()
            }), n3);
        }
        let ghost f3 = then(then(if get(*value, "x-rust-type"@) is Some && get(*value, "allOf"@) is Some {
            warning_at(path@, "constraints inherited through allOf are not enforced for x-rust-type"@)
        } else {
            nothing()
        }, if nullable_on_wire {
            warning_at(path@, "nullable values have no supported null representation in this wire format"@)
        } else {
            nothing()
        }), n3);
        self.warn_if(
            context == Context::Schema && carries_constraint(value),
            path,
            "constraints are enforced only at supported field uses, not on type aliases or array items",
        );
        let ghost s4 = *self;
        let ghost n4 = if context == Context::Schema && has_constraint(*value) {
            warning_at(path@, "constraints are enforced only at supported field uses, not on type aliases or array items"@)
        } else {
            nothing()
        };
        proof {
            lemma_extends_trans(s0, s3, s4, f3, n4);
        }
        let derive_at = pointer(path, "x-rust-derive");
        self.warn_if(
            lookup(value, "x-rust-derive").is_some() && lookup(value, "x-rust-type").is_none(),
            derive_at.as_str(),
            "x-rust-derive requires x-rust-type and is otherwise ignored",
        );
        let ghost s5 = *self;
        let ghost n5 = if get(*value, "x-rust-derive"@) is Some && get(*value, "x-rust-type"@) is None {
            warning_at(pointer_text(path@, "x-rust-derive"@), "x-rust-derive requires x-rust-type and is otherwise ignored"@)
        } else {
            nothing()
        };
        proof {
            lemma_extends_trans(s0, s4, s5, then(f3, n4), n5);
        }
        let numeric_kind = match kind {
            Some(t) => same_text(t, "number") || same_text(t, "boolean"),
            None => false,
        };
        let enum_at = pointer(path, "enum");
        self.warn_if(
            numeric_kind && lookup(value, "enum").is_some(),
            enum_at.as_str(),
            "number and boolean enum restrictions are not enforced",
        );
        let ghost s6 = *self;
        let ghost n6 = if (k == Some("number"@) || k == Some("boolean"@)) && get(*value, "enum"@) is Some {
            warning_at(pointer_text(path@, "enum"@), "number and boolean enum restrictions are not enforced"@)
        } else {
            nothing()
        };
        proof {
            lemma_extends_trans(s0, s5, s6, then(then(f3, n4), n5), n6);
        }
        match lookup_str(value, "format") {
            Some(f) => {
                let format_at = pointer(path, "format");
                self.warn_if(
                    !format_known(kind, f),
                    format_at.as_str(),
                    "this format is not implemented and the base type is used",
                );
            },
            None => {
                proof {
                    lemma_extends_refl(*self);
                }
            },
        }
        let ghost s7 = *self;
        let ghost n7 = match get_str(*value, "format"@) {
            Some(f) => if format_handled(k, f) {
                nothing()
            } else {
                warning_at(pointer_text(path@, "format"@), "this format is not implemented and the base type is used"@)
            },
            None => nothing(),
        };
        assert(extends(s6, s7, n7));
        proof {
            lemma_extends_trans(s0, s6, s7, then(then(then(f3, n4), n5), n6), n7);
        }
        let object_kind = match kind {
            Some(t) => same_text(t, "object"),
            None => false,
        };
        let props_at = pointer(path, "additionalProperties");
        self.warn_if(
            object_kind && lookup_bool(value, "additionalProperties") == Some(false) && declares_no_properties(value),
            props_at.as_str(),
            "an object without declared properties becomes a map and does not reject additional properties",
        );
        let ghost n8 = if k == Some("object"@) && get_bool(*value, "additionalProperties"@) == Some(false)
            && no_declared_properties(*value) {
            warning_at(
                pointer_text(path@, "additionalProperties"@),
                "an object without declared properties becomes a map and does not reject additional properties"@,
            )
        } else {
            nothing()
        };
        proof {
            lemma_extends_trans(s0, s7, *self, then(then(then(then(f3, n4), n5), n6), n7), n8);
            assert(schema_notes(*value, context, path@) == then(then(then(then(then(f3, n4), n5), n6), n7), n8));
        }
    }

    /// The notes on a whole object.
    fn object_notes(&mut self, value: &Yaml, context: Context, path: &str)
        requires
            problems_about(old(self).problems@, old(self).document@),
        ensures
            extends(*old(self), *final(self), object_notes(*value, context, path@)),
    {
        if context == Context::RequestBody {
            self.warn_if(
                lookup_bool(value, "required") != Some(true),
                path,
                "optional request bodies are generated as required when a body type is emitted",
            );
        } else if context == Context::MediaType {
            self.warn_if(
                lookup(value, "schema").is_none(),
                path,
                "a media entry without a schema does not generate a body type",
            );
        } else if context == Context::Schema || context == Context::PropertySchema {
            self.schema_notes(value, context, path);
        } else {
            proof {
                lemma_extends_refl(*self);
            }
        }
    }
}


/// The text of a key as the sweep reads it.
fn key_of<'a>(key: &'a Yaml, context: Context) -> (r: Option<&'a str>)
    ensures
        crate::loader::opt_text(r) == key_text(*key, context),
{
    match key {
        Yaml::String(k) => Some(k.as_str()),
        Yaml::Number(n) => if context == Context::Responses {
            Some(n.as_str())
        } else {
            None
        },
        _ => None,
    }
}

/// The object kind a key opens by its shape.
fn dynamic_of(context: Context, key: &str) -> (r: Option<Context>)
    ensures
        r == dynamic_context(context, key@),
{
    if context == Context::Paths && crate::text::starts_with_text(key, "/") {
        Some(Context::PathItem)
    } else if context == Context::Responses && response_key(key) {
        Some(Context::Response)
    } else if context == Context::Callback {
        Some(Context::PathItem)
    } else {
        None
    }
}

impl Sweep {
    /// Check `value` as an object of kind `context` at `path`, `depth` objects deep.
    pub fn object(&mut self, value: &Yaml, context: Context, path: &str, depth: usize)
        requires
            problems_about(old(self).problems@, old(self).document@),
        ensures
            extends(*old(self), *final(self), object_findings(*value, context, path@, depth as nat)),
        decreases value, 0nat,
    {
        if depth > MAX_DEPTH {
            let mut reason = owned("OpenAPI object nesting exceeds ");
            let digits = decimal_string(MAX_DEPTH as u64);
            push_str(&mut reason, digits.as_str());
            push_str(&mut reason, " levels");
            self.invalid(path, reason.as_str());
            return;
        }
        match value {
            Yaml::Tagged(_, inner) => {
                self.object(inner, context, path, depth);
            },
            Yaml::Mapping(entries) => {
                let reference = context.references() && lookup(value, "$ref").is_some();
                let ghost s0 = *self;
                proof {
                    lemma_extends_refl(*self);
                    assert(entries@.subrange(0, 0).len() == 0);
                }
                let mut k: usize = 0;
                while k < entries.len()
                    invariant
                        k <= entries@.len(),
                        *value == Yaml::Mapping(*entries),
                        depth <= MAX_DEPTH,
                        reference == (takes_reference(context) && entry_value(entries@, "$ref"@) is Some),
                        problems_about(s0.problems@, s0.document@),
                        extends(s0, *self, entries_findings(entries@.subrange(0, k as int), context, path@, depth as nat, reference)),
                    decreases entries@.len() - k,
                {
                    let ghost before = *self;
                    proof {
                        assert(decreases_to!(*value => entries@[k as int].1)) by {
                            assert(decreases_to!(*value => value->Mapping_0));
                            assert(decreases_to!(*entries => entries@));
                            assert(decreases_to!(entries@ => entries@[k as int]));
                            assert(decreases_to!(entries@[k as int] => entries@[k as int].1));
                        }
                    }
                    self.entry(&entries[k].0, &entries[k].1, context, path, depth, reference);
                    proof {
                        let now = entries@.subrange(0, k + 1);
                        assert(now.subrange(0, k as int) =~= entries@.subrange(0, k as int));
                        assert(now[k as int] == entries@[k as int]);
                        lemma_extends_trans(s0, before, *self, entries_findings(entries@.subrange(0, k as int), context, path@, depth as nat, reference), entry_findings(entries@[k as int].0, entries@[k as int].1, context, path@, depth as nat, reference));
                    }
                    k = k + 1;
                }
                proof {
                    assert(entries@.subrange(0, entries@.len() as int) =~= entries@);
                }
                let ghost s1 = *self;
                if !reference {
                    self.object_notes(value, context, path);
                } else {
                    proof {
                        lemma_extends_refl(*self);
                    }
                }
                proof {
                    lemma_extends_trans(s0, s1, *self, entries_findings(entries@, context, path@, depth as nat, reference), if !reference {
                        object_notes(*value, context, path@)
                    } else {
                        nothing()
                    });
                }
            },
            _ => {
                let mut reason = owned(context_name(context));
                push_str(&mut reason, " must be an object");
                self.invalid(path, reason.as_str());
            },
        }
    }

    /// Check one entry of an object of kind `context` at `path`.
    fn entry(&mut self, key: &Yaml, child: &Yaml, context: Context, path: &str, depth: usize, reference: bool)
        requires
            problems_about(old(self).problems@, old(self).document@),
            depth <= MAX_DEPTH,
        ensures
            extends(*old(self), *final(self), entry_findings(*key, *child, context, path@, depth as nat, reference)),
        decreases child, 2nat,
    {
        let k = match key_of(key, context) {
            Some(k) => k,
            None => {
                self.invalid(path, "OpenAPI object keys must be strings");
                return;
            },
        };
        let at = pointer(path, k);
        if same_text(k, "$ref") && context.references() {
            self.invalid_if(child.as_str().is_none(), at.as_str(), "$ref must be a string");
            return;
        }
        let ghost s0 = *self;
        self.warn_if(reference && context != Context::PathItem, at.as_str(), "siblings of $ref are ignored in OpenAPI 3.0");
        let ghost s1 = *self;
        let ghost first = if reference && context != Context::PathItem {
            warning_at(at@, "siblings of $ref are ignored in OpenAPI 3.0"@)
        } else {
            nothing()
        };
        if crate::text::starts_with_text(k, "x-") {
            self.extension(k, context, at.as_str());
            proof {
                lemma_extends_trans(s0, s1, *self, first, extension_findings(k@, context, at@));
            }
            return;
        }
        match dynamic_of(context, k) {
            Some(next) => {
                self.object(child, next, at.as_str(), depth + 1);
                proof {
                    lemma_extends_trans(s0, s1, *self, first, object_findings(*child, next, at@, (depth + 1) as nat));
                }
            },
            None => {
                match find_field(context, k) {
                    None => {
                        let mut reason = owned("unknown OpenAPI 3.0 key `");
                        push_str(&mut reason, k);
                        push_str(&mut reason, "` in ");
                        push_str(&mut reason, context_name(context));
                        self.invalid(at.as_str(), reason.as_str());
                        proof {
                            lemma_extends_trans(s0, s1, *self, first, problem_at(at@, "unknown OpenAPI 3.0 key `"@ + k@ + "` in "@ + context_text(context)));
                        }
                    },
                    Some(field) => {
                        let ghost s2 = *self;
                        let ghost unsupported = match field_view(Some(field)).unwrap().handling {
                            HandlingSpec::Unsupported(reason) => if untag(*child) == Yaml::Bool(false) {
                                nothing()
                            } else {
                                warning_at(at@, reason)
                            },
                            _ => nothing(),
                        };
                        if !reference {
                            match field.handling {
                                Handling::Unsupported(reason) => {
                                    let explicit_off = match child.as_bool() {
                                        Some(b) => !b,
                                        None => false,
                                    };
                                    self.warn_if(!explicit_off, at.as_str(), reason);
                                },
                                _ => {
                                    proof {
                                        lemma_extends_refl(*self);
                                    }
                                },
                            }
                            let ghost s3 = *self;
                            self.value_notes(context, k, child, at.as_str());
                            proof {
                                lemma_extends_trans(s2, s3, *self, unsupported, value_notes(context, k@, *child, at@));
                            }
                        } else {
                            proof {
                                lemma_extends_refl(*self);
                            }
                        }
                        let ghost s4 = *self;
                        let ghost notes = if !reference {
                            then(unsupported, value_notes(context, k@, *child, at@))
                        } else {
                            nothing()
                        };
                        self.walk(child, field.traversal, at.as_str(), depth + 1);
                        proof {
                            lemma_extends_trans(s2, s4, *self, notes, walk_findings(*child, field.traversal, at@, (depth + 1) as nat));
                            lemma_extends_trans(s0, s1, *self, first, then(notes, walk_findings(*child, field.traversal, at@, (depth + 1) as nat)));
                        }
                    },
                }
            },
        }
    }

    /// Walk the value under a key as the catalogue says.
    pub fn walk(&mut self, value: &Yaml, traversal: Traversal, path: &str, depth: usize)
        requires
            problems_about(old(self).problems@, old(self).document@),
        ensures
            extends(*old(self), *final(self), walk_findings(*value, traversal, path@, depth as nat)),
        decreases value, 1nat,
    {
        match traversal {
            Traversal::Literal => {
                proof {
                    lemma_extends_refl(*self);
                }
            },
            Traversal::SchemaOrBool => {
                if value.as_bool().is_some() {
                    proof {
                        lemma_extends_refl(*self);
                    }
                } else {
                    self.object(value, Context::Schema, path, depth);
                }
            },
            Traversal::Object(c) => {
                self.object(value, c, path, depth);
            },
            Traversal::NameMap(c) => {
                match value {
                    Yaml::Tagged(_, inner) => {
                        self.walk(inner, traversal, path, depth);
                    },
                    Yaml::Mapping(entries) => {
                        let ghost s0 = *self;
                        proof {
                            lemma_extends_refl(*self);
                            assert(entries@.subrange(0, 0).len() == 0);
                        }
                        let mut k: usize = 0;
                        while k < entries.len()
                            invariant
                                k <= entries@.len(),
                                *value == Yaml::Mapping(*entries),
                                problems_about(s0.problems@, s0.document@),
                                extends(s0, *self, map_findings(entries@.subrange(0, k as int), c, path@, depth as nat)),
                            decreases entries@.len() - k,
                        {
                            let ghost before = *self;
                            proof {
                                assert(decreases_to!(*value => entries@[k as int].1)) by {
                                    assert(decreases_to!(*value => value->Mapping_0));
                                    assert(decreases_to!(*entries => entries@));
                                    assert(decreases_to!(entries@ => entries@[k as int]));
                                    assert(decreases_to!(entries@[k as int] => entries@[k as int].1));
                                }
                            }
                            let ghost step = match untag(entries@[k as int].0) {
                                Yaml::String(name) => object_findings(entries@[k as int].1, c, pointer_text(path@, name@), depth as nat),
                                _ => problem_at(path@, "OpenAPI map names must be strings"@),
                            };
                            match entries[k].0.as_str() {
                                Some(name) => {
                                    let at = pointer(path, name);
                                    self.object(&entries[k].1, c, at.as_str(), depth);
                                },
                                None => {
                                    self.invalid(path, "OpenAPI map names must be strings");
                                },
                            }
                            proof {
                                let now = entries@.subrange(0, k + 1);
                                assert(now.subrange(0, k as int) =~= entries@.subrange(0, k as int));
                                assert(now[k as int] == entries@[k as int]);
                                lemma_extends_trans(s0, before, *self, map_findings(entries@.subrange(0, k as int), c, path@, depth as nat), step);
                            }
                            k = k + 1;
                        }
                        proof {
                            assert(entries@.subrange(0, entries@.len() as int) =~= entries@);
                        }
                    },
                    _ => {
                        self.invalid(path, "this OpenAPI field must be a map");
                    },
                }
            },
            Traversal::Array(c) => {
                match value {
                    Yaml::Tagged(_, inner) => {
                        self.walk(inner, traversal, path, depth);
                    },
                    Yaml::Sequence(items) => {
                        let ghost s0 = *self;
                        proof {
                            lemma_extends_refl(*self);
                            assert(items@.subrange(0, 0).len() == 0);
                        }
                        let mut k: usize = 0;
                        while k < items.len()
                            invariant
                                k <= items@.len(),
                                *value == Yaml::Sequence(*items),
                                problems_about(s0.problems@, s0.document@),
                                extends(s0, *self, array_findings(items@.subrange(0, k as int), c, path@, depth as nat)),
                            decreases items@.len() - k,
                        {
                            let ghost before = *self;
                            proof {
                                assert(decreases_to!(*value => items@[k as int])) by {
                                    assert(decreases_to!(*value => value->Sequence_0));
                                    assert(decreases_to!(*items => items@));
                                    assert(decreases_to!(items@ => items@[k as int]));
                                }
                            }
                            let index = decimal_string(k as u64);
                            let at = pointer(path, index.as_str());
                            self.object(&items[k], c, at.as_str(), depth);
                            proof {
                                let now = items@.subrange(0, k + 1);
                                assert(now.subrange(0, k as int) =~= items@.subrange(0, k as int));
                                assert(now[k as int] == items@[k as int]);
                                lemma_extends_trans(s0, before, *self, array_findings(items@.subrange(0, k as int), c, path@, depth as nat), object_findings(items@[k as int], c, pointer_text(path@, decimal(k as nat)), depth as nat));
                            }
                            k = k + 1;
                        }
                        proof {
                            assert(items@.subrange(0, items@.len() as int) =~= items@);
                        }
                    },
                    _ => {
                        self.invalid(path, "this OpenAPI field must be an array");
                    },
                }
            },
        }
    }
}

/// Check a parsed document: every finding the sweep makes, starting at the
/// document root.
pub fn inspect(document: &str, value: &Yaml) -> (sweep: Sweep)
    ensures
        sweep.document@ == document@,
        problems_about(sweep.problems@, document@),
        found(sweep) == object_findings(*value, Context::Document, Seq::empty(), 0),
{
    let mut sweep = Sweep { document: owned(document), warnings: Vec::new(), problems: Vec::new() };
    let ghost s0 = sweep;
    proof {
        reveal_strlit("");
        assert(found(sweep) == nothing()) by {
            assert(crate::config::warning_texts(sweep.warnings@) =~= Seq::<(Seq<char>, Seq<char>)>::empty());
            assert(problem_texts(sweep.problems@) =~= Seq::<(Seq<char>, Seq<char>)>::empty());
        }
        assert(""@ =~= Seq::<char>::empty());
    }
    sweep.object(value, Context::Document, "", 0);
    proof {
        lemma_then_nothing(object_findings(*value, Context::Document, Seq::empty(), 0));
    }
    sweep
}


/// The outcome of a pass's problems: none is success, one is that problem,
/// several are one validation error holding them in discovery order.
pub fn into_result(problems: Vec<Error>) -> (r: Result<(), Error>)
    ensures
        problems@.len() == 0 ==> r is Ok,
        problems@.len() == 1 ==> r == Err::<(), Error>(problems@[0]),
        problems@.len() >= 2 ==> r == Err::<(), Error>(Error::Validation { problems }),
{
    if problems.len() == 0 {
        return Ok(());
    }
    if problems.len() == 1 {
        let mut problems = problems;
        let ghost all = problems@;
        let only = problems.pop().unwrap();
        assert(only == all[0]);
        return Err(only);
    }
    Err(Error::Validation { problems })
}

/// Check a parsed document: the warnings to report, and the outcome of the
/// problems found.
pub fn check(document: &str, value: &Yaml) -> (r: (Vec<Warning>, Result<(), Error>))
    ensures
        crate::config::warning_texts(r.0@) == object_findings(*value, Context::Document, Seq::empty(), 0).warnings,
        match r.1 {
            Ok(_) => object_findings(*value, Context::Document, Seq::empty(), 0).problems.len() == 0,
            Err(Error::Validation { problems }) => object_findings(*value, Context::Document, Seq::empty(), 0).problems.len()
                >= 2 && problem_texts(problems@) == object_findings(*value, Context::Document, Seq::empty(), 0).problems,
            Err(e) => object_findings(*value, Context::Document, Seq::empty(), 0).problems.len() == 1 && problem_texts(
                seq![e],
            ) == object_findings(*value, Context::Document, Seq::empty(), 0).problems,
        },
{
    let sweep = inspect(document, value);
    let Sweep { warnings, problems, .. } = sweep;
    proof {
        if problems@.len() == 1 {
            assert(problems@ =~= seq![problems@[0]]);
            assert(problems@[0] is InvalidSpec);
        }
    }
    (warnings, into_result(problems))
}

/// Check a document's text: the sweep over what it parses to, or the parser's
/// message when it does not parse.
pub fn inspect_text(document: &str, text: &str) -> (r: Result<Sweep, String>)
    ensures
        match crate::yaml::yaml_parse(text@) {
            Ok(value) => r matches Ok(sweep) && found(sweep) == object_findings(value, Context::Document, Seq::empty(), 0)
                && sweep.document@ == document@,
            Err(message) => r matches Err(e) && e@ == message,
        },
{
    match crate::yaml::parse_yaml(text) {
        Ok(value) => Ok(inspect(document, &value)),
        Err(message) => Err(message),
    }
}

} // verus!

verus! {

/// The catalogue reads a schema the same way where a property declares it.
pub proof fn schema_fields_are_property_fields(key: Seq<char>)
    ensures
        catalogue(Context::Schema, key) == catalogue(Context::PropertySchema, key),
{
}

/// The objects whose keys are the user's own know no fixed field.
pub proof fn name_maps_know_no_field(key: Seq<char>)
    ensures
        catalogue(Context::Paths, key) is None,
        catalogue(Context::Responses, key) is None,
        catalogue(Context::Callback, key) is None,
{
}

} // verus!

verus! {

/// No field of the catalogue is a `$ref` or an extension: those keys are read
/// before the catalogue is asked.
pub proof fn catalogue_keys_are_plain(context: Context, key: Seq<char>)
    ensures
        catalogue(context, key) is Some ==> key != "$ref"@ && !has_prefix(key, "x-"@),
{
    reveal_strlit("x-");
    if has_prefix(key, "x-"@) {
        assert(key.subrange(0, 2)[0] == 'x');
        assert(key.subrange(0, 2)[1] == '-');
    }
    lemma_catalogue_keys(context, key);
}

/// A catalogue key neither is `$ref` nor starts with `x-`, read character by character.
proof fn lemma_catalogue_keys(context: Context, key: Seq<char>)
    ensures
        catalogue(context, key) is Some ==> key != "$ref"@ && !(key.len() >= 2 && key[0] == 'x' && key[1] == '-'),
{
    reveal_strlit("$ref");
    match context {
        Context::Document => {
            reveal_strlit("components");
            assert("components"@.len() == 10 && "components"@[0] == 'c');
            reveal_strlit("externalDocs");
            assert("externalDocs"@.len() == 12 && "externalDocs"@[0] == 'e');
            reveal_strlit("info");
            assert("info"@.len() == 4 && "info"@[0] == 'i');
            reveal_strlit("openapi");
            assert("openapi"@.len() == 7 && "openapi"@[0] == 'o');
            reveal_strlit("paths");
            assert("paths"@.len() == 5 && "paths"@[0] == 'p');
            reveal_strlit("security");
            assert("security"@.len() == 8 && "security"@[0] == 's');
            reveal_strlit("servers");
            assert("servers"@.len() == 7 && "servers"@[0] == 's');
            reveal_strlit("tags");
            assert("tags"@.len() == 4 && "tags"@[0] == 't');
        },
        Context::Info => {
            reveal_strlit("contact");
            assert("contact"@.len() == 7 && "contact"@[0] == 'c');
            reveal_strlit("description");
            assert("description"@.len() == 11 && "description"@[0] == 'd');
            reveal_strlit("license");
            assert("license"@.len() == 7 && "license"@[0] == 'l');
            reveal_strlit("termsOfService");
            assert("termsOfService"@.len() == 14 && "termsOfService"@[0] == 't');
            reveal_strlit("title");
            assert("title"@.len() == 5 && "title"@[0] == 't');
            reveal_strlit("version");
            assert("version"@.len() == 7 && "version"@[0] == 'v');
        },
        Context::Contact => {
            reveal_strlit("email");
            assert("email"@.len() == 5 && "email"@[0] == 'e');
            reveal_strlit("name");
            assert("name"@.len() == 4 && "name"@[0] == 'n');
            reveal_strlit("url");
            assert("url"@.len() == 3 && "url"@[0] == 'u');
        },
        Context::License => {
            reveal_strlit("name");
            assert("name"@.len() == 4 && "name"@[0] == 'n');
            reveal_strlit("url");
            assert("url"@.len() == 3 && "url"@[0] == 'u');
        },
        Context::Server => {
            reveal_strlit("description");
            assert("description"@.len() == 11 && "description"@[0] == 'd');
            reveal_strlit("url");
            assert("url"@.len() == 3 && "url"@[0] == 'u');
            reveal_strlit("variables");
            assert("variables"@.len() == 9 && "variables"@[0] == 'v');
        },
        Context::ServerVariable => {
            reveal_strlit("default");
            assert("default"@.len() == 7 && "default"@[0] == 'd');
            reveal_strlit("description");
            assert("description"@.len() == 11 && "description"@[0] == 'd');
            reveal_strlit("enum");
            assert("enum"@.len() == 4 && "enum"@[0] == 'e');
        },
        Context::Paths => {
        },
        Context::PathItem => {
            reveal_strlit("delete");
            assert("delete"@.len() == 6 && "delete"@[0] == 'd');
            reveal_strlit("description");
            assert("description"@.len() == 11 && "description"@[0] == 'd');
            reveal_strlit("get");
            assert("get"@.len() == 3 && "get"@[0] == 'g');
            reveal_strlit("head");
            assert("head"@.len() == 4 && "head"@[0] == 'h');
            reveal_strlit("options");
            assert("options"@.len() == 7 && "options"@[0] == 'o');
            reveal_strlit("parameters");
            assert("parameters"@.len() == 10 && "parameters"@[0] == 'p');
            reveal_strlit("patch");
            assert("patch"@.len() == 5 && "patch"@[0] == 'p');
            reveal_strlit("post");
            assert("post"@.len() == 4 && "post"@[0] == 'p');
            reveal_strlit("put");
            assert("put"@.len() == 3 && "put"@[0] == 'p');
            reveal_strlit("servers");
            assert("servers"@.len() == 7 && "servers"@[0] == 's');
            reveal_strlit("summary");
            assert("summary"@.len() == 7 && "summary"@[0] == 's');
            reveal_strlit("trace");
            assert("trace"@.len() == 5 && "trace"@[0] == 't');
        },
        Context::Operation => {
            reveal_strlit("callbacks");
            assert("callbacks"@.len() == 9 && "callbacks"@[0] == 'c');
            reveal_strlit("deprecated");
            assert("deprecated"@.len() == 10 && "deprecated"@[0] == 'd');
            reveal_strlit("description");
            assert("description"@.len() == 11 && "description"@[0] == 'd');
            reveal_strlit("externalDocs");
            assert("externalDocs"@.len() == 12 && "externalDocs"@[0] == 'e');
            reveal_strlit("operationId");
            assert("operationId"@.len() == 11 && "operationId"@[0] == 'o');
            reveal_strlit("parameters");
            assert("parameters"@.len() == 10 && "parameters"@[0] == 'p');
            reveal_strlit("requestBody");
            assert("requestBody"@.len() == 11 && "requestBody"@[0] == 'r');
            reveal_strlit("responses");
            assert("responses"@.len() == 9 && "responses"@[0] == 'r');
            reveal_strlit("security");
            assert("security"@.len() == 8 && "security"@[0] == 's');
            reveal_strlit("servers");
            assert("servers"@.len() == 7 && "servers"@[0] == 's');
            reveal_strlit("summary");
            assert("summary"@.len() == 7 && "summary"@[0] == 's');
            reveal_strlit("tags");
            assert("tags"@.len() == 4 && "tags"@[0] == 't');
        },
        Context::Components => {
            reveal_strlit("callbacks");
            assert("callbacks"@.len() == 9 && "callbacks"@[0] == 'c');
            reveal_strlit("examples");
            assert("examples"@.len() == 8 && "examples"@[0] == 'e');
            reveal_strlit("headers");
            assert("headers"@.len() == 7 && "headers"@[0] == 'h');
            reveal_strlit("links");
            assert("links"@.len() == 5 && "links"@[0] == 'l');
            reveal_strlit("parameters");
            assert("parameters"@.len() == 10 && "parameters"@[0] == 'p');
            reveal_strlit("requestBodies");
            assert("requestBodies"@.len() == 13 && "requestBodies"@[0] == 'r');
            reveal_strlit("responses");
            assert("responses"@.len() == 9 && "responses"@[0] == 'r');
            reveal_strlit("schemas");
            assert("schemas"@.len() == 7 && "schemas"@[0] == 's');
            reveal_strlit("securitySchemes");
            assert("securitySchemes"@.len() == 15 && "securitySchemes"@[0] == 's');
        },
        Context::Schema => {
            reveal_strlit("additionalProperties");
            assert("additionalProperties"@.len() == 20 && "additionalProperties"@[0] == 'a');
            reveal_strlit("allOf");
            assert("allOf"@.len() == 5 && "allOf"@[0] == 'a');
            reveal_strlit("anyOf");
            assert("anyOf"@.len() == 5 && "anyOf"@[0] == 'a');
            reveal_strlit("default");
            assert("default"@.len() == 7 && "default"@[0] == 'd');
            reveal_strlit("deprecated");
            assert("deprecated"@.len() == 10 && "deprecated"@[0] == 'd');
            reveal_strlit("description");
            assert("description"@.len() == 11 && "description"@[0] == 'd');
            reveal_strlit("discriminator");
            assert("discriminator"@.len() == 13 && "discriminator"@[0] == 'd');
            reveal_strlit("enum");
            assert("enum"@.len() == 4 && "enum"@[0] == 'e');
            reveal_strlit("example");
            assert("example"@.len() == 7 && "example"@[0] == 'e');
            reveal_strlit("exclusiveMaximum");
            assert("exclusiveMaximum"@.len() == 16 && "exclusiveMaximum"@[0] == 'e');
            reveal_strlit("exclusiveMinimum");
            assert("exclusiveMinimum"@.len() == 16 && "exclusiveMinimum"@[0] == 'e');
            reveal_strlit("externalDocs");
            assert("externalDocs"@.len() == 12 && "externalDocs"@[0] == 'e');
            reveal_strlit("format");
            assert("format"@.len() == 6 && "format"@[0] == 'f');
            reveal_strlit("items");
            assert("items"@.len() == 5 && "items"@[0] == 'i');
            reveal_strlit("maxItems");
            assert("maxItems"@.len() == 8 && "maxItems"@[0] == 'm');
            reveal_strlit("maxLength");
            assert("maxLength"@.len() == 9 && "maxLength"@[0] == 'm');
            reveal_strlit("maxProperties");
            assert("maxProperties"@.len() == 13 && "maxProperties"@[0] == 'm');
            reveal_strlit("maximum");
            assert("maximum"@.len() == 7 && "maximum"@[0] == 'm');
            reveal_strlit("minItems");
            assert("minItems"@.len() == 8 && "minItems"@[0] == 'm');
            reveal_strlit("minLength");
            assert("minLength"@.len() == 9 && "minLength"@[0] == 'm');
            reveal_strlit("minProperties");
            assert("minProperties"@.len() == 13 && "minProperties"@[0] == 'm');
            reveal_strlit("minimum");
            assert("minimum"@.len() == 7 && "minimum"@[0] == 'm');
            reveal_strlit("multipleOf");
            assert("multipleOf"@.len() == 10 && "multipleOf"@[0] == 'm');
            reveal_strlit("not");
            assert("not"@.len() == 3 && "not"@[0] == 'n');
            reveal_strlit("nullable");
            assert("nullable"@.len() == 8 && "nullable"@[0] == 'n');
            reveal_strlit("oneOf");
            assert("oneOf"@.len() == 5 && "oneOf"@[0] == 'o');
            reveal_strlit("pattern");
            assert("pattern"@.len() == 7 && "pattern"@[0] == 'p');
            reveal_strlit("properties");
            assert("properties"@.len() == 10 && "properties"@[0] == 'p');
            reveal_strlit("readOnly");
            assert("readOnly"@.len() == 8 && "readOnly"@[0] == 'r');
            reveal_strlit("required");
            assert("required"@.len() == 8 && "required"@[0] == 'r');
            reveal_strlit("title");
            assert("title"@.len() == 5 && "title"@[0] == 't');
            reveal_strlit("type");
            assert("type"@.len() == 4 && "type"@[0] == 't');
            reveal_strlit("uniqueItems");
            assert("uniqueItems"@.len() == 11 && "uniqueItems"@[0] == 'u');
            reveal_strlit("writeOnly");
            assert("writeOnly"@.len() == 9 && "writeOnly"@[0] == 'w');
            reveal_strlit("xml");
            assert("xml"@.len() == 3 && "xml"@[0] == 'x');
        },
        Context::PropertySchema => {
            reveal_strlit("additionalProperties");
            assert("additionalProperties"@.len() == 20 && "additionalProperties"@[0] == 'a');
            reveal_strlit("allOf");
            assert("allOf"@.len() == 5 && "allOf"@[0] == 'a');
            reveal_strlit("anyOf");
            assert("anyOf"@.len() == 5 && "anyOf"@[0] == 'a');
            reveal_strlit("default");
            assert("default"@.len() == 7 && "default"@[0] == 'd');
            reveal_strlit("deprecated");
            assert("deprecated"@.len() == 10 && "deprecated"@[0] == 'd');
            reveal_strlit("description");
            assert("description"@.len() == 11 && "description"@[0] == 'd');
            reveal_strlit("discriminator");
            assert("discriminator"@.len() == 13 && "discriminator"@[0] == 'd');
            reveal_strlit("enum");
            assert("enum"@.len() == 4 && "enum"@[0] == 'e');
            reveal_strlit("example");
            assert("example"@.len() == 7 && "example"@[0] == 'e');
            reveal_strlit("exclusiveMaximum");
            assert("exclusiveMaximum"@.len() == 16 && "exclusiveMaximum"@[0] == 'e');
            reveal_strlit("exclusiveMinimum");
            assert("exclusiveMinimum"@.len() == 16 && "exclusiveMinimum"@[0] == 'e');
            reveal_strlit("externalDocs");
            assert("externalDocs"@.len() == 12 && "externalDocs"@[0] == 'e');
            reveal_strlit("format");
            assert("format"@.len() == 6 && "format"@[0] == 'f');
            reveal_strlit("items");
            assert("items"@.len() == 5 && "items"@[0] == 'i');
            reveal_strlit("maxItems");
            assert("maxItems"@.len() == 8 && "maxItems"@[0] == 'm');
            reveal_strlit("maxLength");
            assert("maxLength"@.len() == 9 && "maxLength"@[0] == 'm');
            reveal_strlit("maxProperties");
            assert("maxProperties"@.len() == 13 && "maxProperties"@[0] == 'm');
            reveal_strlit("maximum");
            assert("maximum"@.len() == 7 && "maximum"@[0] == 'm');
            reveal_strlit("minItems");
            assert("minItems"@.len() == 8 && "minItems"@[0] == 'm');
            reveal_strlit("minLength");
            assert("minLength"@.len() == 9 && "minLength"@[0] == 'm');
            reveal_strlit("minProperties");
            assert("minProperties"@.len() == 13 && "minProperties"@[0] == 'm');
            reveal_strlit("minimum");
            assert("minimum"@.len() == 7 && "minimum"@[0] == 'm');
            reveal_strlit("multipleOf");
            assert("multipleOf"@.len() == 10 && "multipleOf"@[0] == 'm');
            reveal_strlit("not");
            assert("not"@.len() == 3 && "not"@[0] == 'n');
            reveal_strlit("nullable");
            assert("nullable"@.len() == 8 && "nullable"@[0] == 'n');
            reveal_strlit("oneOf");
            assert("oneOf"@.len() == 5 && "oneOf"@[0] == 'o');
            reveal_strlit("pattern");
            assert("pattern"@.len() == 7 && "pattern"@[0] == 'p');
            reveal_strlit("properties");
            assert("properties"@.len() == 10 && "properties"@[0] == 'p');
            reveal_strlit("readOnly");
            assert("readOnly"@.len() == 8 && "readOnly"@[0] == 'r');
            reveal_strlit("required");
            assert("required"@.len() == 8 && "required"@[0] == 'r');
            reveal_strlit("title");
            assert("title"@.len() == 5 && "title"@[0] == 't');
            reveal_strlit("type");
            assert("type"@.len() == 4 && "type"@[0] == 't');
            reveal_strlit("uniqueItems");
            assert("uniqueItems"@.len() == 11 && "uniqueItems"@[0] == 'u');
            reveal_strlit("writeOnly");
            assert("writeOnly"@.len() == 9 && "writeOnly"@[0] == 'w');
            reveal_strlit("xml");
            assert("xml"@.len() == 3 && "xml"@[0] == 'x');
        },
        Context::Parameter => {
            reveal_strlit("allowEmptyValue");
            assert("allowEmptyValue"@.len() == 15 && "allowEmptyValue"@[0] == 'a');
            reveal_strlit("allowReserved");
            assert("allowReserved"@.len() == 13 && "allowReserved"@[0] == 'a');
            reveal_strlit("content");
            assert("content"@.len() == 7 && "content"@[0] == 'c');
            reveal_strlit("deprecated");
            assert("deprecated"@.len() == 10 && "deprecated"@[0] == 'd');
            reveal_strlit("description");
            assert("description"@.len() == 11 && "description"@[0] == 'd');
            reveal_strlit("example");
            assert("example"@.len() == 7 && "example"@[0] == 'e');
            reveal_strlit("examples");
            assert("examples"@.len() == 8 && "examples"@[0] == 'e');
            reveal_strlit("explode");
            assert("explode"@.len() == 7 && "explode"@[0] == 'e');
            reveal_strlit("in");
            assert("in"@.len() == 2 && "in"@[0] == 'i');
            reveal_strlit("name");
            assert("name"@.len() == 4 && "name"@[0] == 'n');
            reveal_strlit("required");
            assert("required"@.len() == 8 && "required"@[0] == 'r');
            reveal_strlit("schema");
            assert("schema"@.len() == 6 && "schema"@[0] == 's');
            reveal_strlit("style");
            assert("style"@.len() == 5 && "style"@[0] == 's');
        },
        Context::Header => {
            reveal_strlit("allowEmptyValue");
            assert("allowEmptyValue"@.len() == 15 && "allowEmptyValue"@[0] == 'a');
            reveal_strlit("allowReserved");
            assert("allowReserved"@.len() == 13 && "allowReserved"@[0] == 'a');
            reveal_strlit("content");
            assert("content"@.len() == 7 && "content"@[0] == 'c');
            reveal_strlit("deprecated");
            assert("deprecated"@.len() == 10 && "deprecated"@[0] == 'd');
            reveal_strlit("description");
            assert("description"@.len() == 11 && "description"@[0] == 'd');
            reveal_strlit("example");
            assert("example"@.len() == 7 && "example"@[0] == 'e');
            reveal_strlit("examples");
            assert("examples"@.len() == 8 && "examples"@[0] == 'e');
            reveal_strlit("explode");
            assert("explode"@.len() == 7 && "explode"@[0] == 'e');
            reveal_strlit("required");
            assert("required"@.len() == 8 && "required"@[0] == 'r');
            reveal_strlit("schema");
            assert("schema"@.len() == 6 && "schema"@[0] == 's');
            reveal_strlit("style");
            assert("style"@.len() == 5 && "style"@[0] == 's');
        },
        Context::RequestBody => {
            reveal_strlit("content");
            assert("content"@.len() == 7 && "content"@[0] == 'c');
            reveal_strlit("description");
            assert("description"@.len() == 11 && "description"@[0] == 'd');
            reveal_strlit("required");
            assert("required"@.len() == 8 && "required"@[0] == 'r');
        },
        Context::Responses => {
        },
        Context::Response => {
            reveal_strlit("content");
            assert("content"@.len() == 7 && "content"@[0] == 'c');
            reveal_strlit("description");
            assert("description"@.len() == 11 && "description"@[0] == 'd');
            reveal_strlit("headers");
            assert("headers"@.len() == 7 && "headers"@[0] == 'h');
            reveal_strlit("links");
            assert("links"@.len() == 5 && "links"@[0] == 'l');
        },
        Context::MediaType => {
            reveal_strlit("encoding");
            assert("encoding"@.len() == 8 && "encoding"@[0] == 'e');
            reveal_strlit("example");
            assert("example"@.len() == 7 && "example"@[0] == 'e');
            reveal_strlit("examples");
            assert("examples"@.len() == 8 && "examples"@[0] == 'e');
            reveal_strlit("schema");
            assert("schema"@.len() == 6 && "schema"@[0] == 's');
        },
        Context::Encoding => {
            reveal_strlit("allowReserved");
            assert("allowReserved"@.len() == 13 && "allowReserved"@[0] == 'a');
            reveal_strlit("contentType");
            assert("contentType"@.len() == 11 && "contentType"@[0] == 'c');
            reveal_strlit("explode");
            assert("explode"@.len() == 7 && "explode"@[0] == 'e');
            reveal_strlit("headers");
            assert("headers"@.len() == 7 && "headers"@[0] == 'h');
            reveal_strlit("style");
            assert("style"@.len() == 5 && "style"@[0] == 's');
        },
        Context::Example => {
            reveal_strlit("description");
            assert("description"@.len() == 11 && "description"@[0] == 'd');
            reveal_strlit("externalValue");
            assert("externalValue"@.len() == 13 && "externalValue"@[0] == 'e');
            reveal_strlit("summary");
            assert("summary"@.len() == 7 && "summary"@[0] == 's');
            reveal_strlit("value");
            assert("value"@.len() == 5 && "value"@[0] == 'v');
        },
        Context::Link => {
            reveal_strlit("description");
            assert("description"@.len() == 11 && "description"@[0] == 'd');
            reveal_strlit("operationId");
            assert("operationId"@.len() == 11 && "operationId"@[0] == 'o');
            reveal_strlit("operationRef");
            assert("operationRef"@.len() == 12 && "operationRef"@[0] == 'o');
            reveal_strlit("parameters");
            assert("parameters"@.len() == 10 && "parameters"@[0] == 'p');
            reveal_strlit("requestBody");
            assert("requestBody"@.len() == 11 && "requestBody"@[0] == 'r');
            reveal_strlit("server");
            assert("server"@.len() == 6 && "server"@[0] == 's');
        },
        Context::Callback => {
        },
        Context::SecurityScheme => {
            reveal_strlit("bearerFormat");
            assert("bearerFormat"@.len() == 12 && "bearerFormat"@[0] == 'b');
            reveal_strlit("description");
            assert("description"@.len() == 11 && "description"@[0] == 'd');
            reveal_strlit("flows");
            assert("flows"@.len() == 5 && "flows"@[0] == 'f');
            reveal_strlit("in");
            assert("in"@.len() == 2 && "in"@[0] == 'i');
            reveal_strlit("name");
            assert("name"@.len() == 4 && "name"@[0] == 'n');
            reveal_strlit("openIdConnectUrl");
            assert("openIdConnectUrl"@.len() == 16 && "openIdConnectUrl"@[0] == 'o');
            reveal_strlit("scheme");
            assert("scheme"@.len() == 6 && "scheme"@[0] == 's');
            reveal_strlit("type");
            assert("type"@.len() == 4 && "type"@[0] == 't');
        },
        Context::OAuthFlows => {
            reveal_strlit("authorizationCode");
            assert("authorizationCode"@.len() == 17 && "authorizationCode"@[0] == 'a');
            reveal_strlit("clientCredentials");
            assert("clientCredentials"@.len() == 17 && "clientCredentials"@[0] == 'c');
            reveal_strlit("implicit");
            assert("implicit"@.len() == 8 && "implicit"@[0] == 'i');
            reveal_strlit("password");
            assert("password"@.len() == 8 && "password"@[0] == 'p');
        },
        Context::OAuthFlow => {
            reveal_strlit("authorizationUrl");
            assert("authorizationUrl"@.len() == 16 && "authorizationUrl"@[0] == 'a');
            reveal_strlit("refreshUrl");
            assert("refreshUrl"@.len() == 10 && "refreshUrl"@[0] == 'r');
            reveal_strlit("scopes");
            assert("scopes"@.len() == 6 && "scopes"@[0] == 's');
            reveal_strlit("tokenUrl");
            assert("tokenUrl"@.len() == 8 && "tokenUrl"@[0] == 't');
        },
        Context::ExternalDocs => {
            reveal_strlit("description");
            assert("description"@.len() == 11 && "description"@[0] == 'd');
            reveal_strlit("url");
            assert("url"@.len() == 3 && "url"@[0] == 'u');
        },
        Context::Tag => {
            reveal_strlit("description");
            assert("description"@.len() == 11 && "description"@[0] == 'd');
            reveal_strlit("externalDocs");
            assert("externalDocs"@.len() == 12 && "externalDocs"@[0] == 'e');
            reveal_strlit("name");
            assert("name"@.len() == 4 && "name"@[0] == 'n');
        },
        Context::Discriminator => {
            reveal_strlit("mapping");
            assert("mapping"@.len() == 7 && "mapping"@[0] == 'm');
            reveal_strlit("propertyName");
            assert("propertyName"@.len() == 12 && "propertyName"@[0] == 'p');
        },
        Context::Xml => {
            reveal_strlit("attribute");
            assert("attribute"@.len() == 9 && "attribute"@[0] == 'a');
            reveal_strlit("name");
            assert("name"@.len() == 4 && "name"@[0] == 'n');
            reveal_strlit("namespace");
            assert("namespace"@.len() == 9 && "namespace"@[0] == 'n');
            reveal_strlit("prefix");
            assert("prefix"@.len() == 6 && "prefix"@[0] == 'p');
            reveal_strlit("wrapped");
            assert("wrapped"@.len() == 7 && "wrapped"@[0] == 'w');
        },
    }
}

} // verus!
