//! Errors that can occur while loading a spec or generating code, and the
//! one-line message each states.

use vstd::prelude::*;

use crate::text::decimal;
use crate::text::decimal_string;
use crate::text::join;
use crate::text::join_strings;
use crate::text::owned;
use crate::text::push_str;

verus! {

/// What kind of failure an I/O error reports, as far as the hints tell kinds apart.
#[derive(Debug, Clone, Copy, PartialEq, Eq, Structural)]
pub enum IoErrorKind {
    /// No file exists at the path.
    NotFound,
    /// The process may not read the path.
    PermissionDenied,
    /// Any other failure.
    Other,
}

/// An I/O failure: its kind and the operating system's message for it.
#[derive(Debug, Clone)]
pub struct IoFailure {
    /// The kind of failure.
    pub kind: IoErrorKind,
    /// The failure's message.
    pub message: String,
}

/// Errors that can occur while loading a spec or generating code.
///
/// A parser's or compiler's own error is carried as its message.
#[derive(Debug)]
#[non_exhaustive]
pub enum Error {
    /// An OpenAPI object contains an invalid key or structure.
    InvalidSpec {
        /// The source document.
        document: String,
        /// The JSON pointer to the invalid entry.
        path: String,
        /// Why the entry is invalid.
        reason: String,
    },
    /// The spec file cannot be read from disk.
    ReadSpec {
        /// Path that cannot be read.
        path: String,
        /// Underlying IO failure.
        source: IoFailure,
    },
    /// The spec file cannot be parsed as OpenAPI YAML/JSON.
    ParseSpec {
        /// Path that cannot be parsed.
        path: String,
        /// The parser's message.
        source: String,
    },
    /// A referenced external file cannot be read from disk.
    ReadRefFile {
        /// The referenced file, as written in the `$ref`.
        file: String,
        /// Underlying IO failure.
        source: IoFailure,
    },
    /// A referenced external file cannot be parsed as OpenAPI YAML/JSON.
    ParseRefFile {
        /// The referenced file, as written in the `$ref`.
        file: String,
        /// The parser's message.
        source: String,
    },
    /// The configuration file cannot be read from disk.
    ReadConfig {
        /// Path that cannot be read.
        path: String,
        /// Underlying IO failure.
        source: IoFailure,
    },
    /// The configuration file cannot be parsed as YAML.
    ParseConfig {
        /// Path that cannot be parsed.
        path: String,
        /// The parser's message.
        source: String,
    },
    /// The requested generation mode is not implemented yet.
    Unimplemented(String),
    /// Writing the generated output failed.
    WriteOutput {
        /// Path that cannot be written.
        path: String,
        /// Underlying IO failure.
        source: IoFailure,
    },
    /// Reading the output file for a comparison failed. An absent file is not
    /// this error: a comparison reports it as drift.
    ReadOutput {
        /// Path that cannot be read.
        path: String,
        /// Underlying IO failure.
        source: IoFailure,
    },
    /// The companion directory beside the output file holds a file the
    /// generator did not write.
    UnownedOutput {
        /// Path of the file the generator does not own.
        path: String,
    },
    /// A generated file lies outside the directory the run owns.
    OutsideOutput {
        /// The offending file path, relative to the root file's directory.
        path: String,
        /// The companion directory the file has to be under.
        directory: String,
    },
    /// The output path cannot carry a companion directory beside it.
    UnsplittableOutput {
        /// The output path that cannot be split.
        path: String,
    },
    /// The document declares an OpenAPI version the generator does not read.
    UnsupportedSpecVersion {
        /// The document that declares it, as a path or as the `$ref` that reached it.
        document: String,
        /// The `openapi:` value the document declares.
        version: String,
        /// What the generator reads instead.
        hint: String,
    },
    /// The document declares a top-level key the generator cannot generate from.
    UnsupportedSpecKey {
        /// The top-level key, as written in the document.
        key: String,
        /// Why the generator cannot generate from it.
        reason: String,
        /// What to do instead.
        hint: String,
    },
    /// A `$ref` pointed at something that cannot be resolved.
    UnresolvedRef(String),
    /// A `$ref` used a form the generator does not support yet.
    UnsupportedRef {
        /// The offending reference string.
        reference: String,
        /// Why it is unsupported.
        reason: String,
    },
    /// An `x-` extension carried a value of a kind the generator cannot read.
    InvalidExtensionValue {
        /// The extension key, for example `x-rust-name`.
        key: String,
        /// The place the key sits, for example a schema or a server URL.
        at: String,
        /// The kind of value the key needs.
        expected: String,
        /// The kind of value the document gave.
        found: String,
    },
    /// A schema combined keywords in a way the generator cannot represent.
    UnsupportedSchema {
        /// Dotted path to the schema for diagnostics.
        path: String,
        /// Why it is unsupported.
        reason: String,
    },
    /// Inline schema nesting exceeded the depth the generator will lower.
    SchemaDepthExceeded {
        /// Schema name or lowering hint identifying the offending inline schema.
        path: String,
        /// The maximum supported inline nesting depth.
        limit: usize,
    },
    /// An operation used a feature the server generator does not support yet.
    UnsupportedOperation {
        /// HTTP method of the offending operation.
        method: String,
        /// Templated request path of the offending operation.
        path: String,
        /// Why it is unsupported.
        reason: String,
    },
    /// A request or response body declares content, and no content type the
    /// generator can represent.
    UnsupportedContentType {
        /// HTTP method of the offending operation.
        method: String,
        /// Templated request path of the offending operation.
        path: String,
        /// Which body it is, as a noun phrase for the message.
        location: String,
        /// The declared content types, in document order, comma separated.
        declared: String,
        /// The remedy for this direction.
        hint: String,
    },
    /// The schema `default` does not fit the Rust type of the field.
    UnsupportedDefault {
        /// The type that owns the property.
        owner: String,
        /// The property's name as the document writes it.
        property: String,
        /// The offending `default`, as JSON.
        declared: String,
        /// How to resolve it.
        hint: String,
    },
    /// A parameter declared `in: path` has no matching `{placeholder}` in the
    /// operation's path template.
    InvalidPathParameter {
        /// HTTP method of the offending operation.
        method: String,
        /// Templated request path of the offending operation.
        path: String,
        /// The declared path-parameter name with no matching placeholder.
        name: String,
    },
    /// A `{placeholder}` in the operation's path template has no matching
    /// parameter declared `in: path`.
    UndeclaredPathParameter {
        /// HTTP method of the offending operation.
        method: String,
        /// Templated request path of the offending operation.
        path: String,
        /// The template placeholder name with no declared parameter.
        name: String,
    },
    /// A generated per-operation type name collided with a component-model name.
    TypeNameCollision {
        /// The clashing Rust identifier.
        name: String,
        /// The generated artifact that clashed (for example `response enum`).
        artifact: String,
        /// How to resolve the clash, shown as a hint and not in the message.
        hint: String,
    },
    /// A generated type took the name of a Rust prelude type that the emitted
    /// code writes unqualified, such as `Option` or `Vec`.
    PreludeShadowing {
        /// The Rust type name that shadows the prelude.
        name: String,
        /// What generated code can name the shadowed type for.
        used_for: String,
        /// How to resolve the clash, shown as a hint and not in the message.
        hint: String,
    },
    /// Two emitted items took one Rust type name, at least one of them hoisted
    /// from an inline schema.
    DuplicateTypeName {
        /// The Rust type name that two emitted items take.
        name: String,
        /// How to resolve the clash, shown as a hint and not in the message.
        hint: String,
    },
    /// A per-operation type took the Rust type name of a second per-operation
    /// type, or of a generator interface.
    OperationTypeCollision {
        /// The Rust type name that both items take.
        name: String,
        /// The item that claimed the name first, as a noun phrase.
        first: String,
        /// The item that collided with `first`, in the same form.
        second: String,
        /// How to resolve the clash, shown as a hint and not in the message.
        hint: String,
    },
    /// Two or more type aliases refer to each other in a cycle.
    RecursiveAlias {
        /// The alias names on the cycle, in the order the walk met them.
        cycle: Vec<String>,
        /// How to break the cycle, shown as a hint and not in the message.
        hint: String,
    },
    /// Two component schema names collapsed onto one Rust identifier.
    SchemaNameCollision {
        /// The Rust identifier that both schemas produce.
        ident: String,
        /// The schema that claimed the identifier first, in document order.
        first: String,
        /// The schema that collided with `first`.
        second: String,
        /// How to resolve the clash, shown as a hint and not in the message.
        hint: String,
    },
    /// Two operations collapsed onto one Rust method name.
    OperationNameCollision {
        /// The Rust method name that both operations produce.
        ident: String,
        /// `method path` of the operation that claimed the name first.
        first: String,
        /// `method path` of the operation that collided with `first`.
        second: String,
        /// How to resolve the clash, shown as a hint and not in the message.
        hint: String,
    },
    /// The configured type-name suffix holds no identifier characters.
    InvalidTypeNameSuffix {
        /// The configured suffix, as written in the config.
        suffix: String,
        /// How to resolve the problem, shown as a hint and not in the message.
        hint: String,
    },
    /// The generated token stream was not valid Rust (internal bug).
    InvalidGeneratedCode {
        /// The parser's message.
        source: String,
    },
    /// One pass found several independent semantic problems, in discovery order.
    Validation {
        /// The problems, in discovery order.
        problems: Vec<Error>,
    },
}

/// The one-line message of an error.
pub open spec fn error_text(e: Error) -> Seq<char>
    decreases e,
{
    match e {
        Error::InvalidSpec { document, path, reason } => document@ + "#"@ + path@ + ": "@ + reason@,
        Error::ReadSpec { path, source } => "failed to read spec file `"@ + path@ + "`: "@ + source.message@,
        Error::ParseSpec { path, source } => "failed to parse spec file `"@ + path@ + "`: "@ + source@,
        Error::ReadRefFile { file, source } => "failed to read referenced file `"@ + file@ + "`: "@ + source.message@,
        Error::ParseRefFile { file, source } => "failed to parse referenced file `"@ + file@ + "`: "@ + source@,
        Error::ReadConfig { path, source } => "failed to read config file `"@ + path@ + "`: "@ + source.message@,
        Error::ParseConfig { path, source } => "failed to parse config file `"@ + path@ + "`: "@ + source@,
        Error::Unimplemented (mode) => mode@ + " generation is not implemented yet"@,
        Error::WriteOutput { path, source } => "failed to write output `"@ + path@ + "`: "@ + source.message@,
        Error::ReadOutput { path, source } => "failed to read output `"@ + path@ + "`: "@ + source.message@,
        Error::UnownedOutput { path } => "`"@ + path@ + "` sits in the generated output directory but was not generated"@,
        Error::OutsideOutput { path, directory } => "generated file `"@ + path@ + "` lies outside `"@ + directory@ + "`"@,
        Error::UnsplittableOutput { path } => "output path `"@ + path@ + "` needs a file extension: a run with operations writes a directory beside the file, named after its stem"@,
        Error::UnsupportedSpecVersion { document, version, .. } => "`"@ + document@ + "` declares `openapi: "@ + version@ + "`, which is not supported"@,
        Error::UnsupportedSpecKey { key, reason, .. } => "the document declares `"@ + key@ + ":`, which "@ + reason@,
        Error::UnresolvedRef (reference) => "unresolved reference `"@ + reference@ + "`"@,
        Error::UnsupportedRef { reference, reason } => "unsupported reference `"@ + reference@ + "`: "@ + reason@,
        Error::InvalidExtensionValue { key, at, expected, found } => "`"@ + key@ + "` on `"@ + at@ + "` needs "@ + expected@ + ", but the document gives "@ + found@,
        Error::UnsupportedSchema { path, reason } => "unsupported schema at `"@ + path@ + "`: "@ + reason@,
        Error::SchemaDepthExceeded { path, limit } => "schema at `"@ + path@ + "` nests deeper than the supported limit of "@ + decimal(limit as nat),
        Error::UnsupportedOperation { method, path, reason } => "unsupported operation `"@ + method@ + " "@ + path@ + "`: "@ + reason@,
        Error::UnsupportedContentType { method, path, location, declared, .. } => "the "@ + location@ + " of `"@ + method@ + " "@ + path@ + "` declares only content types the generator cannot represent: "@ + declared@,
        Error::UnsupportedDefault { owner, property, declared, .. } => "the `default` of `"@ + owner@ + "."@ + property@ + "` cannot be represented as a value of the property's Rust type: "@ + declared@,
        Error::InvalidPathParameter { method, path, name } => "path parameter `"@ + name@ + "` on `"@ + method@ + " "@ + path@ + "` is declared `in: path` but the path template has no `{"@ + name@ + "}` placeholder"@,
        Error::UndeclaredPathParameter { method, path, name } => "operation `"@ + method@ + " "@ + path@ + "` has a `{"@ + name@ + "}` placeholder in its path but no parameter named `"@ + name@ + "` is declared `in: path`"@,
        Error::TypeNameCollision { name, artifact, .. } => "generated "@ + artifact@ + " `"@ + name@ + "` collides with a component schema of the same name"@,
        Error::PreludeShadowing { name, used_for, .. } => "generated type `"@ + name@ + "` shadows the Rust prelude type of that name, which generated code can name without a path for "@ + used_for@,
        Error::DuplicateTypeName { name, .. } => "two generated items both take the Rust type name `"@ + name@ + "`"@,
        Error::OperationTypeCollision { name, first, second, .. } => first@ + " and "@ + second@ + " both take the Rust type name `"@ + name@ + "`"@,
        Error::RecursiveAlias { cycle, .. } => "type aliases refer to each other in a cycle: "@ + join(cycle@.map_values(|s: String| s@), " -> "@),
        Error::SchemaNameCollision { ident, first, second, .. } => "component schemas `"@ + first@ + "` and `"@ + second@ + "` both produce the Rust type name `"@ + ident@ + "`"@,
        Error::OperationNameCollision { ident, first, second, .. } => "operations `"@ + first@ + "` and `"@ + second@ + "` both produce the Rust method name `"@ + ident@ + "`"@,
        Error::InvalidTypeNameSuffix { suffix, .. } => "`type-name-suffix` is set to `"@ + suffix@ + "`, which contributes no characters to a Rust type name"@,
        Error::InvalidGeneratedCode { source } => "generated code was not valid Rust: "@ + source@,
        Error::Validation { problems } => "found "@ + decimal(problems@.len()) + " problems in the spec:"@ + problems_text(
            problems@,
        ),
    }
}

/// The problems of a validation error, each on a line of its own after `  - `.
pub open spec fn problems_text(ps: Seq<Error>) -> Seq<char>
    decreases ps,
{
    if ps.len() == 0 {
        Seq::empty()
    } else {
        problems_text(ps.subrange(0, ps.len() - 1)) + "\n  - "@ + error_text(ps[ps.len() - 1])
    }
}

/// The message of the failure an error wraps, for the errors that wrap one:
/// the read, parse and write failures of the spec, a referenced file, the
/// configuration and the output. Every other error is the problem itself
/// (a validation error lists its problems side by side and wraps no cause).
pub open spec fn source_text(e: Error) -> Option<Seq<char>> {
    match e {
        Error::ReadSpec { source, .. } => Some(source.message@),
        Error::ParseSpec { source, .. } => Some(source@),
        Error::ReadRefFile { source, .. } => Some(source.message@),
        Error::ParseRefFile { source, .. } => Some(source@),
        Error::ReadConfig { source, .. } => Some(source.message@),
        Error::ParseConfig { source, .. } => Some(source@),
        Error::WriteOutput { source, .. } => Some(source.message@),
        Error::ReadOutput { source, .. } => Some(source.message@),
        _ => None,
    }
}

impl Error {
    /// The message of the failure this error wraps, when it wraps one.
    pub fn source(&self) -> (r: Option<String>)
        ensures
            r is None <==> source_text(*self) is None,
            r matches Some(m) ==> source_text(*self) == Some(m@),
    {
        match self {
            Error::ReadSpec { source, .. } => Some(owned(source.message.as_str())),
            Error::ParseSpec { source, .. } => Some(owned(source.as_str())),
            Error::ReadRefFile { source, .. } => Some(owned(source.message.as_str())),
            Error::ParseRefFile { source, .. } => Some(owned(source.as_str())),
            Error::ReadConfig { source, .. } => Some(owned(source.message.as_str())),
            Error::ParseConfig { source, .. } => Some(owned(source.as_str())),
            Error::WriteOutput { source, .. } => Some(owned(source.message.as_str())),
            Error::ReadOutput { source, .. } => Some(owned(source.message.as_str())),
            _ => None,
        }
    }

    /// The one-line message of the error, problem by problem for a validation error.
    pub fn message(&self) -> (r: String)
        ensures
            r@ == error_text(*self),
        decreases self,
    {
        match self {
            Error::InvalidSpec { document, path, reason } => {
                let mut r = String::new();
                push_str(&mut r, document.as_str());
                push_str(&mut r, "#");
                push_str(&mut r, path.as_str());
                push_str(&mut r, ": ");
                push_str(&mut r, reason.as_str());
                proof { assert(r@ =~= document@ + "#"@ + path@ + ": "@ + reason@); }
                r
            },
            Error::ReadSpec { path, source } => {
                let mut r = String::new();
                push_str(&mut r, "failed to read spec file `");
                push_str(&mut r, path.as_str());
                push_str(&mut r, "`: ");
                push_str(&mut r, source.message.as_str());
                proof { assert(r@ =~= "failed to read spec file `"@ + path@ + "`: "@ + source.message@); }
                r
            },
            Error::ParseSpec { path, source } => {
                let mut r = String::new();
                push_str(&mut r, "failed to parse spec file `");
                push_str(&mut r, path.as_str());
                push_str(&mut r, "`: ");
                push_str(&mut r, source.as_str());
                proof { assert(r@ =~= "failed to parse spec file `"@ + path@ + "`: "@ + source@); }
                r
            },
            Error::ReadRefFile { file, source } => {
                let mut r = String::new();
                push_str(&mut r, "failed to read referenced file `");
                push_str(&mut r, file.as_str());
                push_str(&mut r, "`: ");
                push_str(&mut r, source.message.as_str());
                proof { assert(r@ =~= "failed to read referenced file `"@ + file@ + "`: "@ + source.message@); }
                r
            },
            Error::ParseRefFile { file, source } => {
                let mut r = String::new();
                push_str(&mut r, "failed to parse referenced file `");
                push_str(&mut r, file.as_str());
                push_str(&mut r, "`: ");
                push_str(&mut r, source.as_str());
                proof { assert(r@ =~= "failed to parse referenced file `"@ + file@ + "`: "@ + source@); }
                r
            },
            Error::ReadConfig { path, source } => {
                let mut r = String::new();
                push_str(&mut r, "failed to read config file `");
                push_str(&mut r, path.as_str());
                push_str(&mut r, "`: ");
                push_str(&mut r, source.message.as_str());
                proof { assert(r@ =~= "failed to read config file `"@ + path@ + "`: "@ + source.message@); }
                r
            },
            Error::ParseConfig { path, source } => {
                let mut r = String::new();
                push_str(&mut r, "failed to parse config file `");
                push_str(&mut r, path.as_str());
                push_str(&mut r, "`: ");
                push_str(&mut r, source.as_str());
                proof { assert(r@ =~= "failed to parse config file `"@ + path@ + "`: "@ + source@); }
                r
            },
            Error::Unimplemented (mode) => {
                let mut r = String::new();
                push_str(&mut r, mode.as_str());
                push_str(&mut r, " generation is not implemented yet");
                proof { assert(r@ =~= mode@ + " generation is not implemented yet"@); }
                r
            },
            Error::WriteOutput { path, source } => {
                let mut r = String::new();
                push_str(&mut r, "failed to write output `");
                push_str(&mut r, path.as_str());
                push_str(&mut r, "`: ");
                push_str(&mut r, source.message.as_str());
                proof { assert(r@ =~= "failed to write output `"@ + path@ + "`: "@ + source.message@); }
                r
            },
            Error::ReadOutput { path, source } => {
                let mut r = String::new();
                push_str(&mut r, "failed to read output `");
                push_str(&mut r, path.as_str());
                push_str(&mut r, "`: ");
                push_str(&mut r, source.message.as_str());
                proof { assert(r@ =~= "failed to read output `"@ + path@ + "`: "@ + source.message@); }
                r
            },
            Error::UnownedOutput { path } => {
                let mut r = String::new();
                push_str(&mut r, "`");
                push_str(&mut r, path.as_str());
                push_str(&mut r, "` sits in the generated output directory but was not generated");
                proof { assert(r@ =~= "`"@ + path@ + "` sits in the generated output directory but was not generated"@); }
                r
            },
            Error::OutsideOutput { path, directory } => {
                let mut r = String::new();
                push_str(&mut r, "generated file `");
                push_str(&mut r, path.as_str());
                push_str(&mut r, "` lies outside `");
                push_str(&mut r, directory.as_str());
                push_str(&mut r, "`");
                proof { assert(r@ =~= "generated file `"@ + path@ + "` lies outside `"@ + directory@ + "`"@); }
                r
            },
            Error::UnsplittableOutput { path } => {
                let mut r = String::new();
                push_str(&mut r, "output path `");
                push_str(&mut r, path.as_str());
                push_str(&mut r, "` needs a file extension: a run with operations writes a directory beside the file, named after its stem");
                proof { assert(r@ =~= "output path `"@ + path@ + "` needs a file extension: a run with operations writes a directory beside the file, named after its stem"@); }
                r
            },
            Error::UnsupportedSpecVersion { document, version, .. } => {
                let mut r = String::new();
                push_str(&mut r, "`");
                push_str(&mut r, document.as_str());
                push_str(&mut r, "` declares `openapi: ");
                push_str(&mut r, version.as_str());
                push_str(&mut r, "`, which is not supported");
                proof { assert(r@ =~= "`"@ + document@ + "` declares `openapi: "@ + version@ + "`, which is not supported"@); }
                r
            },
            Error::UnsupportedSpecKey { key, reason, .. } => {
                let mut r = String::new();
                push_str(&mut r, "the document declares `");
                push_str(&mut r, key.as_str());
                push_str(&mut r, ":`, which ");
                push_str(&mut r, reason.as_str());
                proof { assert(r@ =~= "the document declares `"@ + key@ + ":`, which "@ + reason@); }
                r
            },
            Error::UnresolvedRef (reference) => {
                let mut r = String::new();
                push_str(&mut r, "unresolved reference `");
                push_str(&mut r, reference.as_str());
                push_str(&mut r, "`");
                proof { assert(r@ =~= "unresolved reference `"@ + reference@ + "`"@); }
                r
            },
            Error::UnsupportedRef { reference, reason } => {
                let mut r = String::new();
                push_str(&mut r, "unsupported reference `");
                push_str(&mut r, reference.as_str());
                push_str(&mut r, "`: ");
                push_str(&mut r, reason.as_str());
                proof { assert(r@ =~= "unsupported reference `"@ + reference@ + "`: "@ + reason@); }
                r
            },
            Error::InvalidExtensionValue { key, at, expected, found } => {
                let mut r = String::new();
                push_str(&mut r, "`");
                push_str(&mut r, key.as_str());
                push_str(&mut r, "` on `");
                push_str(&mut r, at.as_str());
                push_str(&mut r, "` needs ");
                push_str(&mut r, expected.as_str());
                push_str(&mut r, ", but the document gives ");
                push_str(&mut r, found.as_str());
                proof { assert(r@ =~= "`"@ + key@ + "` on `"@ + at@ + "` needs "@ + expected@ + ", but the document gives "@ + found@); }
                r
            },
            Error::UnsupportedSchema { path, reason } => {
                let mut r = String::new();
                push_str(&mut r, "unsupported schema at `");
                push_str(&mut r, path.as_str());
                push_str(&mut r, "`: ");
                push_str(&mut r, reason.as_str());
                proof { assert(r@ =~= "unsupported schema at `"@ + path@ + "`: "@ + reason@); }
                r
            },
            Error::SchemaDepthExceeded { path, limit } => {
                let mut r = String::new();
                push_str(&mut r, "schema at `");
                push_str(&mut r, path.as_str());
                push_str(&mut r, "` nests deeper than the supported limit of ");
                let digits = decimal_string(*limit as u64);
                push_str(&mut r, digits.as_str());
                proof { assert(r@ =~= "schema at `"@ + path@ + "` nests deeper than the supported limit of "@ + decimal(limit as nat)); }
                r
            },
            Error::UnsupportedOperation { method, path, reason } => {
                let mut r = String::new();
                push_str(&mut r, "unsupported operation `");
                push_str(&mut r, method.as_str());
                push_str(&mut r, " ");
                push_str(&mut r, path.as_str());
                push_str(&mut r, "`: ");
                push_str(&mut r, reason.as_str());
                proof { assert(r@ =~= "unsupported operation `"@ + method@ + " "@ + path@ + "`: "@ + reason@); }
                r
            },
            Error::UnsupportedContentType { method, path, location, declared, .. } => {
                let mut r = String::new();
                push_str(&mut r, "the ");
                push_str(&mut r, location.as_str());
                push_str(&mut r, " of `");
                push_str(&mut r, method.as_str());
                push_str(&mut r, " ");
                push_str(&mut r, path.as_str());
                push_str(&mut r, "` declares only content types the generator cannot represent: ");
                push_str(&mut r, declared.as_str());
                proof { assert(r@ =~= "the "@ + location@ + " of `"@ + method@ + " "@ + path@ + "` declares only content types the generator cannot represent: "@ + declared@); }
                r
            },
            Error::UnsupportedDefault { owner, property, declared, .. } => {
                let mut r = String::new();
                push_str(&mut r, "the `default` of `");
                push_str(&mut r, owner.as_str());
                push_str(&mut r, ".");
                push_str(&mut r, property.as_str());
                push_str(&mut r, "` cannot be represented as a value of the property's Rust type: ");
                push_str(&mut r, declared.as_str());
                proof { assert(r@ =~= "the `default` of `"@ + owner@ + "."@ + property@ + "` cannot be represented as a value of the property's Rust type: "@ + declared@); }
                r
            },
            Error::InvalidPathParameter { method, path, name } => {
                let mut r = String::new();
                push_str(&mut r, "path parameter `");
                push_str(&mut r, name.as_str());
                push_str(&mut r, "` on `");
                push_str(&mut r, method.as_str());
                push_str(&mut r, " ");
                push_str(&mut r, path.as_str());
                push_str(&mut r, "` is declared `in: path` but the path template has no `{");
                push_str(&mut r, name.as_str());
                push_str(&mut r, "}` placeholder");
                proof { assert(r@ =~= "path parameter `"@ + name@ + "` on `"@ + method@ + " "@ + path@ + "` is declared `in: path` but the path template has no `{"@ + name@ + "}` placeholder"@); }
                r
            },
            Error::UndeclaredPathParameter { method, path, name } => {
                let mut r = String::new();
                push_str(&mut r, "operation `");
                push_str(&mut r, method.as_str());
                push_str(&mut r, " ");
                push_str(&mut r, path.as_str());
                push_str(&mut r, "` has a `{");
                push_str(&mut r, name.as_str());
                push_str(&mut r, "}` placeholder in its path but no parameter named `");
                push_str(&mut r, name.as_str());
                push_str(&mut r, "` is declared `in: path`");
                proof { assert(r@ =~= "operation `"@ + method@ + " "@ + path@ + "` has a `{"@ + name@ + "}` placeholder in its path but no parameter named `"@ + name@ + "` is declared `in: path`"@); }
                r
            },
            Error::TypeNameCollision { name, artifact, .. } => {
                let mut r = String::new();
                push_str(&mut r, "generated ");
                push_str(&mut r, artifact.as_str());
                push_str(&mut r, " `");
                push_str(&mut r, name.as_str());
                push_str(&mut r, "` collides with a component schema of the same name");
                proof { assert(r@ =~= "generated "@ + artifact@ + " `"@ + name@ + "` collides with a component schema of the same name"@); }
                r
            },
            Error::PreludeShadowing { name, used_for, .. } => {
                let mut r = String::new();
                push_str(&mut r, "generated type `");
                push_str(&mut r, name.as_str());
                push_str(&mut r, "` shadows the Rust prelude type of that name, which generated code can name without a path for ");
                push_str(&mut r, used_for.as_str());
                proof { assert(r@ =~= "generated type `"@ + name@ + "` shadows the Rust prelude type of that name, which generated code can name without a path for "@ + used_for@); }
                r
            },
            Error::DuplicateTypeName { name, .. } => {
                let mut r = String::new();
                push_str(&mut r, "two generated items both take the Rust type name `");
                push_str(&mut r, name.as_str());
                push_str(&mut r, "`");
                proof { assert(r@ =~= "two generated items both take the Rust type name `"@ + name@ + "`"@); }
                r
            },
            Error::OperationTypeCollision { name, first, second, .. } => {
                let mut r = String::new();
                push_str(&mut r, first.as_str());
                push_str(&mut r, " and ");
                push_str(&mut r, second.as_str());
                push_str(&mut r, " both take the Rust type name `");
                push_str(&mut r, name.as_str());
                push_str(&mut r, "`");
                proof { assert(r@ =~= first@ + " and "@ + second@ + " both take the Rust type name `"@ + name@ + "`"@); }
                r
            },
            Error::RecursiveAlias { cycle, .. } => {
                let mut r = String::new();
                push_str(&mut r, "type aliases refer to each other in a cycle: ");
                let joined = join_strings(cycle, " -> ");
                push_str(&mut r, joined.as_str());
                proof { assert(r@ =~= "type aliases refer to each other in a cycle: "@ + join(cycle@.map_values(|s: String| s@), " -> "@)); }
                r
            },
            Error::SchemaNameCollision { ident, first, second, .. } => {
                let mut r = String::new();
                push_str(&mut r, "component schemas `");
                push_str(&mut r, first.as_str());
                push_str(&mut r, "` and `");
                push_str(&mut r, second.as_str());
                push_str(&mut r, "` both produce the Rust type name `");
                push_str(&mut r, ident.as_str());
                push_str(&mut r, "`");
                proof { assert(r@ =~= "component schemas `"@ + first@ + "` and `"@ + second@ + "` both produce the Rust type name `"@ + ident@ + "`"@); }
                r
            },
            Error::OperationNameCollision { ident, first, second, .. } => {
                let mut r = String::new();
                push_str(&mut r, "operations `");
                push_str(&mut r, first.as_str());
                push_str(&mut r, "` and `");
                push_str(&mut r, second.as_str());
                push_str(&mut r, "` both produce the Rust method name `");
                push_str(&mut r, ident.as_str());
                push_str(&mut r, "`");
                proof { assert(r@ =~= "operations `"@ + first@ + "` and `"@ + second@ + "` both produce the Rust method name `"@ + ident@ + "`"@); }
                r
            },
            Error::InvalidTypeNameSuffix { suffix, .. } => {
                let mut r = String::new();
                push_str(&mut r, "`type-name-suffix` is set to `");
                push_str(&mut r, suffix.as_str());
                push_str(&mut r, "`, which contributes no characters to a Rust type name");
                proof { assert(r@ =~= "`type-name-suffix` is set to `"@ + suffix@ + "`, which contributes no characters to a Rust type name"@); }
                r
            },
            Error::InvalidGeneratedCode { source } => {
                let mut r = String::new();
                push_str(&mut r, "generated code was not valid Rust: ");
                push_str(&mut r, source.as_str());
                proof { assert(r@ =~= "generated code was not valid Rust: "@ + source@); }
                r
            },
            Error::Validation { problems } => {
                let mut r = String::new();
                push_str(&mut r, "found ");
                let count = decimal_string(problems.len() as u64);
                push_str(&mut r, count.as_str());
                push_str(&mut r, " problems in the spec:");
                let ghost head = r@;
                let mut k: usize = 0;
                while k < problems.len()
                    invariant
                        k <= problems@.len(),
                        *self == (Error::Validation { problems: *problems }),
                        r@ == head + problems_text(problems@.subrange(0, k as int)),
                    decreases problems@.len() - k,
                {
                    proof {
                        assert(decreases_to!(*self => self->Validation_problems)) ;
                        assert(decreases_to!(*self => problems@[k as int])) by {
                            assert(decreases_to!(*self => self->Validation_problems));
                            assert(decreases_to!(*problems => problems@));
                            assert(decreases_to!(problems@ => problems@[k as int]));
                        }
                    }
                    let line = problems[k].message();
                    push_str(&mut r, "\n  - ");
                    push_str(&mut r, line.as_str());
                    proof {
                        let now = problems@.subrange(0, k + 1);
                        assert(now.subrange(0, k as int) =~= problems@.subrange(0, k as int));
                        assert(now[k as int] == problems@[k as int]);
                        assert(r@ =~= head + problems_text(now));
                    }
                    k = k + 1;
                }
                proof {
                    assert(problems@.subrange(0, problems@.len() as int) =~= problems@);
                    assert(r@ =~= error_text(*self));
                }
                r
            },
        }
    }
}

} // verus!
