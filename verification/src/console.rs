//! What the command line says about a run: whether generated code is empty,
//! and the hints that follow an error or an empty result.
//!
//! Each failure states what went wrong and, where possible, a concrete next
//! step. The printing itself belongs to the program; this module decides the
//! words.

use vstd::prelude::*;

use crate::config::Generate;
use crate::emit::HEADER;
use crate::error::Error;
use crate::error::IoErrorKind;
use crate::graph::views;
use crate::text::chars_of;
use crate::text::contains_text;
use crate::text::decimal;
use crate::text::decimal_string;
use crate::text::has_prefix;
use crate::text::has_sub;
use crate::text::owned;
use crate::text::push_str;

verus! {

/// A lightweight summary of a spec, used to explain empty output.
#[derive(Debug, Clone, Copy)]
pub struct SpecStats {
    /// Number of `components.schemas` entries (after filtering).
    pub schemas: usize,
    /// Number of paths declared in the document (after filtering).
    pub paths: usize,
    /// Number of top-level `servers:` entries declared in the document.
    pub servers: usize,
}

/// Whether `c` is white space, as `char::is_whitespace` (Unicode `White_Space`) reads it.
pub open spec fn is_space(c: char) -> bool {
    c == ' ' || c == '\t' || c == '\n' || c == '\u{0B}' || c == '\u{0C}' || c == '\r' || c == '\u{85}' || c
        == '\u{A0}' || c == '\u{1680}' || ('\u{2000}' <= c && c <= '\u{200A}') || c == '\u{2028}' || c == '\u{2029}'
        || c == '\u{202F}' || c == '\u{205F}' || c == '\u{3000}'
}

/// Whether `c` is white space.
pub fn space_char(c: char) -> (r: bool)
    ensures
        r == is_space(c),
{
    c == ' ' || c == '\t' || c == '\n' || c == '\u{0B}' || c == '\u{0C}' || c == '\r' || c == '\u{85}' || c
        == '\u{A0}' || c == '\u{1680}' || ('\u{2000}' <= c && c <= '\u{200A}') || c == '\u{2028}' || c == '\u{2029}'
        || c == '\u{202F}' || c == '\u{205F}' || c == '\u{3000}'
}

/// Whether `s[a..b]` is a line of `s`: it starts the text or follows a newline,
/// ends the text or precedes one, and holds none.
pub open spec fn is_line(s: Seq<char>, a: int, b: int) -> bool {
    &&& 0 <= a <= b <= s.len()
    &&& (a == 0 || s[a - 1] == '\n')
    &&& (b == s.len() || s[b] == '\n')
    &&& forall|k: int| a <= k < b ==> s[k] != '\n'
}

/// Whether a line is blank or a comment: after its leading white space it is
/// empty or starts with `//`.
pub open spec fn blank_or_comment(line: Seq<char>) -> bool {
    forall|p: int|
        0 <= p < line.len() && !is_space(line[p]) && (forall|q: int| 0 <= q < p ==> is_space(line[q])) ==> p + 1
            < line.len() && line[p] == '/' && line[p + 1] == '/'
}

/// The code after the header, when it starts with it, else the whole code.
pub open spec fn body_of(code: Seq<char>) -> Seq<char> {
    if has_prefix(code, HEADER@) {
        code.skip(HEADER@.len() as int)
    } else {
        code
    }
}

/// Whether generated code holds no item: every line after the header is blank
/// or a comment.
pub open spec fn effectively_empty(code: Seq<char>) -> bool {
    let body = body_of(code);
    forall|a: int, b: int| is_line(body, a, b) ==> blank_or_comment(#[trigger] body.subrange(a, b))
}

/// Whether the line `cs[a..b]` is blank or a comment.
fn line_is_blank_or_comment(cs: &Vec<char>, a: usize, b: usize) -> (r: bool)
    requires
        a <= b <= cs@.len(),
    ensures
        r == blank_or_comment(cs@.subrange(a as int, b as int)),
{
    let ghost line = cs@.subrange(a as int, b as int);
    let mut p = a;
    while p < b && space_char(cs[p])
        invariant
            a <= p <= b <= cs@.len(),
            line == cs@.subrange(a as int, b as int),
            forall|q: int| 0 <= q < p - a ==> is_space(line[q]),
        decreases b - p,
    {
        p = p + 1;
    }
    if p == b {
        return true;
    }
    let ok = p + 1 < b && cs[p] == '/' && cs[p + 1] == '/';
    proof {
        let i = p - a;
        assert(!is_space(line[i]));
        if ok {
            assert forall|j: int|
                0 <= j < line.len() && !is_space(line[j]) && (forall|q: int| 0 <= q < j ==> is_space(line[q])) implies j + 1
                    < line.len() && line[j] == '/' && line[j + 1] == '/' by {
                if j < i {
                } else if j > i {
                    assert(is_space(line[i]));
                }
            }
        }
    }
    ok
}

/// Return `true` when generated `code` contains no items, only the header and
/// blank or comment lines. Such a file is confusing to write to disk, so the
/// program treats it as a failure and explains why instead.
///
/// The header is stripped as the one string the emitter writes, and not matched
/// by shape: it holds an inner attribute, and a shape test that accepted any
/// `#!` line would accept a real attribute too.
pub fn is_effectively_empty(code: &str) -> (r: bool)
    ensures
        r == effectively_empty(code@),
{
    let all = chars_of(code);
    let header = chars_of(HEADER);
    let starts = crate::text::occurs_at_exec(all.as_slice(), header.as_slice(), 0);
    let body_text = if starts {
        code.substring_char(header.len(), all.len())
    } else {
        code
    };
    let cs = chars_of(body_text);
    let ghost body = cs@;
    proof {
        if starts {
            assert(has_prefix(code@, HEADER@));
            assert(code@.subrange(HEADER@.len() as int, code@.len() as int) =~= code@.skip(HEADER@.len() as int));
        }
        assert(body =~= body_of(code@));
    }
    let mut a: usize = 0;
    loop
        invariant
            body == cs@,
            body == body_of(code@),
            a <= cs@.len(),
            a == 0 || cs@[a - 1] == '\n',
            forall|x: int, y: int| x < a && is_line(body, x, y) ==> blank_or_comment(#[trigger] body.subrange(x, y)),
        decreases cs@.len() - a,
    {
        let mut b = a;
        while b < cs.len() && cs[b] != '\n'
            invariant
                a <= b <= cs@.len(),
                forall|k: int| a <= k < b ==> cs@[k] != '\n',
            decreases cs@.len() - b,
        {
            b = b + 1;
        }
        assert(is_line(body, a as int, b as int));
        if !line_is_blank_or_comment(&cs, a, b) {
            return false;
        }
        proof {
            assert forall|x: int, y: int| x < b + 1 && is_line(body, x, y) implies blank_or_comment(#[trigger] body.subrange(x, y)) by {
                if x >= a {
                    if x > a {
                        assert(body[x - 1] != '\n');
                    }
                    if y < b {
                        assert(body[y] != '\n');
                    } else if y > b {
                        assert(body[b as int] == '\n');
                    }
                }
            }
        }
        if b == cs.len() {
            proof {
                assert forall|x: int, y: int| is_line(body, x, y) implies blank_or_comment(#[trigger] body.subrange(x, y)) by {
                    assert(x < b + 1);
                }
            }
            return true;
        }
        a = b + 1;
    }
}

/// `n noun`, with an `s` on the noun for every count but one.
pub open spec fn count_text(noun: Seq<char>, n: nat) -> Seq<char> {
    decimal(n) + " "@ + noun + if n == 1 {
        Seq::empty()
    } else {
        "s"@
    }
}

/// Format a count with a singular/plural noun, e.g. `1 schema`, `3 schemas`.
pub fn count(noun: &str, n: usize) -> (r: String)
    ensures
        r@ == count_text(noun@, n as nat),
{
    let mut r = decimal_string(n as u64);
    push_str(&mut r, " ");
    push_str(&mut r, noun);
    if n != 1 {
        push_str(&mut r, "s");
    }
    proof {
        if n == 1 {
            assert(r@ =~= count_text(noun@, n as nat));
        }
    }
    r
}

/// The hints for empty output: each artifact the config asks for that the spec
/// holds nothing for, then a remedy; or, when every artifact had something to
/// work from, that filtering removed it all.
pub open spec fn empty_hints_text(stats: SpecStats, generate: Generate) -> Seq<Seq<char>> {
    let missing = (if generate.models && stats.schemas == 0 {
        seq!["`generate.models` is on, but the spec has no `components.schemas` to turn into models."@]
    } else {
        Seq::empty()
    }) + (if (generate.std_http_server || generate.client) && stats.paths == 0 {
        seq!["A server/client was requested, but the spec declares no paths to turn into operations."@]
    } else {
        Seq::empty()
    }) + (if generate.server_urls && stats.servers == 0 {
        seq!["`generate.server-urls` is on, but the spec declares no top-level `servers:` entries to emit."@]
    } else {
        Seq::empty()
    });
    if missing.len() == 0 {
        seq!["Everything requested was filtered out; check your `output-options` include/exclude settings."@]
    } else {
        missing.push("Add the missing definitions to the spec, or enable a different artifact in your config."@)
    }
}

/// Build hints for empty output based on what the config requested versus what
/// the spec actually contains.
pub fn empty_output_hints(stats: &SpecStats, generate: &Generate) -> (hints: Vec<String>)
    ensures
        views(hints@) == empty_hints_text(*stats, *generate),
{
    let mut hints: Vec<String> = Vec::new();
    if generate.models && stats.schemas == 0 {
        hints.push(owned("`generate.models` is on, but the spec has no `components.schemas` to turn into models."));
    }
    let wants_service = generate.std_http_server || generate.client;
    if wants_service && stats.paths == 0 {
        hints.push(owned("A server/client was requested, but the spec declares no paths to turn into operations."));
    }
    if generate.server_urls && stats.servers == 0 {
        hints.push(owned("`generate.server-urls` is on, but the spec declares no top-level `servers:` entries to emit."));
    }
    let ghost missing = views(hints@);
    if hints.len() == 0 {
        hints.push(owned("Everything requested was filtered out; check your `output-options` include/exclude settings."));
    } else {
        hints.push(owned("Add the missing definitions to the spec, or enable a different artifact in your config."));
    }
    assert(views(hints@) =~= empty_hints_text(*stats, *generate));
    hints
}

/// The hint for a failed read, keyed on the kind of failure. `what` names the
/// kind of file as a whole noun phrase (for example `spec file`).
pub open spec fn read_hints_text(what: Seq<char>, path: Seq<char>, kind: IoErrorKind) -> Seq<Seq<char>> {
    match kind {
        IoErrorKind::NotFound => seq![
            "No "@ + what + " exists at `"@ + path + "`; check the path and your working directory."@,
        ],
        IoErrorKind::PermissionDenied => seq![
            "Permission denied reading `"@ + path + "`; check the file's permissions."@,
        ],
        IoErrorKind::Other => seq!["Could not read the "@ + what + " at `"@ + path + "`."@],
    }
}

/// Hints for a failed read, keyed on the underlying IO error kind.
///
/// `what` names the kind of file, and the caller supplies the whole noun phrase
/// (for example `spec file`). Every message reads it as one noun.
pub fn io_read_hints(what: &str, path: &str, kind: IoErrorKind) -> (hints: Vec<String>)
    ensures
        views(hints@) == read_hints_text(what@, path@, kind),
{
    let mut hint = String::new();
    match kind {
        IoErrorKind::NotFound => {
            push_str(&mut hint, "No ");
            push_str(&mut hint, what);
            push_str(&mut hint, " exists at `");
            push_str(&mut hint, path);
            push_str(&mut hint, "`; check the path and your working directory.");
        },
        IoErrorKind::PermissionDenied => {
            push_str(&mut hint, "Permission denied reading `");
            push_str(&mut hint, path);
            push_str(&mut hint, "`; check the file's permissions.");
        },
        IoErrorKind::Other => {
            push_str(&mut hint, "Could not read the ");
            push_str(&mut hint, what);
            push_str(&mut hint, " at `");
            push_str(&mut hint, path);
            push_str(&mut hint, "`.");
        },
    }
    let mut hints: Vec<String> = Vec::new();
    hints.push(hint);
    assert(views(hints@) =~= read_hints_text(what@, path@, kind));
    hints
}

/// The hints for a spec that failed to parse: a special pair for a document
/// that is YAML or JSON but not OpenAPI 3.
pub open spec fn parse_hints_text(message: Seq<char>) -> Seq<Seq<char>> {
    if has_sub(message, "missing field `openapi`"@) {
        seq![
            "This file does not look like an OpenAPI 3 document (no top-level `openapi:` field)."@,
            "oapi-codegen expects an OpenAPI 3.x spec in YAML or JSON, with `openapi`, `info`, and `paths`."@,
        ]
    } else {
        seq!["The spec must be a valid OpenAPI 3 document; the parser message above points at the problem."@]
    }
}

/// Hints for a spec that failed to parse, with a special case for documents
/// that are valid YAML/JSON but not OpenAPI 3.
pub fn parse_spec_hints(message: &str) -> (hints: Vec<String>)
    ensures
        views(hints@) == parse_hints_text(message@),
{
    let mut hints: Vec<String> = Vec::new();
    if contains_text(message, "missing field `openapi`") {
        hints.push(owned("This file does not look like an OpenAPI 3 document (no top-level `openapi:` field)."));
        hints.push(owned("oapi-codegen expects an OpenAPI 3.x spec in YAML or JSON, with `openapi`, `info`, and `paths`."));
    } else {
        hints.push(owned("The spec must be a valid OpenAPI 3 document; the parser message above points at the problem."));
    }
    assert(views(hints@) =~= parse_hints_text(message@));
    hints
}

/// The hint for a config that failed to parse.
pub open spec fn config_hints_text() -> Seq<Seq<char>> {
    seq!["The config must be YAML using oapi-codegen's keys, e.g. `output:` and a `generate:` block."@]
}

/// Hints for a config that failed to parse.
pub fn config_hints() -> (hints: Vec<String>)
    ensures
        views(hints@) == config_hints_text(),
{
    let mut hints: Vec<String> = Vec::new();
    hints.push(owned("The config must be YAML using oapi-codegen's keys, e.g. `output:` and a `generate:` block."));
    assert(views(hints@) =~= config_hints_text());
    hints
}

/// The hints shown after an error's message: what to check or change.
pub open spec fn hints_text(e: Error) -> Seq<Seq<char>> {
    match e {
        Error::ReadSpec { path, source } => read_hints_text("spec file"@, path@, source.kind),
        Error::ReadConfig { path, source } => read_hints_text("config file"@, path@, source.kind),
        Error::ReadRefFile { file, source } => read_hints_text("referenced file"@, file@, source.kind),
        Error::ParseSpec { source, .. } => parse_hints_text(source@),
        Error::ParseConfig { .. } => config_hints_text(),
        Error::UnsupportedSchema { reason, .. } => schema_hints_text(reason@),
        Error::Validation { .. } => Seq::empty(),
        Error::ParseRefFile { .. } => seq!["The referenced file must be a valid OpenAPI 3 fragment (YAML or JSON)."@],
        Error::WriteOutput { path, .. } => seq!["Check that the directory for `"@ + path@ + "` is writable."@],
        Error::ReadOutput { path, .. } => seq!["Check that `"@ + path@ + "` is a readable file and not a directory."@],
        Error::Unimplemented(_) => seq!["This generation mode is not supported yet."@],
        Error::UnresolvedRef(_) => seq!["The document has no component at that pointer."@, "Check the spelling, and check that the component exists."@, "For a cross-file ref, the component must exist in the other file."@],
        Error::UnsupportedRef { .. } => seq!["A same-document `#/components/...` pointer is the supported form at any site."@, "A cross-file `<file>#/components/...` ref resolves at a response, a parameter, or a request body. Give the file an `import-mapping` entry. The path is relative to the spec."@, "Inside a schema, only a same-document ref resolves. This covers a property, `items`, `additionalProperties`, `allOf`, and a union member."@],
        Error::UnsupportedOperation { .. } => seq!["This spec uses a feature the generator cannot represent yet; simplify the schema/operation or open an issue."@],
        Error::SchemaDepthExceeded { .. } => seq!["A schema nests too deeply; flatten it or split the nested shape into a named component referenced by `$ref`."@],
        Error::InvalidPathParameter { name, .. } => seq!["Add `{"@ + name@ + "}` to the path template, or change the parameter's `in:` to `query`, `header`, or `cookie`."@],
        Error::UndeclaredPathParameter { name, .. } => seq!["Declare a parameter with `name: "@ + name@ + "`, `in: path`, `required: true`, or remove `{"@ + name@ + "}` from the path."@],
        Error::InvalidGeneratedCode { .. } => seq!["This is an internal bug in oapi-codegen. Please report it with your spec."@],
        Error::UnsupportedSpecVersion { hint, .. } => seq![hint@],
        Error::UnsupportedSpecKey { hint, .. } => seq![hint@],
        Error::UnsupportedContentType { hint, .. } => seq![hint@],
        Error::TypeNameCollision { hint, .. } => seq![hint@],
        Error::DuplicateTypeName { hint, .. } => seq![hint@],
        Error::PreludeShadowing { hint, .. } => seq![hint@],
        Error::OperationTypeCollision { hint, .. } => seq![hint@],
        Error::SchemaNameCollision { hint, .. } => seq![hint@],
        Error::RecursiveAlias { hint, .. } => seq![hint@],
        Error::UnsupportedDefault { hint, .. } => seq![hint@],
        Error::OperationNameCollision { hint, .. } => seq![hint@],
        Error::InvalidTypeNameSuffix { hint, .. } => seq![hint@],
        Error::InvalidSpec { .. } | Error::UnownedOutput { .. } | Error::OutsideOutput { .. } | Error::UnsplittableOutput { .. } | Error::InvalidExtensionValue { .. } => Seq::empty(),
    }
}

/// The hints for an unsupported schema, chosen by what its reason says; the
/// checks run in order, so a broad one cannot take a reason meant for a later one.
pub open spec fn schema_hints_text(reason: Seq<char>) -> Seq<Seq<char>> {
    if has_sub(reason, "does not reach the type"@) {
        if has_sub(reason, "Properties"@) {
            seq!["`minProperties` and `maxProperties` read a free-form map. A schema that names its properties fixes the count already."@]
        } else if has_sub(reason, "uniqueItems"@) {
            seq!["`uniqueItems` reads a list of numbers, strings, or booleans. A list of models cannot always compare."@]
        } else {
            seq!["A `format` can name a type that is no longer a string, such as a date or a UUID. Drop the `format` to keep the string and the rule."@, "An `x-rust-type` does the same. The rules of that type are its own."@]
        }
    } else if has_sub(reason, "is not above zero"@) {
        seq!["JSON Schema asks for a `multipleOf` above zero. A step of zero divides by zero."@]
    } else if has_sub(reason, "does not fit `i32`"@) {
        seq!["A bound must fit the type the `format` chooses. `int32` holds -2147483648 to 2147483647. Drop the `format` to get `i64`."@]
    } else if has_sub(reason, "the union holds"@) {
        seq!["A `oneOf` becomes an untagged enum. Serde reads the variants in order and takes the first that fits, so a repeated type is unreachable. Remove the repeated member."@]
    } else if has_sub(reason, "`enum`"@) {
        seq!["An `enum` names each value once. Remove the repeat."@, "An integer `enum` value must fit the type the `format` chooses. `int32` holds -2147483648 to 2147483647. Drop the `format` to get `i64`."@]
    } else {
        seq!["This spec uses a feature the generator cannot represent yet; simplify the schema/operation or open an issue."@]
    }
}

/// The unsupported-schema hints, chosen by what the reason says.
fn schema_hints(reason: &str) -> (hints: Vec<String>)
    ensures
        views(hints@) == schema_hints_text(reason@),
{
    if contains_text(reason, "does not reach the type") {
        if contains_text(reason, "Properties") {
            let mut hints: Vec<String> = Vec::new();
            let mut h0 = String::new();
            push_str(&mut h0, "`minProperties` and `maxProperties` read a free-form map. A schema that names its properties fixes the count already.");
            hints.push(h0);
            proof { assert(views(hints@) =~= seq!["`minProperties` and `maxProperties` read a free-form map. A schema that names its properties fixes the count already."@]); }
            return hints;
        }
        if contains_text(reason, "uniqueItems") {
            let mut hints: Vec<String> = Vec::new();
            let mut h0 = String::new();
            push_str(&mut h0, "`uniqueItems` reads a list of numbers, strings, or booleans. A list of models cannot always compare.");
            hints.push(h0);
            proof { assert(views(hints@) =~= seq!["`uniqueItems` reads a list of numbers, strings, or booleans. A list of models cannot always compare."@]); }
            return hints;
        }
        let mut hints: Vec<String> = Vec::new();
        let mut h0 = String::new();
        push_str(&mut h0, "A `format` can name a type that is no longer a string, such as a date or a UUID. Drop the `format` to keep the string and the rule.");
        hints.push(h0);
        let mut h1 = String::new();
        push_str(&mut h1, "An `x-rust-type` does the same. The rules of that type are its own.");
        hints.push(h1);
        proof { assert(views(hints@) =~= seq!["A `format` can name a type that is no longer a string, such as a date or a UUID. Drop the `format` to keep the string and the rule."@, "An `x-rust-type` does the same. The rules of that type are its own."@]); }
        return hints;
    }
    if contains_text(reason, "is not above zero") {
        let mut hints: Vec<String> = Vec::new();
        let mut h0 = String::new();
        push_str(&mut h0, "JSON Schema asks for a `multipleOf` above zero. A step of zero divides by zero.");
        hints.push(h0);
        proof { assert(views(hints@) =~= seq!["JSON Schema asks for a `multipleOf` above zero. A step of zero divides by zero."@]); }
        return hints;
    }
    if contains_text(reason, "does not fit `i32`") {
        let mut hints: Vec<String> = Vec::new();
        let mut h0 = String::new();
        push_str(&mut h0, "A bound must fit the type the `format` chooses. `int32` holds -2147483648 to 2147483647. Drop the `format` to get `i64`.");
        hints.push(h0);
        proof { assert(views(hints@) =~= seq!["A bound must fit the type the `format` chooses. `int32` holds -2147483648 to 2147483647. Drop the `format` to get `i64`."@]); }
        return hints;
    }
    if contains_text(reason, "the union holds") {
        let mut hints: Vec<String> = Vec::new();
        let mut h0 = String::new();
        push_str(&mut h0, "A `oneOf` becomes an untagged enum. Serde reads the variants in order and takes the first that fits, so a repeated type is unreachable. Remove the repeated member.");
        hints.push(h0);
        proof { assert(views(hints@) =~= seq!["A `oneOf` becomes an untagged enum. Serde reads the variants in order and takes the first that fits, so a repeated type is unreachable. Remove the repeated member."@]); }
        return hints;
    }
    if contains_text(reason, "`enum`") {
        let mut hints: Vec<String> = Vec::new();
        let mut h0 = String::new();
        push_str(&mut h0, "An `enum` names each value once. Remove the repeat.");
        hints.push(h0);
        let mut h1 = String::new();
        push_str(&mut h1, "An integer `enum` value must fit the type the `format` chooses. `int32` holds -2147483648 to 2147483647. Drop the `format` to get `i64`.");
        hints.push(h1);
        proof { assert(views(hints@) =~= seq!["An `enum` names each value once. Remove the repeat."@, "An integer `enum` value must fit the type the `format` chooses. `int32` holds -2147483648 to 2147483647. Drop the `format` to get `i64`."@]); }
        return hints;
    }
    let mut hints: Vec<String> = Vec::new();
    let mut h0 = String::new();
    push_str(&mut h0, "This spec uses a feature the generator cannot represent yet; simplify the schema/operation or open an issue.");
    hints.push(h0);
    proof { assert(views(hints@) =~= seq!["This spec uses a feature the generator cannot represent yet; simplify the schema/operation or open an issue."@]); }
    hints
}

/// Build the context-specific hints shown after an error message.
pub fn hints_for(err: &Error) -> (hints: Vec<String>)
    ensures
        views(hints@) == hints_text(*err),
{
    match err {
        Error::ReadSpec { path, source } => io_read_hints("spec file", path.as_str(), source.kind),
        Error::ReadConfig { path, source } => io_read_hints("config file", path.as_str(), source.kind),
        Error::ReadRefFile { file, source } => io_read_hints("referenced file", file.as_str(), source.kind),
        Error::ParseSpec { source, .. } => parse_spec_hints(source.as_str()),
        Error::ParseConfig { .. } => config_hints(),
        Error::UnsupportedSchema { reason, .. } => schema_hints(reason.as_str()),
        Error::Validation { .. } => {
            let hints: Vec<String> = Vec::new();
            assert(views(hints@) =~= Seq::<Seq<char>>::empty());
            hints
        },
        Error::ParseRefFile { .. } => {
            let mut hints: Vec<String> = Vec::new();
            let mut h0 = String::new();
            push_str(&mut h0, "The referenced file must be a valid OpenAPI 3 fragment (YAML or JSON).");
            hints.push(h0);
            proof { assert(views(hints@) =~= seq!["The referenced file must be a valid OpenAPI 3 fragment (YAML or JSON)."@]); }
            hints
        },
        Error::WriteOutput { path, .. } => {
            let mut hints: Vec<String> = Vec::new();
            let mut h0 = String::new();
            push_str(&mut h0, "Check that the directory for `");
            push_str(&mut h0, path.as_str());
            push_str(&mut h0, "` is writable.");
            hints.push(h0);
            proof { assert(views(hints@) =~= seq!["Check that the directory for `"@ + path@ + "` is writable."@]); }
            hints
        },
        Error::ReadOutput { path, .. } => {
            let mut hints: Vec<String> = Vec::new();
            let mut h0 = String::new();
            push_str(&mut h0, "Check that `");
            push_str(&mut h0, path.as_str());
            push_str(&mut h0, "` is a readable file and not a directory.");
            hints.push(h0);
            proof { assert(views(hints@) =~= seq!["Check that `"@ + path@ + "` is a readable file and not a directory."@]); }
            hints
        },
        Error::Unimplemented(_) => {
            let mut hints: Vec<String> = Vec::new();
            let mut h0 = String::new();
            push_str(&mut h0, "This generation mode is not supported yet.");
            hints.push(h0);
            proof { assert(views(hints@) =~= seq!["This generation mode is not supported yet."@]); }
            hints
        },
        Error::UnresolvedRef(_) => {
            let mut hints: Vec<String> = Vec::new();
            let mut h0 = String::new();
            push_str(&mut h0, "The document has no component at that pointer.");
            hints.push(h0);
            let mut h1 = String::new();
            push_str(&mut h1, "Check the spelling, and check that the component exists.");
            hints.push(h1);
            let mut h2 = String::new();
            push_str(&mut h2, "For a cross-file ref, the component must exist in the other file.");
            hints.push(h2);
            proof { assert(views(hints@) =~= seq!["The document has no component at that pointer."@, "Check the spelling, and check that the component exists."@, "For a cross-file ref, the component must exist in the other file."@]); }
            hints
        },
        Error::UnsupportedRef { .. } => {
            let mut hints: Vec<String> = Vec::new();
            let mut h0 = String::new();
            push_str(&mut h0, "A same-document `#/components/...` pointer is the supported form at any site.");
            hints.push(h0);
            let mut h1 = String::new();
            push_str(&mut h1, "A cross-file `<file>#/components/...` ref resolves at a response, a parameter, or a request body. Give the file an `import-mapping` entry. The path is relative to the spec.");
            hints.push(h1);
            let mut h2 = String::new();
            push_str(&mut h2, "Inside a schema, only a same-document ref resolves. This covers a property, `items`, `additionalProperties`, `allOf`, and a union member.");
            hints.push(h2);
            proof { assert(views(hints@) =~= seq!["A same-document `#/components/...` pointer is the supported form at any site."@, "A cross-file `<file>#/components/...` ref resolves at a response, a parameter, or a request body. Give the file an `import-mapping` entry. The path is relative to the spec."@, "Inside a schema, only a same-document ref resolves. This covers a property, `items`, `additionalProperties`, `allOf`, and a union member."@]); }
            hints
        },
        Error::UnsupportedOperation { .. } => {
            let mut hints: Vec<String> = Vec::new();
            let mut h0 = String::new();
            push_str(&mut h0, "This spec uses a feature the generator cannot represent yet; simplify the schema/operation or open an issue.");
            hints.push(h0);
            proof { assert(views(hints@) =~= seq!["This spec uses a feature the generator cannot represent yet; simplify the schema/operation or open an issue."@]); }
            hints
        },
        Error::SchemaDepthExceeded { .. } => {
            let mut hints: Vec<String> = Vec::new();
            let mut h0 = String::new();
            push_str(&mut h0, "A schema nests too deeply; flatten it or split the nested shape into a named component referenced by `$ref`.");
            hints.push(h0);
            proof { assert(views(hints@) =~= seq!["A schema nests too deeply; flatten it or split the nested shape into a named component referenced by `$ref`."@]); }
            hints
        },
        Error::InvalidPathParameter { name, .. } => {
            let mut hints: Vec<String> = Vec::new();
            let mut h0 = String::new();
            push_str(&mut h0, "Add `{");
            push_str(&mut h0, name.as_str());
            push_str(&mut h0, "}` to the path template, or change the parameter's `in:` to `query`, `header`, or `cookie`.");
            hints.push(h0);
            proof { assert(views(hints@) =~= seq!["Add `{"@ + name@ + "}` to the path template, or change the parameter's `in:` to `query`, `header`, or `cookie`."@]); }
            hints
        },
        Error::UndeclaredPathParameter { name, .. } => {
            let mut hints: Vec<String> = Vec::new();
            let mut h0 = String::new();
            push_str(&mut h0, "Declare a parameter with `name: ");
            push_str(&mut h0, name.as_str());
            push_str(&mut h0, "`, `in: path`, `required: true`, or remove `{");
            push_str(&mut h0, name.as_str());
            push_str(&mut h0, "}` from the path.");
            hints.push(h0);
            proof { assert(views(hints@) =~= seq!["Declare a parameter with `name: "@ + name@ + "`, `in: path`, `required: true`, or remove `{"@ + name@ + "}` from the path."@]); }
            hints
        },
        Error::InvalidGeneratedCode { .. } => {
            let mut hints: Vec<String> = Vec::new();
            let mut h0 = String::new();
            push_str(&mut h0, "This is an internal bug in oapi-codegen. Please report it with your spec.");
            hints.push(h0);
            proof { assert(views(hints@) =~= seq!["This is an internal bug in oapi-codegen. Please report it with your spec."@]); }
            hints
        },
        Error::UnsupportedSpecVersion { hint, .. } => {
            let mut hints: Vec<String> = Vec::new();
            hints.push(hint.clone());
            assert(views(hints@) =~= seq![hint@]);
            hints
        },
        Error::UnsupportedSpecKey { hint, .. } => {
            let mut hints: Vec<String> = Vec::new();
            hints.push(hint.clone());
            assert(views(hints@) =~= seq![hint@]);
            hints
        },
        Error::UnsupportedContentType { hint, .. } => {
            let mut hints: Vec<String> = Vec::new();
            hints.push(hint.clone());
            assert(views(hints@) =~= seq![hint@]);
            hints
        },
        Error::TypeNameCollision { hint, .. } => {
            let mut hints: Vec<String> = Vec::new();
            hints.push(hint.clone());
            assert(views(hints@) =~= seq![hint@]);
            hints
        },
        Error::DuplicateTypeName { hint, .. } => {
            let mut hints: Vec<String> = Vec::new();
            hints.push(hint.clone());
            assert(views(hints@) =~= seq![hint@]);
            hints
        },
        Error::PreludeShadowing { hint, .. } => {
            let mut hints: Vec<String> = Vec::new();
            hints.push(hint.clone());
            assert(views(hints@) =~= seq![hint@]);
            hints
        },
        Error::OperationTypeCollision { hint, .. } => {
            let mut hints: Vec<String> = Vec::new();
            hints.push(hint.clone());
            assert(views(hints@) =~= seq![hint@]);
            hints
        },
        Error::SchemaNameCollision { hint, .. } => {
            let mut hints: Vec<String> = Vec::new();
            hints.push(hint.clone());
            assert(views(hints@) =~= seq![hint@]);
            hints
        },
        Error::RecursiveAlias { hint, .. } => {
            let mut hints: Vec<String> = Vec::new();
            hints.push(hint.clone());
            assert(views(hints@) =~= seq![hint@]);
            hints
        },
        Error::UnsupportedDefault { hint, .. } => {
            let mut hints: Vec<String> = Vec::new();
            hints.push(hint.clone());
            assert(views(hints@) =~= seq![hint@]);
            hints
        },
        Error::OperationNameCollision { hint, .. } => {
            let mut hints: Vec<String> = Vec::new();
            hints.push(hint.clone());
            assert(views(hints@) =~= seq![hint@]);
            hints
        },
        Error::InvalidTypeNameSuffix { hint, .. } => {
            let mut hints: Vec<String> = Vec::new();
            hints.push(hint.clone());
            assert(views(hints@) =~= seq![hint@]);
            hints
        },
        _ => {
            let hints: Vec<String> = Vec::new();
            assert(views(hints@) =~= Seq::<Seq<char>>::empty());
            hints
        },
    }
}

} // verus!

verus! {

/// The header is stripped whole: after it, the emptiness check reads exactly
/// the code that follows, so an item right after the header is seen.
pub proof fn header_is_stripped(code: Seq<char>)
    ensures
        body_of(crate::emit::HEADER@ + code) == code,
{
    let h = crate::emit::HEADER@;
    assert((h + code).subrange(0, h.len() as int) =~= h);
    assert((h + code).skip(h.len() as int) =~= code);
}

/// Output with no line at all holds no item.
pub proof fn nothing_is_empty()
    ensures
        effectively_empty(Seq::empty()),
{
    let e = Seq::<char>::empty();
    assert forall|a: int, b: int| is_line(body_of(e), a, b) implies blank_or_comment(
        #[trigger] body_of(e).subrange(a, b),
    ) by {
        assert(body_of(e).subrange(a, b) =~= Seq::<char>::empty());
    }
}

} // verus!

verus! {

/// A header in front of code that does not itself start with the header
/// changes nothing: the check reads the same lines either way, so a `#!`
/// attribute outside the one exact header still counts as an item.
pub proof fn header_does_not_change_emptiness(code: Seq<char>)
    requires
        !has_prefix(code, crate::emit::HEADER@),
    ensures
        effectively_empty(crate::emit::HEADER@ + code) == effectively_empty(code),
        effectively_empty(code) == forall|a: int, b: int|
            is_line(code, a, b) ==> blank_or_comment(#[trigger] code.subrange(a, b)),
{
    header_is_stripped(code);
    assert(body_of(code) == code);
}

} // verus!
