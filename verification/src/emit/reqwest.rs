//! The part of the blocking `reqwest` client emitter that decides rather than
//! renders: which operations the client can carry, and the format text of a
//! request URL.

use vstd::prelude::*;

use crate::emit::render::doc_body;
use crate::emit::render::doc_text;
use crate::emit::render::push_doc;
use crate::emit::render::push_doc_body;
use crate::emit::scheme_for;
use crate::emit::scheme_index;
use crate::error::Error;
use crate::loader::find_from;
use crate::loader::first_at;
use crate::ir::Operation;
use crate::ir::Service;
use crate::ir::SecurityScheme;
use crate::ir::SecuritySchemeKind;
use crate::text::owned;
use crate::text::push_str;

verus! {

/// The blocking `reqwest` client emitter.
pub struct ReqwestClient;

/// Name of the emitted client struct, reserved at the crate root.
pub const CLIENT_STRUCT_NAME: &'static str = "Client";

/// Name of the emitted client error enum, reserved at the crate root.
pub const CLIENT_ERROR_NAME: &'static str = "ClientError";

/// Why the client cannot carry the security scheme named `key`, or `None` when
/// it can.
pub open spec fn scheme_fault(key: Seq<char>, schemes: Seq<SecurityScheme>) -> Option<Seq<char>> {
    match scheme_for(schemes, key) {
        None => Some(
            "requires security scheme `"@ + key + "`, which is not declared in `components.securitySchemes`"@,
        ),
        Some(scheme) => match scheme.kind {
            SecuritySchemeKind::Unsupported(reason) => Some(reason@),
            _ => None,
        },
    }
}

/// The first fault among the schemes an operation names, in order.
pub open spec fn first_fault(keys: Seq<String>, schemes: Seq<SecurityScheme>) -> Option<Seq<char>>
    decreases keys.len(),
{
    if keys.len() == 0 {
        None
    } else {
        match first_fault(keys.drop_last(), schemes) {
            Some(reason) => Some(reason),
            None => scheme_fault(keys.last()@, schemes),
        }
    }
}

/// Build the error for an operation shape the client generator does not support.
pub fn unsupported(operation: &Operation, reason: &str) -> (e: Error)
    ensures
        e matches Error::UnsupportedOperation { method, path, reason: why } && method@ == operation.method@ && path@
            == operation.path@ && why@ == reason@,
{
    Error::UnsupportedOperation { method: operation.method.clone(), path: operation.path.clone(), reason: owned(reason) }
}

/// Reject the operation shapes the client generator does not handle yet, so a
/// spec that uses them fails loudly rather than generating a client that
/// silently drops the credential: a scheme the document never declares, or one
/// the client cannot send. The first such scheme, in the operation's order,
/// gives the error.
pub fn ensure_supported(operation: &Operation, schemes: &Vec<SecurityScheme>) -> (r: Result<(), Error>)
    ensures
        match first_fault(operation.security@, schemes@) {
            None => r is Ok,
            Some(reason) => r matches Err(Error::UnsupportedOperation { method, path, reason: why }) && method@
                == operation.method@ && path@ == operation.path@ && why@ == reason,
        },
{
    let mut k: usize = 0;
    while k < operation.security.len()
        invariant
            k <= operation.security@.len(),
            first_fault(operation.security@.take(k as int), schemes@) is None,
        decreases operation.security@.len() - k,
    {
        let key = operation.security[k].as_str();
        let ghost prefix = operation.security@.take(k as int);
        let ghost next = operation.security@.take(k + 1);
        proof {
            assert(next.drop_last() =~= prefix);
        }
        match scheme_index(schemes, key) {
            None => {
                let mut reason = owned("requires security scheme `");
                push_str(&mut reason, key);
                push_str(&mut reason, "`, which is not declared in `components.securitySchemes`");
                proof {
                    lemma_fault_stays(operation.security@, schemes@, k as int);
                }
                return Err(unsupported(operation, reason.as_str()));
            },
            Some(i) => {
                match &schemes[i].kind {
                    SecuritySchemeKind::Unsupported(reason) => {
                        proof {
                            lemma_fault_stays(operation.security@, schemes@, k as int);
                        }
                        return Err(unsupported(operation, reason.as_str()));
                    },
                    _ => {},
                }
            },
        }
        k = k + 1;
    }
    assert(operation.security@.take(operation.security@.len() as int) =~= operation.security@);
    Ok(())
}

/// The first fault of a prefix is the first fault of the whole list.
proof fn lemma_fault_stays(keys: Seq<String>, schemes: Seq<SecurityScheme>, k: int)
    requires
        0 <= k < keys.len(),
        first_fault(keys.take(k), schemes) is None,
        scheme_fault(keys[k]@, schemes) is Some,
    ensures
        first_fault(keys, schemes) == scheme_fault(keys[k]@, schemes),
    decreases keys.len() - k,
{
    assert(keys.take(k + 1).drop_last() =~= keys.take(k));
    if k + 1 == keys.len() {
        assert(keys.take(k + 1) =~= keys);
    } else {
        lemma_fault_prefix(keys, schemes, k + 1);
    }
}

/// Once a prefix has a fault, every longer prefix has the same first fault.
proof fn lemma_fault_prefix(keys: Seq<String>, schemes: Seq<SecurityScheme>, n: int)
    requires
        0 < n <= keys.len(),
        first_fault(keys.take(n), schemes) is Some,
    ensures
        first_fault(keys, schemes) == first_fault(keys.take(n), schemes),
    decreases keys.len() - n,
{
    if n == keys.len() {
        assert(keys.take(n) =~= keys);
    } else {
        assert(keys.take(n + 1).drop_last() =~= keys.take(n));
        lemma_fault_prefix(keys, schemes, n + 1);
    }
}

/// The position of the first `c` in `s`, if any.
pub open spec fn find_char(s: Seq<char>, c: char) -> Option<int> {
    if exists|i: int| first_at(s, c, i) {
        Some(choose|i: int| first_at(s, c, i))
    } else {
        None
    }
}

/// Where the path resumes after the placeholder that opens at `open`: after
/// its closing `}`, or at the end when nothing closes it.
pub open spec fn placeholder_end(s: Seq<char>, open: int) -> int {
    match find_char(s.skip(open), '}') {
        Some(j) => open + j + 1,
        None => s.len() as int,
    }
}

/// The format text of a path template: each `{..}` placeholder becomes `{}`,
/// in path order, and the text around them stays as written.
pub open spec fn template_text(path: Seq<char>) -> Seq<char>
    decreases path.len(),
{
    match find_char(path, '{') {
        Some(open) => if 0 <= open < placeholder_end(path, open) <= path.len() {
            path.take(open) + "{}"@ + template_text(path.skip(placeholder_end(path, open)))
        } else {
            path
        },
        None => path,
    }
}

/// How many placeholders a path template holds.
pub open spec fn placeholder_count(path: Seq<char>) -> nat
    decreases path.len(),
{
    match find_char(path, '{') {
        Some(open) => if 0 <= open < placeholder_end(path, open) <= path.len() {
            1 + placeholder_count(path.skip(placeholder_end(path, open)))
        } else {
            0
        },
        None => 0,
    }
}

/// The first `c` of `s`, as [`find_char`] names it.
proof fn lemma_find_char(s: Seq<char>, c: char, i: int)
    requires
        first_at(s, c, i),
    ensures
        find_char(s, c) == Some(i),
{
    let k = choose|k: int| first_at(s, c, k);
    assert(first_at(s, c, k));
    if k < i {
        assert(s[k] != c);
    } else if k > i {
        assert(s[i] != c);
    }
}

/// The format text of the request URL, and how many path arguments follow the
/// base URL in it.
///
/// The text is `{}` for the base URL followed by the path template with each
/// `{placeholder}` replaced by `{}`. The emitter passes the base URL and then
/// the operation's path arguments, in path order, one per placeholder.
pub fn url_format(path: &str) -> (r: (String, usize))
    ensures
        r.0@ == "{}"@ + template_text(path@),
        r.1 == placeholder_count(path@),
{
    let cs = crate::text::chars_of(path);
    let mut out = owned("{}");
    let mut count: usize = 0;
    let mut pos: usize = 0;
    assert(path@.skip(0) =~= path@);
    while pos < cs.len()
        invariant
            pos <= cs@.len(),
            cs@ == path@,
            count <= pos,
            "{}"@ + template_text(path@) == out@ + template_text(path@.skip(pos as int)),
            placeholder_count(path@) == count + placeholder_count(path@.skip(pos as int)),
        decreases cs@.len() - pos,
    {
        let ghost rest = path@.skip(pos as int);
        match find_from(&cs, '{', pos) {
            None => {
                proof {
                    assert forall|k: int| !first_at(rest, '{', k) by {
                        if 0 <= k < rest.len() {
                            assert(rest[k] == cs@[pos + k]);
                        }
                    }
                    assert(find_char(rest, '{') is None);
                    assert(path@.subrange(pos as int, cs@.len() as int) =~= rest);
                    assert(path@.skip(cs@.len() as int) =~= Seq::<char>::empty());
                    assert(find_char(Seq::<char>::empty(), '{') is None);
                }
                push_str(&mut out, path.substring_char(pos, cs.len()));
                pos = cs.len();
                proof {
                    assert(template_text(path@.skip(pos as int)) =~= Seq::<char>::empty());
                }
            },
            Some(i) => {
                let open_rel: usize = i - pos;
                proof {
                    assert(first_at(rest, '{', open_rel as int)) by {
                        assert forall|k: int| 0 <= k < open_rel implies rest[k] != '{' by {
                            assert(rest[k] == cs@[pos + k]);
                        }
                        assert(rest[open_rel as int] == cs@[i as int]);
                    }
                    lemma_find_char(rest, '{', open_rel as int);
                    assert(rest.skip(open_rel as int) =~= path@.skip(i as int));
                }
                push_str(&mut out, path.substring_char(pos, i));
                push_str(&mut out, "{}");
                let end: usize = match find_from(&cs, '}', i) {
                    Some(j) => {
                        proof {
                            let tail = path@.skip(i as int);
                            assert(first_at(tail, '}', (j - i) as int)) by {
                                assert forall|k: int| 0 <= k < j - i implies tail[k] != '}' by {
                                    assert(tail[k] == cs@[i + k]);
                                }
                                assert(tail[(j - i) as int] == cs@[j as int]);
                            }
                            lemma_find_char(tail, '}', (j - i) as int);
                        }
                        j + 1
                    },
                    None => {
                        proof {
                            let tail = path@.skip(i as int);
                            assert forall|k: int| !first_at(tail, '}', k) by {
                                if 0 <= k < tail.len() {
                                    assert(tail[k] == cs@[i + k]);
                                }
                            }
                        }
                        cs.len()
                    },
                };
                proof {
                    let e = placeholder_end(rest, open_rel as int);
                    assert(e == end - pos);
                    assert(rest.take(open_rel as int) =~= path@.subrange(pos as int, i as int));
                    assert(rest.skip(e) =~= path@.skip(end as int));
                }
                count = count + 1;
                pos = end;
            },
        }
    }
    proof {
        assert(path@.skip(pos as int) =~= Seq::<char>::empty());
        assert(find_char(Seq::<char>::empty(), '{') is None);
    }
    (out, count)
}

/// Check every operation of a service before the client is emitted: the
/// first operation, in service order, that names a scheme the client cannot
/// carry gives the error.
pub fn check_client_operations(service: &Service) -> (r: Result<(), Error>)
    ensures
        r is Ok <==> forall|i: int|
            0 <= i < service.operations@.len() ==> first_fault(
                #[trigger] service.operations@[i].security@,
                service.security_schemes@,
            ) is None,
        r matches Err(e) ==> exists|i: int|
            #![trigger service.operations@[i]]
            0 <= i < service.operations@.len() && (forall|j: int|
                0 <= j < i ==> first_fault(#[trigger] service.operations@[j].security@, service.security_schemes@)
                    is None) && (first_fault(service.operations@[i].security@, service.security_schemes@) matches Some(
                reason,
            ) && (e matches Error::UnsupportedOperation { method, path, reason: why } && method@
                == service.operations@[i].method@ && path@ == service.operations@[i].path@ && why@ == reason)),
{
    let mut k: usize = 0;
    while k < service.operations.len()
        invariant
            k <= service.operations@.len(),
            forall|j: int|
                0 <= j < k ==> first_fault(#[trigger] service.operations@[j].security@, service.security_schemes@) is None,
        decreases service.operations@.len() - k,
    {
        match ensure_supported(&service.operations[k], &service.security_schemes) {
            Ok(()) => {},
            Err(e) => {
                assert(0 <= k < service.operations@.len());
                return Err(e);
            },
        }
        k = k + 1;
    }
    Ok(())
}

/// Whether some operation takes path parameters, which makes the client need
/// the percent-encoding set for path segments.
pub fn uses_path_parameters(service: &Service) -> (r: bool)
    ensures
        r == exists|i: int| 0 <= i < service.operations@.len() && (#[trigger] service.operations@[i]).path_params@.len() > 0,
{
    let mut k: usize = 0;
    while k < service.operations.len()
        invariant
            k <= service.operations@.len(),
            forall|j: int| 0 <= j < k ==> (#[trigger] service.operations@[j]).path_params@.len() == 0,
        decreases service.operations@.len() - k,
    {
        if service.operations[k].path_params.len() > 0 {
            return true;
        }
        k = k + 1;
    }
    false
}

/// The type a scheme's credential is stored as in the client, or `None` for
/// a scheme the client cannot carry.
pub open spec fn credential_type(kind: SecuritySchemeKind) -> Option<Seq<char>> {
    match kind {
        SecuritySchemeKind::HttpBasic => Some("Option<(String, String)>"@),
        SecuritySchemeKind::Unsupported(_) => None,
        _ => Some("Option<String>"@),
    }
}

/// The credential field one scheme adds to the client, with its doc.
pub open spec fn credential_field_text(s: SecurityScheme) -> Seq<char> {
    match credential_type(s.kind) {
        None => Seq::empty(),
        Some(t) => doc_text(s.doc, "    "@) + "    "@ + s.field@ + ": "@ + t + ",\n"@,
    }
}

/// The credential fields, scheme by scheme.
pub open spec fn credential_fields_text(ss: Seq<SecurityScheme>) -> Seq<char>
    decreases ss.len(),
{
    if ss.len() == 0 {
        Seq::empty()
    } else {
        credential_fields_text(ss.drop_last()) + credential_field_text(ss.last())
    }
}

/// The `Client` struct: the base URL, the blocking `reqwest` client, and one
/// optional credential field per scheme the client can carry.
pub open spec fn client_struct_text(ss: Seq<SecurityScheme>) -> Seq<char> {
    "/// A blocking HTTP client for the API.\n///\n/// `base_url` is used as a prefix for every request path and must not\n/// carry a trailing slash (for example `https://api.example.com`).\n#[derive(Debug, Clone)]\npub struct Client {\n    base_url: String,\n    http: reqwest::blocking::Client,\n"@
        + credential_fields_text(ss) + "}\n"@
}

/// The builder-style `with_<field>` setter of one scheme: a username and a
/// password for HTTP basic, one credential for the others, none for a scheme
/// the client cannot carry.
pub open spec fn setter_text(s: SecurityScheme) -> Seq<char> {
    match s.kind {
        SecuritySchemeKind::Unsupported(_) => Seq::empty(),
        SecuritySchemeKind::HttpBasic => "    /// "@ + doc_body(
            "Set the username and password for the `"@ + s.key@ + "` HTTP basic scheme."@,
            "    "@,
        ) + "\n    pub fn with_"@ + s.field@
            + "(mut self, username: impl Into<String>, password: impl Into<String>) -> Self {\n        self."@ + s.field@
            + " = Some((username.into(), password.into()));\n        return self;\n    }\n"@,
        _ => "    /// "@ + doc_body("Set the credential for the `"@ + s.key@ + "` security scheme."@, "    "@)
            + "\n    pub fn with_"@ + s.field@ + "(mut self, credential: impl Into<String>) -> Self {\n        self."@
            + s.field@ + " = Some(credential.into());\n        return self;\n    }\n"@,
    }
}

/// The setters, scheme by scheme.
pub open spec fn setters_text(ss: Seq<SecurityScheme>) -> Seq<char>
    decreases ss.len(),
{
    if ss.len() == 0 {
        Seq::empty()
    } else {
        setters_text(ss.drop_last()) + setter_text(ss.last())
    }
}

/// Appends the credential field of one scheme.
fn push_credential_field(out: &mut String, s: &SecurityScheme)
    ensures
        final(out)@ == old(out)@ + credential_field_text(*s),
{
    let ghost start = out@;
    let ty: &str = match &s.kind {
        SecuritySchemeKind::HttpBasic => "Option<(String, String)>",
        SecuritySchemeKind::Unsupported(_) => {
            return;
        },
        _ => "Option<String>",
    };
    assert(credential_type(s.kind) == Some(ty@));
    push_doc(out, &s.doc, "    ");
    push_str(out, "    ");
    push_str(out, s.field.logical());
    push_str(out, ": ");
    push_str(out, ty);
    push_str(out, ",\n");
    assert(out@ =~= start + credential_field_text(*s));
}

/// The Rust source of the client struct for the given schemes.
pub fn emit_client_struct(schemes: &Vec<SecurityScheme>) -> (code: String)
    ensures
        code@ == client_struct_text(schemes@),
{
    let mut out = String::new();
    push_str(
        &mut out,
        "/// A blocking HTTP client for the API.\n///\n/// `base_url` is used as a prefix for every request path and must not\n/// carry a trailing slash (for example `https://api.example.com`).\n#[derive(Debug, Clone)]\npub struct Client {\n    base_url: String,\n    http: reqwest::blocking::Client,\n",
    );
    let ghost head = out@;
    let mut i: usize = 0;
    while i < schemes.len()
        invariant
            i <= schemes@.len(),
            out@ == head + credential_fields_text(schemes@.take(i as int)),
        decreases schemes@.len() - i,
    {
        push_credential_field(&mut out, &schemes[i]);
        assert(schemes@.take(i + 1).drop_last() =~= schemes@.take(i as int));
        assert(out@ =~= head + credential_fields_text(schemes@.take(i + 1)));
        i = i + 1;
    }
    assert(schemes@.take(schemes@.len() as int) =~= schemes@);
    push_str(&mut out, "}\n");
    assert(out@ =~= client_struct_text(schemes@));
    out
}

/// Appends the setter of one scheme.
fn push_setter(out: &mut String, s: &SecurityScheme)
    ensures
        final(out)@ == old(out)@ + setter_text(*s),
{
    let ghost start = out@;
    match &s.kind {
        SecuritySchemeKind::Unsupported(_) => {},
        SecuritySchemeKind::HttpBasic => {
            let mut sentence = String::new();
            push_str(&mut sentence, "Set the username and password for the `");
            push_str(&mut sentence, s.key.as_str());
            push_str(&mut sentence, "` HTTP basic scheme.");
            push_str(out, "    /// ");
            push_doc_body(out, sentence.as_str(), "    ");
            push_str(out, "\n    pub fn with_");
            push_str(out, s.field.logical());
            push_str(out, "(mut self, username: impl Into<String>, password: impl Into<String>) -> Self {\n        self.");
            push_str(out, s.field.logical());
            push_str(out, " = Some((username.into(), password.into()));\n        return self;\n    }\n");
            assert(sentence@ =~= "Set the username and password for the `"@ + s.key@ + "` HTTP basic scheme."@);
        },
        _ => {
            let mut sentence = String::new();
            push_str(&mut sentence, "Set the credential for the `");
            push_str(&mut sentence, s.key.as_str());
            push_str(&mut sentence, "` security scheme.");
            push_str(out, "    /// ");
            push_doc_body(out, sentence.as_str(), "    ");
            push_str(out, "\n    pub fn with_");
            push_str(out, s.field.logical());
            push_str(out, "(mut self, credential: impl Into<String>) -> Self {\n        self.");
            push_str(out, s.field.logical());
            push_str(out, " = Some(credential.into());\n        return self;\n    }\n");
            assert(sentence@ =~= "Set the credential for the `"@ + s.key@ + "` security scheme."@);
        },
    }
    assert(out@ =~= start + setter_text(*s));
}

/// The Rust source of the credential setters of the client, scheme by scheme,
/// as they stand inside its `impl` block.
pub fn emit_credential_setters(schemes: &Vec<SecurityScheme>) -> (code: String)
    ensures
        code@ == setters_text(schemes@),
{
    let mut out = String::new();
    let mut i: usize = 0;
    while i < schemes.len()
        invariant
            i <= schemes@.len(),
            out@ == setters_text(schemes@.take(i as int)),
        decreases schemes@.len() - i,
    {
        push_setter(&mut out, &schemes[i]);
        assert(schemes@.take(i + 1).drop_last() =~= schemes@.take(i as int));
        assert(out@ =~= setters_text(schemes@.take(i + 1)));
        i = i + 1;
    }
    assert(schemes@.take(schemes@.len() as int) =~= schemes@);
    out
}

/// The `ClientError` type every client method returns, with its
/// `Display`, `Error` and `From<reqwest::Error>` impls.
pub open spec fn client_error_text() -> Seq<char> {
    "/// Errors returned by the generated client.\n#[derive(Debug)]\npub enum ClientError {\n    /// The `reqwest` request failed to send or complete, including any\n    /// body decoding `reqwest` performs internally (such as JSON).\n    Http(reqwest::Error),\n    /// The server returned a status code the operation does not declare.\n    UnexpectedStatus(reqwest::StatusCode),\n    /// The response `Content-Type` matched none of the representations the\n    /// operation declares for its status.\n    UnexpectedContentType(String),\n    /// The response cannot be decoded: a body that failed to\n    /// deserialize (for example malformed form-urlencoded content), or a\n    /// required response header that was missing or unparsable.\n    Decode(String),\n}\n\nimpl std::fmt::Display for ClientError {\n    fn fmt(&self, f: &mut std::fmt::Formatter<'_>) -> std::fmt::Result {\n        match self {\n            ClientError::Http(error) => return write!(f, \"HTTP request failed: {error}\"),\n            ClientError::UnexpectedStatus(status) => {\n                return write!(f, \"unexpected response status: {status}\");\n            }\n            ClientError::UnexpectedContentType(content_type) => {\n                return write!(f, \"unexpected response content type: {content_type}\");\n            }\n            ClientError::Decode(message) => {\n                return write!(f, \"failed to decode response: {message}\");\n            }\n        }\n    }\n}\n\nimpl std::error::Error for ClientError {\n    fn source(&self) -> Option<&(dyn std::error::Error + 'static)> {\n        match self {\n            ClientError::Http(error) => return Some(error),\n            ClientError::UnexpectedStatus(_)\n            | ClientError::UnexpectedContentType(_)\n            | ClientError::Decode(_) => return None,\n        }\n    }\n}\n\nimpl From<reqwest::Error> for ClientError {\n    fn from(error: reqwest::Error) -> Self {\n        return ClientError::Http(error);\n    }\n}\n"@
}

/// The set of characters a path parameter is percent-encoded by: every
/// character outside the RFC 3986 unreserved set, so that a value holding
/// `/`, `?`, `#`, `%` or white space cannot leave its path segment.
pub open spec fn encode_set_text() -> Seq<char> {
    "const PATH_PARAM_ENCODE_SET: &percent_encoding::AsciiSet = &percent_encoding::NON_ALPHANUMERIC\n    .remove(b'-')\n    .remove(b'.')\n    .remove(b'_')\n    .remove(b'~');\n"@
}

/// Whether some operation of the service takes path parameters.
pub open spec fn any_path_parameters(service: Service) -> bool {
    exists|i: int| 0 <= i < service.operations@.len() && (#[trigger] service.operations@[i]).path_params@.len() > 0
}

/// The items that open the client, each followed by an empty line: the error
/// type, the path encoding set when some operation takes path parameters,
/// and the client struct.
pub open spec fn client_preamble_text(service: Service) -> Seq<char> {
    client_error_text() + "\n"@ + (if any_path_parameters(service) {
        encode_set_text() + "\n"@
    } else {
        Seq::empty()
    }) + client_struct_text(service.security_schemes@) + "\n"@
}

/// The Rust source of the items that open the client, once every operation
/// has been checked: the first operation, in service order, that names a
/// scheme the client cannot carry gives the error instead.
#[verifier::spinoff_prover]
pub fn emit_client_preamble(service: &Service) -> (r: Result<String, Error>)
    ensures
        r is Ok <==> forall|i: int|
            0 <= i < service.operations@.len() ==> first_fault(
                #[trigger] service.operations@[i].security@,
                service.security_schemes@,
            ) is None,
        r matches Ok(code) ==> code@ == client_preamble_text(*service),
        r matches Err(e) ==> exists|i: int|
            #![trigger service.operations@[i]]
            0 <= i < service.operations@.len() && (forall|j: int|
                0 <= j < i ==> first_fault(#[trigger] service.operations@[j].security@, service.security_schemes@)
                    is None) && (first_fault(service.operations@[i].security@, service.security_schemes@) matches Some(
                reason,
            ) && (e matches Error::UnsupportedOperation { method, path, reason: why } && method@
                == service.operations@[i].method@ && path@ == service.operations@[i].path@ && why@ == reason)),
{
    match check_client_operations(service) {
        Err(e) => {
            return Err(e);
        },
        Ok(()) => {},
    }
    let mut out = String::new();
    push_str(
        &mut out,
        "/// Errors returned by the generated client.\n#[derive(Debug)]\npub enum ClientError {\n    /// The `reqwest` request failed to send or complete, including any\n    /// body decoding `reqwest` performs internally (such as JSON).\n    Http(reqwest::Error),\n    /// The server returned a status code the operation does not declare.\n    UnexpectedStatus(reqwest::StatusCode),\n    /// The response `Content-Type` matched none of the representations the\n    /// operation declares for its status.\n    UnexpectedContentType(String),\n    /// The response cannot be decoded: a body that failed to\n    /// deserialize (for example malformed form-urlencoded content), or a\n    /// required response header that was missing or unparsable.\n    Decode(String),\n}\n\nimpl std::fmt::Display for ClientError {\n    fn fmt(&self, f: &mut std::fmt::Formatter<'_>) -> std::fmt::Result {\n        match self {\n            ClientError::Http(error) => return write!(f, \"HTTP request failed: {error}\"),\n            ClientError::UnexpectedStatus(status) => {\n                return write!(f, \"unexpected response status: {status}\");\n            }\n            ClientError::UnexpectedContentType(content_type) => {\n                return write!(f, \"unexpected response content type: {content_type}\");\n            }\n            ClientError::Decode(message) => {\n                return write!(f, \"failed to decode response: {message}\");\n            }\n        }\n    }\n}\n\nimpl std::error::Error for ClientError {\n    fn source(&self) -> Option<&(dyn std::error::Error + 'static)> {\n        match self {\n            ClientError::Http(error) => return Some(error),\n            ClientError::UnexpectedStatus(_)\n            | ClientError::UnexpectedContentType(_)\n            | ClientError::Decode(_) => return None,\n        }\n    }\n}\n\nimpl From<reqwest::Error> for ClientError {\n    fn from(error: reqwest::Error) -> Self {\n        return ClientError::Http(error);\n    }\n}\n",
    );
    push_str(&mut out, "\n");
    if uses_path_parameters(service) {
        push_str(
            &mut out,
            "const PATH_PARAM_ENCODE_SET: &percent_encoding::AsciiSet = &percent_encoding::NON_ALPHANUMERIC\n    .remove(b'-')\n    .remove(b'.')\n    .remove(b'_')\n    .remove(b'~');\n",
        );
        push_str(&mut out, "\n");
    }
    let client = emit_client_struct(&service.security_schemes);
    push_str(&mut out, client.as_str());
    push_str(&mut out, "\n");
    assert(out@ =~= client_preamble_text(*service));
    Ok(out)
}

/// The initializers that start every carried credential unset, each led by
/// a comma.
pub open spec fn credential_inits_text(ss: Seq<SecurityScheme>) -> Seq<char>
    decreases ss.len(),
{
    if ss.len() == 0 {
        Seq::empty()
    } else {
        credential_inits_text(ss.drop_last()) + if credential_type(ss.last().kind) is Some {
            ", "@ + ss.last().field@ + ": None"@
        } else {
            Seq::empty()
        }
    }
}

/// The two constructors of the client, as they stand inside its `impl`
/// block: one with a default blocking `reqwest` client, one with the
/// caller's; both start every credential unset.
pub open spec fn constructors_text(ss: Seq<SecurityScheme>) -> Seq<char> {
    let inits = credential_inits_text(ss);
    "    /// Build a client targeting `base_url` with a default blocking\n    /// `reqwest::blocking::Client`.\n    pub fn new(base_url: impl Into<String>) -> Result<Self, ClientError> {\n        let http = reqwest::blocking::Client::builder().build()?;\n        return Ok(Self { base_url: base_url.into(), http"@
        + inits
        + " });\n    }\n    /// Build a client targeting `base_url` with a caller-provided\n    /// `reqwest::blocking::Client` (for example preconfigured with timeouts).\n    pub fn with_client(base_url: impl Into<String>, http: reqwest::blocking::Client) -> Self {\n        return Self { base_url: base_url.into(), http"@
        + inits + " };\n    }\n"@
}

/// The Rust source of the client's two constructors.
pub fn emit_client_constructors(schemes: &Vec<SecurityScheme>) -> (code: String)
    ensures
        code@ == constructors_text(schemes@),
{
    let mut inits = String::new();
    let mut i: usize = 0;
    while i < schemes.len()
        invariant
            i <= schemes@.len(),
            inits@ == credential_inits_text(schemes@.take(i as int)),
        decreases schemes@.len() - i,
    {
        let ghost before = inits@;
        match &schemes[i].kind {
            SecuritySchemeKind::Unsupported(_) => {},
            _ => {
                push_str(&mut inits, ", ");
                push_str(&mut inits, schemes[i].field.logical());
                push_str(&mut inits, ": None");
            },
        }
        assert(schemes@.take(i + 1).drop_last() =~= schemes@.take(i as int));
        assert(inits@ =~= credential_inits_text(schemes@.take(i + 1)));
        i = i + 1;
    }
    assert(schemes@.take(schemes@.len() as int) =~= schemes@);
    let mut out = String::new();
    push_str(
        &mut out,
        "    /// Build a client targeting `base_url` with a default blocking\n    /// `reqwest::blocking::Client`.\n    pub fn new(base_url: impl Into<String>) -> Result<Self, ClientError> {\n        let http = reqwest::blocking::Client::builder().build()?;\n        return Ok(Self { base_url: base_url.into(), http",
    );
    push_str(&mut out, inits.as_str());
    push_str(
        &mut out,
        " });\n    }\n    /// Build a client targeting `base_url` with a caller-provided\n    /// `reqwest::blocking::Client` (for example preconfigured with timeouts).\n    pub fn with_client(base_url: impl Into<String>, http: reqwest::blocking::Client) -> Self {\n        return Self { base_url: base_url.into(), http",
    );
    push_str(&mut out, inits.as_str());
    push_str(&mut out, " };\n    }\n");
    assert(out@ =~= constructors_text(schemes@));
    out
}

} // verus!
