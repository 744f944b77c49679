//! The Rust source of the types one operation contributes beside its models:
//! the plain input structs for its header and cookie parameters, and its
//! response enum.

use vstd::prelude::*;

use crate::emit::foreign::ForeignResolver;
use crate::emit::foreign::resolve_all;
use crate::emit::models::ModelDerives;
use crate::emit::models::SerdeDerives;
use crate::emit::models::derive_text;
use crate::emit::models::push_derive;
use crate::emit::render::doc_text;
use crate::emit::render::push_doc;
use crate::emit::render::push_type;
use crate::emit::render::type_text;
use crate::ir::BodyVariant;
use crate::ir::CookieParam;
use crate::ir::Cookies;
use crate::ir::ForeignDerives;
use crate::ir::HeaderParam;
use crate::ir::Headers;
use crate::ir::Operation;
use crate::ir::ResponseBody;
use crate::ir::ResponseCase;
use crate::ir::ResponseHeader;
use crate::ir::ResponseStatus;
use crate::ir::RustType;
use crate::ir::meet;
use crate::text::push_str;

verus! {

/// The derive line of a type that carries no serde trait: the traits both
/// requested and allowed.
pub open spec fn plain_derive_text(requested: ForeignDerives, allowed: ForeignDerives) -> Seq<char> {
    derive_text(
        ModelDerives { serde: SerdeDerives { serialize: false, deserialize: false }, foreign: meet(requested, allowed) },
    )
}

/// Appends the derive line of a type that carries no serde trait.
fn push_plain_derive(out: &mut String, requested: ForeignDerives, allowed: ForeignDerives)
    ensures
        final(out)@ == old(out)@ + plain_derive_text(requested, allowed),
{
    push_derive(
        out,
        ModelDerives { serde: SerdeDerives { serialize: false, deserialize: false }, foreign: requested.intersect(allowed) },
    );
}

/// A parameter's type as its field holds it: bare when required, in an
/// `Option` otherwise.
pub open spec fn field_type_text(ty: RustType, required: bool) -> Seq<char> {
    if required {
        type_text(ty)
    } else {
        "Option<"@ + type_text(ty) + ">"@
    }
}

/// Appends a parameter's field type.
fn push_field_type(out: &mut String, ty: &RustType, required: bool)
    ensures
        final(out)@ == old(out)@ + field_type_text(*ty, required),
{
    let ghost start = out@;
    if required {
        push_type(out, ty);
    } else {
        push_str(out, "Option<");
        push_type(out, ty);
        push_str(out, ">");
    }
    assert(out@ =~= start + field_type_text(*ty, required));
}

/// One field of a header struct.
pub open spec fn header_field_text(p: HeaderParam) -> Seq<char> {
    doc_text(p.doc, "    "@) + "    pub "@ + p.name@ + ": "@ + field_type_text(p.ty, p.required) + ",\n"@
}

/// The fields of a header struct, in declaration order.
pub open spec fn header_fields_text(ps: Seq<HeaderParam>) -> Seq<char>
    decreases ps.len(),
{
    if ps.len() == 0 {
        Seq::empty()
    } else {
        header_fields_text(ps.drop_last()) + header_field_text(ps.last())
    }
}

/// The bare types of the header parameters.
pub open spec fn header_types(ps: Seq<HeaderParam>) -> Seq<RustType> {
    ps.map_values(|p: HeaderParam| p.ty)
}

/// The header input struct of an operation: `Debug` and `Clone` where every
/// foreign type it holds allows them, and one field per header.
pub open spec fn headers_struct_text(h: Headers, table: Seq<crate::emit::foreign::ForeignEntry>) -> Seq<char> {
    plain_derive_text(
        ForeignDerives { debug: true, clone: true, partial_eq: false },
        resolve_all(table, header_types(h.params@)),
    ) + "pub struct "@ + h.name@ + " {\n"@ + header_fields_text(h.params@) + "}\n"@
}

/// The Rust source of an operation's header input struct.
pub fn emit_headers_struct(headers: &Headers, foreign: &ForeignResolver) -> (code: String)
    ensures
        code@ == headers_struct_text(*headers, foreign.table()),
{
    let mut types: Vec<RustType> = Vec::new();
    let mut i: usize = 0;
    while i < headers.params.len()
        invariant
            i <= headers.params@.len(),
            types@ == header_types(headers.params@.take(i as int)),
        decreases headers.params@.len() - i,
    {
        types.push(headers.params[i].ty.clone());
        assert(types@ =~= header_types(headers.params@.take(i + 1)));
        i = i + 1;
    }
    assert(headers.params@.take(headers.params@.len() as int) =~= headers.params@);
    let allowed = foreign.of_types(&types);
    let mut out = String::new();
    push_plain_derive(&mut out, ForeignDerives { debug: true, clone: true, partial_eq: false }, allowed);
    push_str(&mut out, "pub struct ");
    push_str(&mut out, headers.name.logical());
    push_str(&mut out, " {\n");
    let ghost head = out@;
    let mut j: usize = 0;
    while j < headers.params.len()
        invariant
            j <= headers.params@.len(),
            out@ == head + header_fields_text(headers.params@.take(j as int)),
        decreases headers.params@.len() - j,
    {
        let p = &headers.params[j];
        push_doc(&mut out, &p.doc, "    ");
        push_str(&mut out, "    pub ");
        push_str(&mut out, p.name.logical());
        push_str(&mut out, ": ");
        push_field_type(&mut out, &p.ty, p.required);
        push_str(&mut out, ",\n");
        assert(headers.params@.take(j + 1).drop_last() =~= headers.params@.take(j as int));
        assert(out@ =~= head + header_fields_text(headers.params@.take(j + 1)));
        j = j + 1;
    }
    push_str(&mut out, "}\n");
    assert(out@ =~= headers_struct_text(*headers, foreign.table()));
    out
}

/// One field of a cookie struct.
pub open spec fn cookie_field_text(p: CookieParam) -> Seq<char> {
    doc_text(p.doc, "    "@) + "    pub "@ + p.name@ + ": "@ + field_type_text(p.ty, p.required) + ",\n"@
}

/// The fields of a cookie struct, in declaration order.
pub open spec fn cookie_fields_text(ps: Seq<CookieParam>) -> Seq<char>
    decreases ps.len(),
{
    if ps.len() == 0 {
        Seq::empty()
    } else {
        cookie_fields_text(ps.drop_last()) + cookie_field_text(ps.last())
    }
}

/// The bare types of the cookie parameters.
pub open spec fn cookie_types(ps: Seq<CookieParam>) -> Seq<RustType> {
    ps.map_values(|p: CookieParam| p.ty)
}

/// The cookie input struct of an operation, shaped as the header struct is.
pub open spec fn cookies_struct_text(c: Cookies, table: Seq<crate::emit::foreign::ForeignEntry>) -> Seq<char> {
    plain_derive_text(
        ForeignDerives { debug: true, clone: true, partial_eq: false },
        resolve_all(table, cookie_types(c.params@)),
    ) + "pub struct "@ + c.name@ + " {\n"@ + cookie_fields_text(c.params@) + "}\n"@
}

/// The Rust source of an operation's cookie input struct.
pub fn emit_cookies_struct(cookies: &Cookies, foreign: &ForeignResolver) -> (code: String)
    ensures
        code@ == cookies_struct_text(*cookies, foreign.table()),
{
    let mut types: Vec<RustType> = Vec::new();
    let mut i: usize = 0;
    while i < cookies.params.len()
        invariant
            i <= cookies.params@.len(),
            types@ == cookie_types(cookies.params@.take(i as int)),
        decreases cookies.params@.len() - i,
    {
        types.push(cookies.params[i].ty.clone());
        assert(types@ =~= cookie_types(cookies.params@.take(i + 1)));
        i = i + 1;
    }
    assert(cookies.params@.take(cookies.params@.len() as int) =~= cookies.params@);
    let allowed = foreign.of_types(&types);
    let mut out = String::new();
    push_plain_derive(&mut out, ForeignDerives { debug: true, clone: true, partial_eq: false }, allowed);
    push_str(&mut out, "pub struct ");
    push_str(&mut out, cookies.name.logical());
    push_str(&mut out, " {\n");
    let ghost head = out@;
    let mut j: usize = 0;
    while j < cookies.params.len()
        invariant
            j <= cookies.params@.len(),
            out@ == head + cookie_fields_text(cookies.params@.take(j as int)),
        decreases cookies.params@.len() - j,
    {
        let p = &cookies.params[j];
        push_doc(&mut out, &p.doc, "    ");
        push_str(&mut out, "    pub ");
        push_str(&mut out, p.name.logical());
        push_str(&mut out, ": ");
        push_field_type(&mut out, &p.ty, p.required);
        push_str(&mut out, ",\n");
        assert(cookies.params@.take(j + 1).drop_last() =~= cookies.params@.take(j as int));
        assert(out@ =~= head + cookie_fields_text(cookies.params@.take(j + 1)));
        j = j + 1;
    }
    push_str(&mut out, "}\n");
    assert(out@ =~= cookies_struct_text(*cookies, foreign.table()));
    out
}

/// The type a response variant carries for its body: the decoded type of a
/// single body, the negotiated enum of a multi-content one.
pub open spec fn response_body_type(body: Option<ResponseBody>) -> Option<Seq<char>> {
    match body {
        Some(ResponseBody::Single(b)) => Some(type_text(b.ty)),
        Some(ResponseBody::Negotiated(n)) => Some(n.name@),
        None => None,
    }
}

/// One header field of a struct-shaped response variant.
pub open spec fn response_header_text(h: ResponseHeader) -> Seq<char> {
    doc_text(h.doc, "        "@) + "        "@ + h.name@ + ": "@ + field_type_text(h.ty, h.required) + ",\n"@
}

/// The header fields of a response variant, in declaration order.
pub open spec fn response_headers_text(hs: Seq<ResponseHeader>) -> Seq<char>
    decreases hs.len(),
{
    if hs.len() == 0 {
        Seq::empty()
    } else {
        response_headers_text(hs.drop_last()) + response_header_text(hs.last())
    }
}

/// The definition of one response variant: a unit or tuple variant carrying
/// the status (for a `default` or range response) and the body, or a struct
/// variant when the response also declares headers.
pub open spec fn variant_def_text(c: ResponseCase) -> Seq<char> {
    let dynamic = !(c.status is Fixed);
    let name = c.variant@;
    if c.headers@.len() == 0 {
        match response_body_type(c.body) {
            None => if dynamic {
                name + "(http::StatusCode)"@
            } else {
                name
            },
            Some(t) => if dynamic {
                name + "(http::StatusCode, "@ + t + ")"@
            } else {
                name + "("@ + t + ")"@
            },
        }
    } else {
        name + " {\n"@ + (if dynamic {
            "        status: http::StatusCode,\n"@
        } else {
            Seq::empty()
        }) + (match response_body_type(c.body) {
            Some(t) => "        body: "@ + t + ",\n"@,
            None => Seq::empty(),
        }) + response_headers_text(c.headers@) + "    }"@
    }
}

/// One variant of a response enum, with its doc.
pub open spec fn case_text(c: ResponseCase) -> Seq<char> {
    doc_text(c.doc, "    "@) + "    "@ + variant_def_text(c) + ",\n"@
}

/// The variants of a response enum, in declaration order.
pub open spec fn cases_text(cs: Seq<ResponseCase>) -> Seq<char>
    decreases cs.len(),
{
    if cs.len() == 0 {
        Seq::empty()
    } else {
        cases_text(cs.drop_last()) + case_text(cs.last())
    }
}

/// The types one response carries: its body's, or each representation's
/// of a negotiated body, then each header's.
pub open spec fn case_types(c: ResponseCase) -> Seq<RustType> {
    (match c.body {
        Some(ResponseBody::Single(b)) => seq![b.ty],
        Some(ResponseBody::Negotiated(n)) => n.variants@.map_values(|v: BodyVariant| v.body.ty),
        None => Seq::empty(),
    }) + c.headers@.map_values(|h: ResponseHeader| h.ty)
}

/// Every type a response enum's variants carry, case by case.
pub open spec fn response_types(cs: Seq<ResponseCase>) -> Seq<RustType>
    decreases cs.len(),
{
    if cs.len() == 0 {
        Seq::empty()
    } else {
        response_types(cs.drop_last()) + case_types(cs.last())
    }
}

/// The response enum of an operation: its doc, the traits of `Debug`,
/// `Clone` and `PartialEq` that every type it carries allows, and one
/// variant per declared response.
pub open spec fn response_enum_text(op: Operation, table: Seq<crate::emit::foreign::ForeignEntry>) -> Seq<char> {
    doc_text(op.doc, Seq::empty()) + plain_derive_text(
        ForeignDerives { debug: true, clone: true, partial_eq: true },
        resolve_all(table, response_types(op.responses@)),
    ) + "pub enum "@ + op.response_enum@ + " {\n"@ + cases_text(op.responses@) + "}\n"@
}

/// Appends the types one response carries.
fn push_case_types(types: &mut Vec<RustType>, c: &ResponseCase)
    ensures
        final(types)@ == old(types)@ + case_types(*c),
{
    let ghost start = types@;
    match &c.body {
        Some(ResponseBody::Single(b)) => types.push(b.ty.clone()),
        Some(ResponseBody::Negotiated(n)) => {
            let mut k: usize = 0;
            while k < n.variants.len()
                invariant
                    k <= n.variants@.len(),
                    types@ == start + n.variants@.take(k as int).map_values(|v: BodyVariant| v.body.ty),
                decreases n.variants@.len() - k,
            {
                types.push(n.variants[k].body.ty.clone());
                assert(types@ =~= start + n.variants@.take(k + 1).map_values(|v: BodyVariant| v.body.ty));
                k = k + 1;
            }
            assert(n.variants@.take(n.variants@.len() as int) =~= n.variants@);
        },
        None => {},
    }
    let ghost mid = types@;
    let mut k: usize = 0;
    while k < c.headers.len()
        invariant
            k <= c.headers@.len(),
            types@ == mid + c.headers@.take(k as int).map_values(|h: ResponseHeader| h.ty),
        decreases c.headers@.len() - k,
    {
        types.push(c.headers[k].ty.clone());
        assert(types@ =~= mid + c.headers@.take(k + 1).map_values(|h: ResponseHeader| h.ty));
        k = k + 1;
    }
    assert(c.headers@.take(c.headers@.len() as int) =~= c.headers@);
    assert(types@ =~= start + case_types(*c));
}

/// Appends a response body's type.
fn push_body_type(out: &mut String, body: &Option<ResponseBody>)
    requires
        body is Some,
    ensures
        response_body_type(*body) matches Some(t) && final(out)@ == old(out)@ + t,
{
    match body {
        Some(ResponseBody::Single(b)) => push_type(out, &b.ty),
        Some(ResponseBody::Negotiated(n)) => push_str(out, n.name.logical()),
        None => {},
    }
}

/// Appends the header fields of a struct-shaped response variant.
fn push_response_headers(out: &mut String, hs: &Vec<ResponseHeader>)
    ensures
        final(out)@ == old(out)@ + response_headers_text(hs@),
{
    let ghost before = out@;
    let mut k: usize = 0;
    while k < hs.len()
        invariant
            k <= hs@.len(),
            out@ == before + response_headers_text(hs@.take(k as int)),
        decreases hs@.len() - k,
    {
        let h = &hs[k];
        push_doc(out, &h.doc, "        ");
        push_str(out, "        ");
        push_str(out, h.name.logical());
        push_str(out, ": ");
        push_field_type(out, &h.ty, h.required);
        push_str(out, ",\n");
        assert(hs@.take(k + 1).drop_last() =~= hs@.take(k as int));
        assert(out@ =~= before + response_headers_text(hs@.take(k + 1)));
        k = k + 1;
    }
    assert(hs@.take(hs@.len() as int) =~= hs@);
}

/// Appends one variant of a response enum.
#[verifier::spinoff_prover]
fn push_case(out: &mut String, c: &ResponseCase)
    ensures
        final(out)@ == old(out)@ + case_text(*c),
{
    let ghost start = out@;
    push_doc(out, &c.doc, "    ");
    push_str(out, "    ");
    let ghost at_def = out@;
    let dynamic = match c.status {
        ResponseStatus::Fixed(_) => false,
        _ => true,
    };
    push_str(out, c.variant.logical());
    if c.headers.len() == 0 {
        if c.body.is_none() {
            if dynamic {
                push_str(out, "(http::StatusCode)");
            }
        } else {
            if dynamic {
                push_str(out, "(http::StatusCode, ");
            } else {
                push_str(out, "(");
            }
            push_body_type(out, &c.body);
            push_str(out, ")");
        }
    } else {
        push_str(out, " {\n");
        if dynamic {
            push_str(out, "        status: http::StatusCode,\n");
        }
        if c.body.is_some() {
            push_str(out, "        body: ");
            push_body_type(out, &c.body);
            push_str(out, ",\n");
        }
        push_response_headers(out, &c.headers);
        push_str(out, "    }");
    }
    assert(out@ =~= at_def + variant_def_text(*c));
    push_str(out, ",\n");
    assert(out@ =~= start + case_text(*c));
}

/// The Rust source of an operation's response enum.
#[verifier::spinoff_prover]
pub fn emit_response_enum(operation: &Operation, foreign: &ForeignResolver) -> (code: String)
    ensures
        code@ == response_enum_text(*operation, foreign.table()),
{
    let mut types: Vec<RustType> = Vec::new();
    let mut i: usize = 0;
    while i < operation.responses.len()
        invariant
            i <= operation.responses@.len(),
            types@ == response_types(operation.responses@.take(i as int)),
        decreases operation.responses@.len() - i,
    {
        push_case_types(&mut types, &operation.responses[i]);
        assert(operation.responses@.take(i + 1).drop_last() =~= operation.responses@.take(i as int));
        i = i + 1;
    }
    assert(operation.responses@.take(operation.responses@.len() as int) =~= operation.responses@);
    let allowed = foreign.of_types(&types);
    let mut out = String::new();
    proof {
        reveal_strlit("");
        assert(""@ =~= Seq::<char>::empty());
    }
    push_doc(&mut out, &operation.doc, "");
    push_plain_derive(&mut out, ForeignDerives { debug: true, clone: true, partial_eq: true }, allowed);
    push_str(&mut out, "pub enum ");
    push_str(&mut out, operation.response_enum.logical());
    push_str(&mut out, " {\n");
    let ghost head = out@;
    let mut j: usize = 0;
    while j < operation.responses.len()
        invariant
            j <= operation.responses@.len(),
            out@ == head + cases_text(operation.responses@.take(j as int)),
        decreases operation.responses@.len() - j,
    {
        push_case(&mut out, &operation.responses[j]);
        assert(operation.responses@.take(j + 1).drop_last() =~= operation.responses@.take(j as int));
        assert(out@ =~= head + cases_text(operation.responses@.take(j + 1)));
        j = j + 1;
    }
    push_str(&mut out, "}\n");
    assert(out@ =~= response_enum_text(*operation, foreign.table()));
    out
}

} // verus!
