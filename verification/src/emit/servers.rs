//! The Rust source of the `servers:` block: a `pub const` for each server
//! without variables, a builder function for each server with
//! `{placeholder}`s, and an enum for each enum-constrained variable.
//!
//! Every text the document controls (descriptions, URLs, enum values) lands
//! inside a string literal or a doc comment, never as source.

use vstd::prelude::*;

use crate::emit::render::doc_text;
use crate::emit::render::push_doc;
use crate::emit::render::push_quoted;
use crate::emit::render::quoted;
use crate::ir::ServerUrl;
use crate::ir::ServerUrlBuilder;
use crate::ir::ServerUrlConst;
use crate::ir::ServerUrlEnum;
use crate::ir::ServerUrlEnumVariant;
use crate::ir::ServerUrlParam;
use crate::ir::ServerUrlParamType;
use crate::ir::ServerUrls;
use crate::text::push_str;

verus! {

/// One variant line of a server-variable enum.
pub open spec fn variant_line(v: ServerUrlEnumVariant) -> Seq<char> {
    "    "@ + v.name@ + ",\n"@
}

/// The variant lines of a server-variable enum, in order.
pub open spec fn variant_lines(vs: Seq<ServerUrlEnumVariant>) -> Seq<char>
    decreases vs.len(),
{
    if vs.len() == 0 {
        Seq::empty()
    } else {
        variant_lines(vs.drop_last()) + variant_line(vs.last())
    }
}

/// The `as_str` arm of one variant: the wire value it stands for.
pub open spec fn value_arm(name: Seq<char>, v: ServerUrlEnumVariant) -> Seq<char> {
    "            "@ + name + "::"@ + v.name@ + " => "@ + quoted(v.value@) + ",\n"@
}

/// The `as_str` arms, in order.
pub open spec fn value_arms(name: Seq<char>, vs: Seq<ServerUrlEnumVariant>) -> Seq<char>
    decreases vs.len(),
{
    if vs.len() == 0 {
        Seq::empty()
    } else {
        value_arms(name, vs.drop_last()) + value_arm(name, vs.last())
    }
}

/// The items of a server-variable enum: the type, its `as_str` accessor, and
/// its `Default` when the variable declares a default.
pub open spec fn server_enum_text(e: ServerUrlEnum) -> Seq<char> {
    let name = e.name@;
    doc_text(e.doc, Seq::empty()) + "#[derive(Debug, Clone, Copy, PartialEq, Eq)]\npub enum "@ + name + " {\n"@
        + variant_lines(e.variants@) + "}\n\nimpl "@ + name
        + " {\n    /// The wire value substituted into the server URL.\n    pub fn as_str(&self) -> &'static str {\n        return match self {\n"@
        + value_arms(name, e.variants@) + "        };\n    }\n}\n"@ + match e.default {
        Some(d) => "\nimpl Default for "@ + name + " {\n    fn default() -> Self {\n        return "@ + name + "::"@ + d@
            + ";\n    }\n}\n"@,
        None => Seq::empty(),
    }
}

/// A server without variables, as a string constant.
pub open spec fn const_text(k: ServerUrlConst) -> Seq<char> {
    doc_text(k.doc, Seq::empty()) + "pub const "@ + k.name@ + ": &str = "@ + quoted(k.url@) + ";\n"@
}

/// One parameter of a builder function.
pub open spec fn param_text(p: ServerUrlParam) -> Seq<char> {
    p.ident@ + ": "@ + match p.ty {
        ServerUrlParamType::Str => "&str"@,
        ServerUrlParamType::Enum(n) => n@,
    }
}

/// The parameter list of a builder function, comma-separated.
pub open spec fn params_text(ps: Seq<ServerUrlParam>) -> Seq<char>
    decreases ps.len(),
{
    if ps.len() == 0 {
        Seq::empty()
    } else if ps.len() == 1 {
        param_text(ps[0])
    } else {
        params_text(ps.drop_last()) + ", "@ + param_text(ps.last())
    }
}

/// The statement that substitutes one parameter for its placeholder.
pub open spec fn replacement_text(p: ServerUrlParam) -> Seq<char> {
    "    url = url.replace("@ + quoted(seq!['{'] + p.placeholder@ + seq!['}']) + ", "@ + p.ident@ + match p.ty {
        ServerUrlParamType::Str => Seq::empty(),
        ServerUrlParamType::Enum(_) => ".as_str()"@,
    } + ");\n"@
}

/// The substitutions of a builder function, in parameter order.
pub open spec fn replacements_text(ps: Seq<ServerUrlParam>) -> Seq<char>
    decreases ps.len(),
{
    if ps.len() == 0 {
        Seq::empty()
    } else {
        replacements_text(ps.drop_last()) + replacement_text(ps.last())
    }
}

/// A server with `{placeholder}`s, as a builder that substitutes each
/// variable and rejects a URL in which a placeholder remains.
pub open spec fn builder_text(b: ServerUrlBuilder) -> Seq<char> {
    doc_text(b.doc, Seq::empty()) + "pub fn "@ + b.name@ + "("@ + params_text(b.params@)
        + ") -> Result<String, String> {\n    let mut url = String::from("@ + quoted(b.url_template@) + ");\n"@
        + replacements_text(b.params@)
        + "    if url.contains('{') || url.contains('}') {\n        return Err(format!(\"server URL still contains an unresolved placeholder: {url}\"));\n    }\n    return Ok(url);\n}\n"@
}

/// One server, as a constant or a builder.
pub open spec fn server_text(s: ServerUrl) -> Seq<char> {
    match s {
        ServerUrl::Const(k) => const_text(k),
        ServerUrl::Builder(b) => builder_text(b),
    }
}

/// The enums, each followed by an empty line, in order.
pub open spec fn enums_text(es: Seq<ServerUrlEnum>) -> Seq<char>
    decreases es.len(),
{
    if es.len() == 0 {
        Seq::empty()
    } else {
        enums_text(es.drop_last()) + server_enum_text(es.last()) + "\n"@
    }
}

/// The servers, each followed by an empty line, in order.
pub open spec fn servers_text(ss: Seq<ServerUrl>) -> Seq<char>
    decreases ss.len(),
{
    if ss.len() == 0 {
        Seq::empty()
    } else {
        servers_text(ss.drop_last()) + server_text(ss.last()) + "\n"@
    }
}

/// The source of a `servers:` block: the enum types first, so that the
/// builders naming them follow them, then one item per server in document
/// order.
pub open spec fn server_urls_text(u: ServerUrls) -> Seq<char> {
    enums_text(u.enums@) + servers_text(u.servers@)
}

/// Appends the variant lines of a server-variable enum.
fn push_variant_lines(out: &mut String, vs: &Vec<ServerUrlEnumVariant>)
    ensures
        final(out)@ == old(out)@ + variant_lines(vs@),
{
    let ghost mid = out@;
    let mut i: usize = 0;
    while i < vs.len()
        invariant
            i <= vs@.len(),
            out@ == mid + variant_lines(vs@.take(i as int)),
        decreases vs@.len() - i,
    {
        push_str(out, "    ");
        push_str(out, vs[i].name.logical());
        push_str(out, ",\n");
        assert(vs@.take(i + 1).drop_last() =~= vs@.take(i as int));
        assert(out@ =~= mid + variant_lines(vs@.take(i + 1)));
        i = i + 1;
    }
    assert(vs@.take(vs@.len() as int) =~= vs@);
}

/// Appends the `as_str` arms of a server-variable enum.
fn push_value_arms(out: &mut String, name: &str, vs: &Vec<ServerUrlEnumVariant>)
    ensures
        final(out)@ == old(out)@ + value_arms(name@, vs@),
{
    let ghost arms = out@;
    let mut j: usize = 0;
    while j < vs.len()
        invariant
            j <= vs@.len(),
            out@ == arms + value_arms(name@, vs@.take(j as int)),
        decreases vs@.len() - j,
    {
        let ghost before = out@;
        push_str(out, "            ");
        push_str(out, name);
        push_str(out, "::");
        push_str(out, vs[j].name.logical());
        push_str(out, " => ");
        push_quoted(out, vs[j].value.as_str());
        push_str(out, ",\n");
        assert(out@ =~= before + value_arm(name@, vs@[j as int]));
        assert(vs@.take(j + 1).drop_last() =~= vs@.take(j as int));
        assert(out@ =~= arms + value_arms(name@, vs@.take(j + 1)));
        j = j + 1;
    }
    assert(vs@.take(vs@.len() as int) =~= vs@);
}

/// Appends the items of one server-variable enum.
fn push_server_enum(out: &mut String, e: &ServerUrlEnum)
    ensures
        final(out)@ == old(out)@ + server_enum_text(*e),
{
    let ghost start = out@;
    let name = e.name.logical();
    proof {
        reveal_strlit("");
        assert(""@ =~= Seq::<char>::empty());
    }
    push_doc(out, &e.doc, "");
    push_str(out, "#[derive(Debug, Clone, Copy, PartialEq, Eq)]\npub enum ");
    push_str(out, name);
    push_str(out, " {\n");
    push_variant_lines(out, &e.variants);
    push_str(out, "}\n\nimpl ");
    push_str(out, name);
    push_str(
        out,
        " {\n    /// The wire value substituted into the server URL.\n    pub fn as_str(&self) -> &'static str {\n        return match self {\n",
    );
    push_value_arms(out, name, &e.variants);
    push_str(out, "        };\n    }\n}\n");
    match &e.default {
        Some(d) => {
            push_str(out, "\nimpl Default for ");
            push_str(out, name);
            push_str(out, " {\n    fn default() -> Self {\n        return ");
            push_str(out, name);
            push_str(out, "::");
            push_str(out, d.logical());
            push_str(out, ";\n    }\n}\n");
        },
        None => {},
    }
    assert(out@ =~= start + server_enum_text(*e));
}

/// Appends a server without variables.
fn push_const(out: &mut String, k: &ServerUrlConst)
    ensures
        final(out)@ == old(out)@ + const_text(*k),
{
    let ghost start = out@;
    proof {
        reveal_strlit("");
        assert(""@ =~= Seq::<char>::empty());
    }
    push_doc(out, &k.doc, "");
    push_str(out, "pub const ");
    push_str(out, k.name.logical());
    push_str(out, ": &str = ");
    push_quoted(out, k.url.as_str());
    push_str(out, ";\n");
    assert(out@ =~= start + const_text(*k));
}

/// Appends one parameter of a builder.
fn push_param(out: &mut String, p: &ServerUrlParam)
    ensures
        final(out)@ == old(out)@ + param_text(*p),
{
    let ghost start = out@;
    push_str(out, p.ident.logical());
    push_str(out, ": ");
    match &p.ty {
        ServerUrlParamType::Str => push_str(out, "&str"),
        ServerUrlParamType::Enum(n) => push_str(out, n.logical()),
    }
    assert(out@ =~= start + param_text(*p));
}

/// Appends the substitution of one parameter.
fn push_replacement(out: &mut String, p: &ServerUrlParam)
    ensures
        final(out)@ == old(out)@ + replacement_text(*p),
{
    let ghost start = out@;
    push_str(out, "    url = url.replace(");
    let mut token = String::new();
    crate::text::push_char(&mut token, '{');
    push_str(&mut token, p.placeholder.as_str());
    crate::text::push_char(&mut token, '}');
    assert(token@ =~= seq!['{'] + p.placeholder@ + seq!['}']);
    push_quoted(out, token.as_str());
    push_str(out, ", ");
    push_str(out, p.ident.logical());
    match &p.ty {
        ServerUrlParamType::Str => {},
        ServerUrlParamType::Enum(_) => push_str(out, ".as_str()"),
    }
    push_str(out, ");\n");
    assert(out@ =~= start + replacement_text(*p));
}

/// Appends the parameter list of a builder.
fn push_params(out: &mut String, ps: &Vec<ServerUrlParam>)
    ensures
        final(out)@ == old(out)@ + params_text(ps@),
{
    let ghost head = out@;
    let mut i: usize = 0;
    while i < ps.len()
        invariant
            i <= ps@.len(),
            out@ == head + params_text(ps@.take(i as int)),
        decreases ps@.len() - i,
    {
        if i > 0 {
            push_str(out, ", ");
        }
        push_param(out, &ps[i]);
        let ghost now = ps@.take(i + 1);
        assert(now.drop_last() =~= ps@.take(i as int));
        assert(out@ =~= head + params_text(now));
        i = i + 1;
    }
    assert(ps@.take(ps@.len() as int) =~= ps@);
}

/// Appends the substitutions of a builder.
fn push_replacements(out: &mut String, ps: &Vec<ServerUrlParam>)
    ensures
        final(out)@ == old(out)@ + replacements_text(ps@),
{
    let ghost body = out@;
    let mut j: usize = 0;
    while j < ps.len()
        invariant
            j <= ps@.len(),
            out@ == body + replacements_text(ps@.take(j as int)),
        decreases ps@.len() - j,
    {
        push_replacement(out, &ps[j]);
        assert(ps@.take(j + 1).drop_last() =~= ps@.take(j as int));
        assert(out@ =~= body + replacements_text(ps@.take(j + 1)));
        j = j + 1;
    }
    assert(ps@.take(ps@.len() as int) =~= ps@);
}

/// Appends a server with placeholders, as its builder.
fn push_builder(out: &mut String, b: &ServerUrlBuilder)
    ensures
        final(out)@ == old(out)@ + builder_text(*b),
{
    let ghost start = out@;
    proof {
        reveal_strlit("");
        assert(""@ =~= Seq::<char>::empty());
    }
    push_doc(out, &b.doc, "");
    push_str(out, "pub fn ");
    push_str(out, b.name.logical());
    push_str(out, "(");
    push_params(out, &b.params);
    push_str(out, ") -> Result<String, String> {\n    let mut url = String::from(");
    push_quoted(out, b.url_template.as_str());
    push_str(out, ");\n");
    push_replacements(out, &b.params);
    push_str(
        out,
        "    if url.contains('{') || url.contains('}') {\n        return Err(format!(\"server URL still contains an unresolved placeholder: {url}\"));\n    }\n    return Ok(url);\n}\n",
    );
    assert(out@ =~= start + builder_text(*b));
}

/// The Rust source of a `servers:` block, enum types first, each item
/// followed by an empty line.
pub fn emit_server_urls(urls: &ServerUrls) -> (code: String)
    ensures
        code@ == server_urls_text(*urls),
{
    let mut out = String::new();
    let mut i: usize = 0;
    while i < urls.enums.len()
        invariant
            i <= urls.enums@.len(),
            out@ == enums_text(urls.enums@.take(i as int)),
        decreases urls.enums@.len() - i,
    {
        push_server_enum(&mut out, &urls.enums[i]);
        push_str(&mut out, "\n");
        assert(urls.enums@.take(i + 1).drop_last() =~= urls.enums@.take(i as int));
        assert(out@ =~= enums_text(urls.enums@.take(i + 1)));
        i = i + 1;
    }
    assert(urls.enums@.take(urls.enums@.len() as int) =~= urls.enums@);
    let ghost mid = out@;
    let mut j: usize = 0;
    while j < urls.servers.len()
        invariant
            j <= urls.servers@.len(),
            out@ == mid + servers_text(urls.servers@.take(j as int)),
        decreases urls.servers@.len() - j,
    {
        let ghost before = out@;
        match &urls.servers[j] {
            ServerUrl::Const(k) => push_const(&mut out, k),
            ServerUrl::Builder(b) => push_builder(&mut out, b),
        }
        assert(out@ =~= before + server_text(urls.servers@[j as int]));
        push_str(&mut out, "\n");
        assert(urls.servers@.take(j + 1).drop_last() =~= urls.servers@.take(j as int));
        assert(out@ =~= mid + servers_text(urls.servers@.take(j + 1)));
        j = j + 1;
    }
    assert(urls.servers@.take(urls.servers@.len() as int) =~= urls.servers@);
    assert(out@ =~= server_urls_text(*urls));
    out
}

} // verus!
