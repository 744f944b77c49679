//! The pieces every generated item shares, as Rust source text: type
//! expressions, string literals, numbers, doc comments and the
//! `#[deprecated]` attribute.

use vstd::prelude::*;

use crate::ir::Deprecation;
use crate::ir::RustType;
use crate::text::chars_of;
use crate::text::decimal;
use crate::text::decimal_string;
use crate::text::push_char;
use crate::text::push_str;

verus! {

/// The type expression a [`RustType`] is emitted as.
pub open spec fn type_text(t: RustType) -> Seq<char>
    decreases t,
{
    match t {
        RustType::Bool => "bool"@,
        RustType::I32 => "i32"@,
        RustType::I64 => "i64"@,
        RustType::F64 => "f64"@,
        RustType::String => "String"@,
        RustType::Value => "serde_json::Value"@,
        RustType::Date => "chrono::NaiveDate"@,
        RustType::DateTime => "chrono::DateTime<chrono::Utc>"@,
        RustType::Uuid => "uuid::Uuid"@,
        RustType::Bytes => "Vec<u8>"@,
        RustType::Vec(inner) => "Vec<"@ + type_text(*inner) + ">"@,
        RustType::HashMap(inner) => "std::collections::HashMap<String, "@ + type_text(*inner) + ">"@,
        RustType::Option(inner) => "Option<"@ + type_text(*inner) + ">"@,
        RustType::Boxed(inner) => "Box<"@ + type_text(*inner) + ">"@,
        RustType::Named(name) => name@,
        RustType::External { module, name } => module@ + "::"@ + name@,
        RustType::Verbatim { text, .. } => text@,
    }
}

/// Every type is emitted as the Rust text it stands for: a `format: date`
/// value as `chrono::NaiveDate`, a `date-time` as
/// `chrono::DateTime<chrono::Utc>`, and each wrapper around the text of
/// what it wraps, as the type's own label reads.
pub proof fn types_render_as_their_labels(t: RustType)
    ensures
        type_text(t) == crate::ir::label_of(t),
        type_text(RustType::Date) == "chrono::NaiveDate"@,
        type_text(RustType::DateTime) == "chrono::DateTime<chrono::Utc>"@,
    decreases t,
{
    match t {
        RustType::Vec(inner) => types_render_as_their_labels(*inner),
        RustType::HashMap(inner) => types_render_as_their_labels(*inner),
        RustType::Option(inner) => types_render_as_their_labels(*inner),
        RustType::Boxed(inner) => types_render_as_their_labels(*inner),
        _ => {},
    }
}

/// Appends the type expression of `t`.
pub fn push_type(out: &mut String, t: &RustType)
    ensures
        final(out)@ == old(out)@ + type_text(*t),
    decreases t,
{
    let ghost start = out@;
    match t {
        RustType::Bool => push_str(out, "bool"),
        RustType::I32 => push_str(out, "i32"),
        RustType::I64 => push_str(out, "i64"),
        RustType::F64 => push_str(out, "f64"),
        RustType::String => push_str(out, "String"),
        RustType::Value => push_str(out, "serde_json::Value"),
        RustType::Date => push_str(out, "chrono::NaiveDate"),
        RustType::DateTime => push_str(out, "chrono::DateTime<chrono::Utc>"),
        RustType::Uuid => push_str(out, "uuid::Uuid"),
        RustType::Bytes => push_str(out, "Vec<u8>"),
        RustType::Vec(inner) => {
            push_str(out, "Vec<");
            push_type(out, inner);
            push_str(out, ">");
            assert(out@ =~= start + type_text(*t));
        },
        RustType::HashMap(inner) => {
            push_str(out, "std::collections::HashMap<String, ");
            push_type(out, inner);
            push_str(out, ">");
            assert(out@ =~= start + type_text(*t));
        },
        RustType::Option(inner) => {
            push_str(out, "Option<");
            push_type(out, inner);
            push_str(out, ">");
            assert(out@ =~= start + type_text(*t));
        },
        RustType::Boxed(inner) => {
            push_str(out, "Box<");
            push_type(out, inner);
            push_str(out, ">");
            assert(out@ =~= start + type_text(*t));
        },
        RustType::Named(name) => push_str(out, name.as_str()),
        RustType::External { module, name } => {
            push_str(out, module.as_str());
            push_str(out, "::");
            push_str(out, name.as_str());
            assert(out@ =~= start + type_text(*t));
        },
        RustType::Verbatim { text, .. } => push_str(out, text.as_str()),
    }
}

/// The type expression `t` is emitted as.
pub fn emit_type(t: &RustType) -> (r: String)
    ensures
        r@ == type_text(*t),
{
    let mut r = String::new();
    push_type(&mut r, t);
    assert(r@ =~= type_text(*t));
    r
}

/// How one character is written inside a string literal.
pub open spec fn escape_char(c: char) -> Seq<char> {
    if c == '"' {
        seq!['\\', '"']
    } else if c == '\\' {
        seq!['\\', '\\']
    } else if c == '\n' {
        seq!['\\', 'n']
    } else if c == '\r' {
        seq!['\\', 'r']
    } else if c == '\t' {
        seq!['\\', 't']
    } else {
        seq![c]
    }
}

/// The body of a string literal that reads as `s`.
pub open spec fn escaped(s: Seq<char>) -> Seq<char>
    decreases s.len(),
{
    if s.len() == 0 {
        Seq::empty()
    } else {
        escaped(s.drop_last()) + escape_char(s.last())
    }
}

/// A string literal that reads as `s`.
pub open spec fn quoted(s: Seq<char>) -> Seq<char> {
    seq!['"'] + escaped(s) + seq!['"']
}

/// What the character after a backslash stands for in a string literal.
pub open spec fn unescape_char(c: char) -> char {
    if c == 'n' {
        '\n'
    } else if c == 'r' {
        '\r'
    } else if c == 't' {
        '\t'
    } else {
        c
    }
}

/// The text the body of a string literal reads as.
pub open spec fn unescape(t: Seq<char>) -> Seq<char>
    decreases t.len(),
{
    if t.len() == 0 {
        Seq::empty()
    } else if t[0] == '\\' && t.len() >= 2 {
        seq![unescape_char(t[1])] + unescape(t.skip(2))
    } else {
        seq![t[0]] + unescape(t.skip(1))
    }
}

/// The escaped text of `s`, read from its first character.
proof fn lemma_escaped_front(s: Seq<char>)
    requires
        s.len() > 0,
    ensures
        escaped(s) == escape_char(s[0]) + escaped(s.skip(1)),
    decreases s.len(),
{
    if s.len() == 1 {
        assert(s.drop_last() =~= Seq::<char>::empty());
        assert(s.skip(1) =~= Seq::<char>::empty());
        assert(escaped(s) =~= escape_char(s[0]) + escaped(s.skip(1)));
    } else {
        lemma_escaped_front(s.drop_last());
        assert(s.drop_last().skip(1) =~= s.skip(1).drop_last());
        assert(s.skip(1).last() == s.last());
        assert(escaped(s) =~= escape_char(s[0]) + escaped(s.skip(1)));
    }
}

/// One escaped character reads back as itself.
proof fn lemma_unescape_one(c: char, rest: Seq<char>)
    ensures
        unescape(escape_char(c) + rest) == seq![c] + unescape(rest),
{
    let t = escape_char(c) + rest;
    if c == '"' || c == '\\' || c == '\n' || c == '\r' || c == '\t' {
        assert(t[0] == '\\');
        assert(t.skip(2) =~= rest);
    } else {
        assert(t[0] == c);
        assert(t.skip(1) =~= rest);
    }
}

/// A string literal the emitter writes reads back as the text it was given:
/// whatever characters a document's text holds, it stays inside its literal.
pub proof fn string_literals_read_back(s: Seq<char>)
    ensures
        unescape(escaped(s)) == s,
    decreases s.len(),
{
    if s.len() > 0 {
        lemma_escaped_front(s);
        lemma_unescape_one(s[0], escaped(s.skip(1)));
        string_literals_read_back(s.skip(1));
        assert(s =~= seq![s[0]] + s.skip(1));
    }
}

/// Appends `c` as it is written inside a string literal.
fn push_escaped_char(out: &mut String, c: char)
    ensures
        final(out)@ == old(out)@ + escape_char(c),
{
    if c == '"' {
        push_char(out, '\\');
        push_char(out, '"');
    } else if c == '\\' {
        push_char(out, '\\');
        push_char(out, '\\');
    } else if c == '\n' {
        push_char(out, '\\');
        push_char(out, 'n');
    } else if c == '\r' {
        push_char(out, '\\');
        push_char(out, 'r');
    } else if c == '\t' {
        push_char(out, '\\');
        push_char(out, 't');
    } else {
        push_char(out, c);
    }
    assert(out@ =~= old(out)@ + escape_char(c));
}

/// Appends a string literal that reads as `s`.
pub fn push_quoted(out: &mut String, s: &str)
    ensures
        final(out)@ == old(out)@ + quoted(s@),
{
    let ghost start = out@;
    push_char(out, '"');
    let cs = chars_of(s);
    let mut i: usize = 0;
    while i < cs.len()
        invariant
            i <= cs@.len(),
            cs@ == s@,
            out@ == start + seq!['"'] + escaped(cs@.take(i as int)),
        decreases cs@.len() - i,
    {
        push_escaped_char(out, cs[i]);
        assert(cs@.take(i + 1).drop_last() =~= cs@.take(i as int));
        assert(out@ =~= start + seq!['"'] + escaped(cs@.take(i + 1)));
        i = i + 1;
    }
    push_char(out, '"');
    assert(cs@.take(cs@.len() as int) =~= cs@);
    assert(out@ =~= start + quoted(s@));
}

/// The decimal notation of an integer, with a leading `-` when negative.
pub open spec fn int_text(v: int) -> Seq<char> {
    if v < 0 {
        "-"@ + decimal((-v) as nat)
    } else {
        decimal(v as nat)
    }
}

/// Appends the decimal notation of `v`.
pub fn push_int(out: &mut String, v: i64)
    ensures
        final(out)@ == old(out)@ + int_text(v as int),
{
    let ghost start = out@;
    if v < 0 {
        push_str(out, "-");
        let m: u64 = ((-(v + 1)) as u64) + 1;
        assert(m as int == -(v as int));
        let d = decimal_string(m);
        push_str(out, d.as_str());
    } else {
        let d = decimal_string(v as u64);
        push_str(out, d.as_str());
    }
    assert(out@ =~= start + int_text(v as int));
}

/// How one character of a doc text is written: a line break starts the next
/// `///` line at the same indent.
pub open spec fn doc_char(c: char, indent: Seq<char>) -> Seq<char> {
    if c == '\n' {
        seq!['\n'] + indent + "/// "@
    } else {
        seq![c]
    }
}

/// A doc text, its line breaks continued as `///` lines.
pub open spec fn doc_body(s: Seq<char>, indent: Seq<char>) -> Seq<char>
    decreases s.len(),
{
    if s.len() == 0 {
        Seq::empty()
    } else {
        doc_body(s.drop_last(), indent) + doc_char(s.last(), indent)
    }
}

/// The doc comment an item or variant carries, at the given indent: one
/// `///` line per line of the text, or nothing without a text.
pub open spec fn doc_text(doc: Option<String>, indent: Seq<char>) -> Seq<char> {
    match doc {
        None => Seq::empty(),
        Some(d) => indent + "/// "@ + doc_body(d@, indent) + "\n"@,
    }
}

/// Appends a doc text, its line breaks continued as `///` lines.
pub fn push_doc_body(out: &mut String, d: &str, indent: &str)
    ensures
        final(out)@ == old(out)@ + doc_body(d@, indent@),
{
    let ghost head = out@;
    let cs = chars_of(d);
    let mut i: usize = 0;
    while i < cs.len()
        invariant
            i <= cs@.len(),
            cs@ == d@,
            out@ == head + doc_body(cs@.take(i as int), indent@),
        decreases cs@.len() - i,
    {
        let c = cs[i];
        if c == '\n' {
            push_char(out, '\n');
            push_str(out, indent);
            push_str(out, "/// ");
        } else {
            push_char(out, c);
        }
        assert(cs@.take(i + 1).drop_last() =~= cs@.take(i as int));
        assert(out@ =~= head + doc_body(cs@.take(i + 1), indent@));
        i = i + 1;
    }
    assert(cs@.take(cs@.len() as int) =~= cs@);
}

/// Appends the doc comment of `doc` at the given indent.
pub fn push_doc(out: &mut String, doc: &Option<String>, indent: &str)
    ensures
        final(out)@ == old(out)@ + doc_text(*doc, indent@),
{
    let ghost start = out@;
    match doc {
        None => {
            assert(out@ =~= start + doc_text(*doc, indent@));
        },
        Some(d) => {
            push_str(out, indent);
            push_str(out, "/// ");
            push_doc_body(out, d.as_str(), indent);
            push_str(out, "\n");
            assert(out@ =~= start + doc_text(*doc, indent@));
        },
    }
}

/// The `#[deprecated]` attribute of an item, with its note when it has one.
pub open spec fn deprecated_text(dep: Option<Deprecation>) -> Seq<char> {
    match dep {
        None => Seq::empty(),
        Some(d) => match d.note {
            None => "#[deprecated]\n"@,
            Some(n) => "#[deprecated(note = "@ + quoted(n@) + ")]\n"@,
        },
    }
}

/// Appends the `#[deprecated]` attribute of `dep`.
pub fn push_deprecated(out: &mut String, dep: &Option<Deprecation>)
    ensures
        final(out)@ == old(out)@ + deprecated_text(*dep),
{
    let ghost start = out@;
    match dep {
        None => {},
        Some(d) => match &d.note {
            None => push_str(out, "#[deprecated]\n"),
            Some(n) => {
                push_str(out, "#[deprecated(note = ");
                push_quoted(out, n.as_str());
                push_str(out, ")]\n");
            },
        },
    }
    assert(out@ =~= start + deprecated_text(*dep));
}

} // verus!
