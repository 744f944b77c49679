//! The derive sets of generated model items.

use vstd::prelude::*;

use crate::emit::render::deprecated_text;
use crate::emit::render::doc_text;
use crate::emit::render::int_text;
use crate::emit::render::push_deprecated;
use crate::emit::render::push_doc;
use crate::emit::render::push_int;
use crate::emit::render::push_quoted;
use crate::emit::render::push_type;
use crate::emit::render::quoted;
use crate::emit::render::type_text;
use crate::ir::Alias;
use crate::ir::Enum;
use crate::ir::EnumKind;
use crate::ir::ForeignDerives;
use crate::ir::IntegerVariant;
use crate::ir::StringVariant;
use crate::ir::UnionVariant;
use crate::text::join;
use crate::text::join_strs;
use crate::text::push_str;
use crate::text::str_views;

verus! {

/// The full derive set for one generated model: its serde traits, plus which of
/// `Debug`, `Clone`, `PartialEq` the model can carry.
#[derive(Debug, Clone, Copy, PartialEq, Eq)]
pub struct ModelDerives {
    /// Which serde traits the model's API direction needs.
    pub serde: SerdeDerives,
    /// Which of the three non-serde traits every foreign type the model reaches
    /// implements.
    pub foreign: ForeignDerives,
}

impl ModelDerives {
    /// Both serde traits and all three non-serde traits: the derive set of a
    /// model whose usage direction is unknown.
    pub fn both() -> (r: Self)
        ensures
            r.serde == (SerdeDerives { serialize: true, deserialize: true }),
            r.foreign == crate::ir::all_derives(),
    {
        ModelDerives { serde: SerdeDerives::both(), foreign: ForeignDerives::all() }
    }
}

/// Which serde traits a generated model derives.
#[derive(Debug, Clone, Copy, PartialEq, Eq)]
pub struct SerdeDerives {
    /// Derive `serde::Serialize`.
    pub serialize: bool,
    /// Derive `serde::Deserialize`.
    pub deserialize: bool,
}

impl SerdeDerives {
    /// Both serde traits.
    pub fn both() -> (r: Self)
        ensures
            r.serialize && r.deserialize,
    {
        SerdeDerives { serialize: true, deserialize: true }
    }
}

/// The request mask for a type deriving `Debug` and `Clone` only, such as an
/// operation's header or cookie input struct: those are read field by field
/// and never compared.
pub fn debug_and_clone() -> (r: ForeignDerives)
    ensures
        r == (ForeignDerives { debug: true, clone: true, partial_eq: false }),
{
    ForeignDerives { debug: true, clone: true, partial_eq: false }
}

/// The request mask for a type deriving all three, such as a response enum.
pub fn debug_clone_and_eq() -> (r: ForeignDerives)
    ensures
        r == (ForeignDerives { debug: true, clone: true, partial_eq: true }),
{
    ForeignDerives { debug: true, clone: true, partial_eq: true }
}

/// The derive list of a generated type, in emission order: the requested
/// serde traits, then each of `Debug`, `Clone`, `PartialEq` that every foreign
/// type the model reaches implements.
pub open spec fn derive_list(d: ModelDerives) -> Seq<Seq<char>> {
    (if d.serde.serialize {
        seq!["serde::Serialize"@]
    } else {
        Seq::empty()
    }) + (if d.serde.deserialize {
        seq!["serde::Deserialize"@]
    } else {
        Seq::empty()
    }) + (if d.foreign.debug {
        seq!["Debug"@]
    } else {
        Seq::empty()
    }) + (if d.foreign.clone {
        seq!["Clone"@]
    } else {
        Seq::empty()
    }) + (if d.foreign.partial_eq {
        seq!["PartialEq"@]
    } else {
        Seq::empty()
    })
}

/// The texts of a list of string slices.
pub open spec fn str_texts(v: Seq<&'static str>) -> Seq<Seq<char>> {
    v.map_values(|s: &'static str| s@)
}

/// Append one trait path.
fn push_name(names: &mut Vec<&'static str>, name: &'static str)
    ensures
        str_texts(final(names)@) == str_texts(old(names)@).push(name@),
{
    names.push(name);
    assert(str_texts(names@) =~= str_texts(old(names)@).push(name@));
}

/// The trait paths the `#[derive(..)]` of a generated type lists, in order.
///
/// A derive the model cannot satisfy is left out rather than emitted and left
/// to fail, because the failure would land on generated code the consumer must
/// not edit. When every trait is left out the type gets no derive attribute at
/// all: an empty `#[derive()]` is valid Rust, but noise.
pub fn derive_names(derives: ModelDerives) -> (names: Vec<&'static str>)
    ensures
        str_texts(names@) == derive_list(derives),
{
    let mut names: Vec<&'static str> = Vec::new();
    if derives.serde.serialize {
        push_name(&mut names, "serde::Serialize");
    }
    let ghost a = str_texts(names@);
    if derives.serde.deserialize {
        push_name(&mut names, "serde::Deserialize");
    }
    let ghost b = str_texts(names@);
    if derives.foreign.debug {
        push_name(&mut names, "Debug");
    }
    let ghost c = str_texts(names@);
    if derives.foreign.clone {
        push_name(&mut names, "Clone");
    }
    let ghost e = str_texts(names@);
    if derives.foreign.partial_eq {
        push_name(&mut names, "PartialEq");
    }
    assert(str_texts(names@) =~= derive_list(derives));
    names
}

/// The derive list of a generated type that carries no serde trait: the
/// traits both the emitter requests and the type's contents allow.
pub fn plain_derive_names(requested: ForeignDerives, allowed: ForeignDerives) -> (names: Vec<&'static str>)
    ensures
        str_texts(names@) == derive_list(
            ModelDerives {
                serde: SerdeDerives { serialize: false, deserialize: false },
                foreign: crate::ir::meet(requested, allowed),
            },
        ),
{
    derive_names(
        ModelDerives { serde: SerdeDerives { serialize: false, deserialize: false }, foreign: requested.intersect(allowed) },
    )
}

/// The `#[derive(..)]` line of a generated type, or nothing when every trait
/// was left out.
pub open spec fn derive_text(d: ModelDerives) -> Seq<char> {
    if derive_list(d).len() == 0 {
        Seq::empty()
    } else {
        "#[derive("@ + join(derive_list(d), ", "@) + ")]\n"@
    }
}

/// Appends the `#[derive(..)]` line of `d`.
pub fn push_derive(out: &mut String, d: ModelDerives)
    ensures
        final(out)@ == old(out)@ + derive_text(d),
{
    let ghost start = out@;
    let names = derive_names(d);
    assert(str_views(names@) =~= str_texts(names@));
    if names.len() > 0 {
        push_str(out, "#[derive(");
        let list = join_strs(&names, ", ");
        push_str(out, list.as_str());
        push_str(out, ")]\n");
    }
    assert(out@ =~= start + derive_text(d));
}

/// One unit variant of a string enum: its doc, its wire name when that differs
/// from the identifier, and the identifier.
pub open spec fn string_variant_text(v: StringVariant) -> Seq<char> {
    doc_text(v.doc, "    "@) + (match v.rename {
        Some(r) => "    #[serde(rename = "@ + quoted(r@) + ")]\n"@,
        None => Seq::empty(),
    }) + "    "@ + v.name@ + ",\n"@
}

/// The unit variants of a string enum, in order.
pub open spec fn string_variants_text(vs: Seq<StringVariant>) -> Seq<char>
    decreases vs.len(),
{
    if vs.len() == 0 {
        Seq::empty()
    } else {
        string_variants_text(vs.drop_last()) + string_variant_text(vs.last())
    }
}

/// One unit variant of an integer enum, with its discriminant.
pub open spec fn integer_variant_text(v: IntegerVariant) -> Seq<char> {
    doc_text(v.doc, "    "@) + "    "@ + v.name@ + " = "@ + int_text(v.value as int) + ",\n"@
}

/// The unit variants of an integer enum, in order.
pub open spec fn integer_variants_text(vs: Seq<IntegerVariant>) -> Seq<char>
    decreases vs.len(),
{
    if vs.len() == 0 {
        Seq::empty()
    } else {
        integer_variants_text(vs.drop_last()) + integer_variant_text(vs.last())
    }
}

/// One newtype variant of a union enum.
pub open spec fn union_variant_text(v: UnionVariant) -> Seq<char> {
    "    "@ + v.name@ + "("@ + type_text(v.ty) + "),\n"@
}

/// The newtype variants of a union enum, in order.
pub open spec fn union_variants_text(vs: Seq<UnionVariant>) -> Seq<char>
    decreases vs.len(),
{
    if vs.len() == 0 {
        Seq::empty()
    } else {
        union_variants_text(vs.drop_last()) + union_variant_text(vs.last())
    }
}

/// The match arm that turns a variant into its number.
pub open spec fn to_number_arm(name: Seq<char>, v: IntegerVariant) -> Seq<char> {
    "            "@ + name + "::"@ + v.name@ + " => "@ + int_text(v.value as int) + ",\n"@
}

/// The arms that turn each variant into its number, in order.
pub open spec fn to_number_arms(name: Seq<char>, vs: Seq<IntegerVariant>) -> Seq<char>
    decreases vs.len(),
{
    if vs.len() == 0 {
        Seq::empty()
    } else {
        to_number_arms(name, vs.drop_last()) + to_number_arm(name, vs.last())
    }
}

/// The match arm that turns a number into its variant.
pub open spec fn from_number_arm(name: Seq<char>, v: IntegerVariant) -> Seq<char> {
    "            "@ + int_text(v.value as int) + " => Ok("@ + name + "::"@ + v.name@ + "),\n"@
}

/// The arms that turn each listed number into its variant, in order.
pub open spec fn from_number_arms(name: Seq<char>, vs: Seq<IntegerVariant>) -> Seq<char>
    decreases vs.len(),
{
    if vs.len() == 0 {
        Seq::empty()
    } else {
        from_number_arms(name, vs.drop_last()) + from_number_arm(name, vs.last())
    }
}

/// The `#[serde(try_from, into)]` attribute of an integer enum: `try_from`
/// when the enum deserializes, `into` when it serializes, nothing otherwise.
pub open spec fn convert_attr_text(d: ModelDerives, repr: Seq<char>) -> Seq<char> {
    if d.serde.deserialize && d.serde.serialize {
        "#[serde(try_from = "@ + quoted(repr) + ", into = "@ + quoted(repr) + ")]\n"@
    } else if d.serde.deserialize {
        "#[serde(try_from = "@ + quoted(repr) + ")]\n"@
    } else if d.serde.serialize {
        "#[serde(into = "@ + quoted(repr) + ")]\n"@
    } else {
        Seq::empty()
    }
}

/// The two conversions an integer enum carries: to its number, and from a
/// number, which fails with a message naming the value and the type when the
/// document does not list the value.
pub open spec fn conversions_text(name: Seq<char>, repr: Seq<char>, vs: Seq<IntegerVariant>) -> Seq<char> {
    "\nimpl From<"@ + name + "> for "@ + repr + " {\n    fn from(value: "@ + name
        + ") -> Self {\n        return match value {\n"@ + to_number_arms(name, vs)
        + "        };\n    }\n}\n\nimpl TryFrom<"@ + repr + "> for "@ + name
        + " {\n    type Error = String;\n\n    fn try_from(value: "@ + repr
        + ") -> Result<Self, Self::Error> {\n        return match value {\n"@ + from_number_arms(name, vs)
        + "            other => Err(format!(\"`{}` is not a value of `{}`\", other, "@ + quoted(name)
        + ")),\n        };\n    }\n}\n"@
}

/// The Rust source of a generated enum: its doc, its derive line, the
/// attributes its flavour needs, its `#[deprecated]`, the enum with its
/// variants, and for an integer enum the two conversions.
pub open spec fn enum_text(e: Enum, d: ModelDerives) -> Seq<char> {
    let head = doc_text(e.doc, Seq::empty()) + derive_text(d);
    let open = "pub enum "@ + e.name@ + " {\n"@;
    match e.kind {
        EnumKind::Strings(vs) => head + deprecated_text(e.deprecated) + open + string_variants_text(vs@) + "}\n"@,
        EnumKind::Integers { repr, variants } => head + convert_attr_text(d, type_text(repr)) + "#[repr("@
            + type_text(repr) + ")]\n"@ + deprecated_text(e.deprecated) + open + integer_variants_text(variants@)
            + "}\n"@ + conversions_text(e.name@, type_text(repr), variants@),
        EnumKind::Union(vs) => head + "#[serde(untagged)]\n"@ + deprecated_text(e.deprecated) + open
            + union_variants_text(vs@) + "}\n"@,
    }
}

/// Appends one unit variant of a string enum.
fn push_string_variant(out: &mut String, v: &StringVariant)
    ensures
        final(out)@ == old(out)@ + string_variant_text(*v),
{
    let ghost start = out@;
    push_doc(out, &v.doc, "    ");
    match &v.rename {
        Some(r) => {
            push_str(out, "    #[serde(rename = ");
            push_quoted(out, r.as_str());
            push_str(out, ")]\n");
        },
        None => {},
    }
    push_str(out, "    ");
    push_str(out, v.name.logical());
    push_str(out, ",\n");
    assert(out@ =~= start + string_variant_text(*v));
}

/// Appends one unit variant of an integer enum.
fn push_integer_variant(out: &mut String, v: &IntegerVariant)
    ensures
        final(out)@ == old(out)@ + integer_variant_text(*v),
{
    let ghost start = out@;
    push_doc(out, &v.doc, "    ");
    push_str(out, "    ");
    push_str(out, v.name.logical());
    push_str(out, " = ");
    push_int(out, v.value);
    push_str(out, ",\n");
    assert(out@ =~= start + integer_variant_text(*v));
}

/// Appends one newtype variant of a union enum.
fn push_union_variant(out: &mut String, v: &UnionVariant)
    ensures
        final(out)@ == old(out)@ + union_variant_text(*v),
{
    let ghost start = out@;
    push_str(out, "    ");
    push_str(out, v.name.logical());
    push_str(out, "(");
    push_type(out, &v.ty);
    push_str(out, "),\n");
    assert(out@ =~= start + union_variant_text(*v));
}

/// Appends the unit variants of a string enum.
fn push_string_variants(out: &mut String, vs: &Vec<StringVariant>)
    ensures
        final(out)@ == old(out)@ + string_variants_text(vs@),
{
    let ghost start = out@;
    let mut i: usize = 0;
    while i < vs.len()
        invariant
            i <= vs@.len(),
            out@ == start + string_variants_text(vs@.take(i as int)),
        decreases vs@.len() - i,
    {
        push_string_variant(out, &vs[i]);
        assert(vs@.take(i + 1).drop_last() =~= vs@.take(i as int));
        assert(out@ =~= start + string_variants_text(vs@.take(i + 1)));
        i = i + 1;
    }
    assert(vs@.take(vs@.len() as int) =~= vs@);
}

/// Appends the unit variants of an integer enum.
fn push_integer_variants(out: &mut String, vs: &Vec<IntegerVariant>)
    ensures
        final(out)@ == old(out)@ + integer_variants_text(vs@),
{
    let ghost start = out@;
    let mut i: usize = 0;
    while i < vs.len()
        invariant
            i <= vs@.len(),
            out@ == start + integer_variants_text(vs@.take(i as int)),
        decreases vs@.len() - i,
    {
        push_integer_variant(out, &vs[i]);
        assert(vs@.take(i + 1).drop_last() =~= vs@.take(i as int));
        assert(out@ =~= start + integer_variants_text(vs@.take(i + 1)));
        i = i + 1;
    }
    assert(vs@.take(vs@.len() as int) =~= vs@);
}

/// Appends the newtype variants of a union enum.
fn push_union_variants(out: &mut String, vs: &Vec<UnionVariant>)
    ensures
        final(out)@ == old(out)@ + union_variants_text(vs@),
{
    let ghost start = out@;
    let mut i: usize = 0;
    while i < vs.len()
        invariant
            i <= vs@.len(),
            out@ == start + union_variants_text(vs@.take(i as int)),
        decreases vs@.len() - i,
    {
        push_union_variant(out, &vs[i]);
        assert(vs@.take(i + 1).drop_last() =~= vs@.take(i as int));
        assert(out@ =~= start + union_variants_text(vs@.take(i + 1)));
        i = i + 1;
    }
    assert(vs@.take(vs@.len() as int) =~= vs@);
}

/// Appends the arms that turn each variant into its number.
fn push_to_number_arms(out: &mut String, name: &str, vs: &Vec<IntegerVariant>)
    ensures
        final(out)@ == old(out)@ + to_number_arms(name@, vs@),
{
    let ghost start = out@;
    let mut i: usize = 0;
    while i < vs.len()
        invariant
            i <= vs@.len(),
            out@ == start + to_number_arms(name@, vs@.take(i as int)),
        decreases vs@.len() - i,
    {
        let ghost before = out@;
        push_str(out, "            ");
        push_str(out, name);
        push_str(out, "::");
        push_str(out, vs[i].name.logical());
        push_str(out, " => ");
        push_int(out, vs[i].value);
        push_str(out, ",\n");
        assert(out@ =~= before + to_number_arm(name@, vs@[i as int]));
        assert(vs@.take(i + 1).drop_last() =~= vs@.take(i as int));
        assert(out@ =~= start + to_number_arms(name@, vs@.take(i + 1)));
        i = i + 1;
    }
    assert(vs@.take(vs@.len() as int) =~= vs@);
}

/// Appends the arms that turn each listed number into its variant.
fn push_from_number_arms(out: &mut String, name: &str, vs: &Vec<IntegerVariant>)
    ensures
        final(out)@ == old(out)@ + from_number_arms(name@, vs@),
{
    let ghost start = out@;
    let mut i: usize = 0;
    while i < vs.len()
        invariant
            i <= vs@.len(),
            out@ == start + from_number_arms(name@, vs@.take(i as int)),
        decreases vs@.len() - i,
    {
        let ghost before = out@;
        push_str(out, "            ");
        push_int(out, vs[i].value);
        push_str(out, " => Ok(");
        push_str(out, name);
        push_str(out, "::");
        push_str(out, vs[i].name.logical());
        push_str(out, "),\n");
        assert(out@ =~= before + from_number_arm(name@, vs@[i as int]));
        assert(vs@.take(i + 1).drop_last() =~= vs@.take(i as int));
        assert(out@ =~= start + from_number_arms(name@, vs@.take(i + 1)));
        i = i + 1;
    }
    assert(vs@.take(vs@.len() as int) =~= vs@);
}

/// Appends the `#[serde(try_from, into)]` attribute of an integer enum.
fn push_convert_attr(out: &mut String, d: ModelDerives, repr: &str)
    ensures
        final(out)@ == old(out)@ + convert_attr_text(d, repr@),
{
    let ghost start = out@;
    if d.serde.deserialize && d.serde.serialize {
        push_str(out, "#[serde(try_from = ");
        push_quoted(out, repr);
        push_str(out, ", into = ");
        push_quoted(out, repr);
        push_str(out, ")]\n");
    } else if d.serde.deserialize {
        push_str(out, "#[serde(try_from = ");
        push_quoted(out, repr);
        push_str(out, ")]\n");
    } else if d.serde.serialize {
        push_str(out, "#[serde(into = ");
        push_quoted(out, repr);
        push_str(out, ")]\n");
    }
    assert(out@ =~= start + convert_attr_text(d, repr@));
}

/// Appends the two conversions of an integer enum.
fn push_conversions(out: &mut String, name: &str, repr: &str, vs: &Vec<IntegerVariant>)
    ensures
        final(out)@ == old(out)@ + conversions_text(name@, repr@, vs@),
{
    let ghost start = out@;
    push_str(out, "\nimpl From<");
    push_str(out, name);
    push_str(out, "> for ");
    push_str(out, repr);
    push_str(out, " {\n    fn from(value: ");
    push_str(out, name);
    push_str(out, ") -> Self {\n        return match value {\n");
    push_to_number_arms(out, name, vs);
    push_str(out, "        };\n    }\n}\n\nimpl TryFrom<");
    push_str(out, repr);
    push_str(out, "> for ");
    push_str(out, name);
    push_str(out, " {\n    type Error = String;\n\n    fn try_from(value: ");
    push_str(out, repr);
    push_str(out, ") -> Result<Self, Self::Error> {\n        return match value {\n");
    push_from_number_arms(out, name, vs);
    push_str(out, "            other => Err(format!(\"`{}` is not a value of `{}`\", other, ");
    push_quoted(out, name);
    push_str(out, ")),\n        };\n    }\n}\n");
    assert(out@ =~= start + conversions_text(name@, repr@, vs@));
}

/// The Rust source of a generated enum with the given derive set: a string
/// enum maps unit variants to wire strings, an integer enum carries the
/// number over the wire through its two conversions, and a union is
/// `#[serde(untagged)]` over newtype variants.
#[verifier::spinoff_prover]
pub fn emit_enum(enom: &Enum, derives: ModelDerives) -> (code: String)
    ensures
        code@ == enum_text(*enom, derives),
{
    let mut out = String::new();
    proof {
        reveal_strlit("");
        assert(""@ =~= Seq::<char>::empty());
    }
    assert(out@ =~= Seq::<char>::empty());
    push_doc(&mut out, &enom.doc, "");
    assert(out@ =~= doc_text(enom.doc, Seq::empty()));
    push_derive(&mut out, derives);
    let ghost head = out@;
    let name = enom.name.logical();
    match &enom.kind {
        EnumKind::Strings(vs) => {
            push_deprecated(&mut out, &enom.deprecated);
            push_str(&mut out, "pub enum ");
            push_str(&mut out, name);
            push_str(&mut out, " {\n");
            push_string_variants(&mut out, vs);
            push_str(&mut out, "}\n");
            assert(out@ =~= enum_text(*enom, derives));
        },
        EnumKind::Integers { repr, variants } => {
            let repr_text = crate::emit::render::emit_type(repr);
            push_convert_attr(&mut out, derives, repr_text.as_str());
            push_str(&mut out, "#[repr(");
            push_str(&mut out, repr_text.as_str());
            push_str(&mut out, ")]\n");
            push_deprecated(&mut out, &enom.deprecated);
            push_str(&mut out, "pub enum ");
            push_str(&mut out, name);
            push_str(&mut out, " {\n");
            push_integer_variants(&mut out, variants);
            push_str(&mut out, "}\n");
            push_conversions(&mut out, name, repr_text.as_str(), variants);
            assert(out@ =~= enum_text(*enom, derives));
        },
        EnumKind::Union(vs) => {
            push_str(&mut out, "#[serde(untagged)]\n");
            push_deprecated(&mut out, &enom.deprecated);
            push_str(&mut out, "pub enum ");
            push_str(&mut out, name);
            push_str(&mut out, " {\n");
            push_union_variants(&mut out, vs);
            push_str(&mut out, "}\n");
            assert(out@ =~= enum_text(*enom, derives));
        },
    }
    assert(out@ =~= enum_text(*enom, derives));
    out
}

/// The Rust source of a generated `type X = Y;` alias: its doc, its
/// `#[deprecated]`, and the alias. An alias derives nothing.
pub open spec fn alias_text(a: Alias) -> Seq<char> {
    doc_text(a.doc, Seq::empty()) + deprecated_text(a.deprecated) + "pub type "@ + a.name@ + " = "@ + type_text(a.ty)
        + ";\n"@
}

/// The Rust source of a generated alias.
pub fn emit_alias(alias: &Alias) -> (code: String)
    ensures
        code@ == alias_text(*alias),
{
    let mut out = String::new();
    proof {
        reveal_strlit("");
        assert(""@ =~= Seq::<char>::empty());
    }
    assert(out@ =~= Seq::<char>::empty());
    push_doc(&mut out, &alias.doc, "");
    assert(out@ =~= doc_text(alias.doc, Seq::empty()));
    push_deprecated(&mut out, &alias.deprecated);
    push_str(&mut out, "pub type ");
    push_str(&mut out, alias.name.logical());
    push_str(&mut out, " = ");
    push_type(&mut out, &alias.ty);
    push_str(&mut out, ";\n");
    assert(out@ =~= alias_text(*alias));
    out
}

} // verus!
