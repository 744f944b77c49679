//! A YAML value as the checks read it: the shape of a parsed document, with
//! each scalar kept as its text.

use vstd::prelude::*;
use serde_yaml::Value;
use serde_yaml::value::Tag;
use serde_yaml::value::TaggedValue;

verus! {

/// A parsed YAML value.
#[derive(Debug)]
pub enum Yaml {
    /// `null` or `~`.
    Null,
    /// `true` or `false`.
    Bool(bool),
    /// A number, as its decimal text.
    Number(String),
    /// A string.
    String(String),
    /// A sequence, in document order.
    Sequence(Vec<Yaml>),
    /// A mapping, as its entries in document order.
    Mapping(Vec<(Yaml, Yaml)>),
    /// A value with an explicit `!tag`, and the tag's text.
    Tagged(String, Box<Yaml>),
}

/// The value with any tags taken off, which is what the accessors read.
pub open spec fn untag(v: Yaml) -> Yaml
    decreases v,
{
    match v {
        Yaml::Tagged(_, inner) => untag(*inner),
        _ => v,
    }
}

impl Yaml {
    /// The value with any tags taken off.
    pub fn untagged(&self) -> (r: &Yaml)
        ensures
            *r == untag(*self),
        decreases self,
    {
        match self {
            Yaml::Tagged(_, inner) => inner.untagged(),
            _ => self,
        }
    }

    /// The entries, when the value is a mapping.
    pub fn as_mapping(&self) -> (r: Option<&Vec<(Yaml, Yaml)>>)
        ensures
            r matches Some(m) ==> untag(*self) == Yaml::Mapping(*m),
            r is None ==> !(untag(*self) is Mapping),
    {
        match self.untagged() {
            Yaml::Mapping(m) => Some(m),
            _ => None,
        }
    }

    /// The items, when the value is a sequence.
    pub fn as_sequence(&self) -> (r: Option<&Vec<Yaml>>)
        ensures
            r matches Some(s) ==> untag(*self) == Yaml::Sequence(*s),
            r is None ==> !(untag(*self) is Sequence),
    {
        match self.untagged() {
            Yaml::Sequence(s) => Some(s),
            _ => None,
        }
    }

    /// The text, when the value is a string.
    pub fn as_str(&self) -> (r: Option<&str>)
        ensures
            r matches Some(s) ==> untag(*self) matches Yaml::String(t) && t@ == s@,
            r is None ==> !(untag(*self) is String),
    {
        match self.untagged() {
            Yaml::String(s) => Some(s.as_str()),
            _ => None,
        }
    }

    /// The flag, when the value is a boolean.
    pub fn as_bool(&self) -> (r: Option<bool>)
        ensures
            r matches Some(b) ==> untag(*self) == Yaml::Bool(b),
            r is None ==> !(untag(*self) is Bool),
    {
        match self.untagged() {
            Yaml::Bool(b) => Some(*b),
            _ => None,
        }
    }

    /// Whether the value is `null`.
    pub fn is_null(&self) -> (r: bool)
        ensures
            r == (untag(*self) is Null),
    {
        match self.untagged() {
            Yaml::Null => true,
            _ => false,
        }
    }
}

} // verus!

verus! {

/// `serde_yaml::Value`, carried opaquely from the parser to [`yaml_of`].
#[verifier::external_type_specification]
#[verifier::external_body]
pub struct ExYamlValue(serde_yaml::Value);

/// The value a YAML text parses to, or the parser's message when it does not
/// parse: what `serde_yaml::from_str` gives, converted.
pub uninterp spec fn yaml_parse(text: Seq<char>) -> Result<Yaml, Seq<char>>;

/// Converts a `serde_yaml::Value` into a [`Yaml`], variant by variant: a
/// number keeps its `Display` text, a tag its `Display` text (`!tag`).
#[verifier::external_body]
fn yaml_of(v: &Value) -> (y: Yaml) {
    match v {
        Value::Null => Yaml::Null,
        Value::Bool(b) => Yaml::Bool(*b),
        Value::Number(n) => Yaml::Number(n.to_string()),
        Value::String(s) => Yaml::String(s.clone()),
        Value::Sequence(items) => Yaml::Sequence(items.iter().map(yaml_of).collect()),
        Value::Mapping(m) => Yaml::Mapping(m.iter().map(|(k, v)| (yaml_of(k), yaml_of(v))).collect()),
        Value::Tagged(t) => Yaml::Tagged(t.tag.to_string(), Box::new(yaml_of(&t.value))),
    }
}

/// Converts a [`Yaml`] back into a `serde_yaml::Value`, variant by variant: a
/// number's text is parsed back with `serde_yaml::from_str` (a text that does
/// not parse gives `Null`), a tag's text becomes `Tag::new` of it. YAML has no
/// empty tag, and `Tag::new` panics on one, so a value under an empty tag text
/// converts as the value itself.
#[verifier::external_body]
pub(crate) fn value_of(y: &Yaml) -> Value {
    match y {
        Yaml::Null => Value::Null,
        Yaml::Bool(b) => Value::Bool(*b),
        Yaml::Number(n) => serde_yaml::from_str(n).unwrap_or(Value::Null),
        Yaml::String(s) => Value::String(s.clone()),
        Yaml::Sequence(items) => Value::Sequence(items.iter().map(value_of).collect()),
        Yaml::Mapping(es) => Value::Mapping(es.iter().map(|(k, v)| (value_of(k), value_of(v))).collect()),
        Yaml::Tagged(tag, inner) if tag.is_empty() => value_of(inner),
        Yaml::Tagged(tag, inner) => Value::Tagged(Box::new(TaggedValue {
            tag: Tag::new(tag.clone()),
            value: value_of(inner),
        })),
    }
}

/// Parses YAML (or JSON) text with `serde_yaml::from_str` into a
/// `serde_yaml::Value` and converts it; on failure, the error's `Display` text.
/// The contract claims only that the outcome is a function of the text.
#[verifier::external_body]
pub(crate) fn parse_yaml(text: &str) -> (r: Result<Yaml, String>)
    ensures
        match r {
            Ok(y) => yaml_parse(text@) == Ok::<Yaml, Seq<char>>(y),
            Err(e) => yaml_parse(text@) == Err::<Yaml, Seq<char>>(e@),
        },
{
    match serde_yaml::from_str::<serde_yaml::Value>(text) {
        Ok(v) => Ok(yaml_of(&v)),
        Err(e) => Err(e.to_string()),
    }
}

} // verus!

verus! {

/// How many values `v` holds, itself included.
pub open spec fn node_count(v: Yaml) -> nat
    decreases v,
{
    match v {
        Yaml::Sequence(items) => 1 + items_count(items@),
        Yaml::Mapping(entries) => 1 + entries_count(entries@),
        Yaml::Tagged(_, inner) => 1 + node_count(*inner),
        _ => 1,
    }
}

/// How many values a list of values holds.
pub open spec fn items_count(s: Seq<Yaml>) -> nat
    decreases s,
{
    if s.len() == 0 {
        0
    } else {
        items_count(s.subrange(0, s.len() - 1)) + node_count(s[s.len() - 1])
    }
}

/// How many values a list of entries holds, keys included.
pub open spec fn entries_count(s: Seq<(Yaml, Yaml)>) -> nat
    decreases s,
{
    if s.len() == 0 {
        0
    } else {
        entries_count(s.subrange(0, s.len() - 1)) + node_count(s[s.len() - 1].0) + node_count(s[s.len() - 1].1)
    }
}

} // verus!
