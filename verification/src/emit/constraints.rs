//! Which validation rules a field's keywords ask for, on the type the rules
//! read. A rule the type cannot use is dropped, and so is a bound the type
//! already enforces: a test no value fails is noise in generated code.

use vstd::prelude::*;

use crate::error::Error;
use crate::ir::Bound;
use crate::ir::Constraints;
use crate::ir::Field;
use crate::ir::RustType;
use crate::ir::innermost_of;
use crate::ir::scalar;
use crate::text::owned;
use crate::text::push_str;

verus! {

/// The lowest and highest value an integer type holds, where a bound can reach
/// them; `None` says no bound can reach that end.
pub open spec fn limits_of(ty: RustType) -> (Option<i64>, Option<i64>) {
    match ty {
        RustType::I32 => (Some(i32::MIN as i64), Some(i32::MAX as i64)),
        RustType::I64 => (Some(i64::MIN), Some(i64::MAX)),
        _ => (None, None),
    }
}

/// The lowest and highest value `ty` holds, for the integer types; a bound
/// past either end can never hold.
pub fn type_limits(ty: &RustType) -> (r: (Option<i64>, Option<i64>))
    ensures
        r == limits_of(*ty),
{
    match ty {
        RustType::I32 => (Some(-2147483648i64), Some(2147483647i64)),
        RustType::I64 => (Some(i64::MIN), Some(i64::MAX)),
        _ => (None, None),
    }
}

/// One validation rule a generated deserializer applies, and the value it reads.
#[derive(Debug, Clone, PartialEq)]
pub enum Rule {
    /// The text must match this regular expression.
    Pattern(String),
    /// The text must hold at least this many characters.
    MinLength(usize),
    /// The text must hold at most this many characters.
    MaxLength(usize),
    /// The number must be above this bound.
    Above(Bound),
    /// The number must be this bound or more.
    AtLeast(Bound),
    /// The number must be below this bound.
    Below(Bound),
    /// The number must be this bound or less.
    AtMost(Bound),
    /// The number must be a multiple of this step.
    MultipleOf(Bound),
    /// The list must hold at least this many items.
    MinItems(usize),
    /// The list must hold at most this many items.
    MaxItems(usize),
    /// The list must not repeat an item; `pairwise` when the items have no
    /// hash and are compared pair by pair.
    UniqueItems {
        /// Compare each pair rather than build a set.
        pairwise: bool,
    },
    /// The map must hold at least this many properties.
    MinProperties(usize),
    /// The map must hold at most this many properties.
    MaxProperties(usize),
}

/// `pattern`, `minLength` (when above zero), and `maxLength`.
pub open spec fn string_rules(c: Constraints) -> Seq<Rule> {
    (match c.pattern {
        Some(p) => seq![Rule::Pattern(p)],
        None => Seq::empty(),
    }) + (match c.min_length {
        Some(m) => if m > 0 {
            seq![Rule::MinLength(m)]
        } else {
            Seq::empty()
        },
        None => Seq::empty(),
    }) + (match c.max_length {
        Some(m) => seq![Rule::MaxLength(m)],
        None => Seq::empty(),
    })
}

/// `minimum`: strict with `exclusiveMinimum`; dropped when the type already
/// holds nothing below an integer bound.
pub open spec fn minimum_rule(c: Constraints, ty: RustType) -> Seq<Rule> {
    match c.minimum {
        None => Seq::empty(),
        Some(b) => if c.exclusive_minimum {
            seq![Rule::Above(b)]
        } else if (b matches Bound::Int(v) && (limits_of(ty).0 matches Some(lo) && v <= lo)) {
            Seq::empty()
        } else {
            seq![Rule::AtLeast(b)]
        },
    }
}

/// `maximum`: strict with `exclusiveMaximum`; dropped when the type already
/// holds nothing above an integer bound.
pub open spec fn maximum_rule(c: Constraints, ty: RustType) -> Seq<Rule> {
    match c.maximum {
        None => Seq::empty(),
        Some(b) => if c.exclusive_maximum {
            seq![Rule::Below(b)]
        } else if (b matches Bound::Int(v) && (limits_of(ty).1 matches Some(hi) && v >= hi)) {
            Seq::empty()
        } else {
            seq![Rule::AtMost(b)]
        },
    }
}

/// `minimum`, `maximum`, and `multipleOf`.
pub open spec fn number_rules(c: Constraints, ty: RustType) -> Seq<Rule> {
    minimum_rule(c, ty) + maximum_rule(c, ty) + match c.multiple_of {
        Some(b) => seq![Rule::MultipleOf(b)],
        None => Seq::empty(),
    }
}

/// `minItems`, `maxItems`, and `uniqueItems` on a list of scalars.
pub open spec fn array_rules(c: Constraints, ty: RustType) -> Seq<Rule> {
    (match c.min_items {
        Some(m) => seq![Rule::MinItems(m)],
        None => Seq::empty(),
    }) + (match c.max_items {
        Some(m) => seq![Rule::MaxItems(m)],
        None => Seq::empty(),
    }) + (if c.unique_items && (ty matches RustType::Vec(e) && scalar(*e)) {
        seq![Rule::UniqueItems { pairwise: innermost_of(*ty->Vec_0) is F64 }]
    } else {
        Seq::empty()
    })
}

/// `minProperties` and `maxProperties`, which reach a map and not a struct.
pub open spec fn map_rules(c: Constraints) -> Seq<Rule> {
    (match c.min_properties {
        Some(m) => seq![Rule::MinProperties(m)],
        None => Seq::empty(),
    }) + (match c.max_properties {
        Some(m) => seq![Rule::MaxProperties(m)],
        None => Seq::empty(),
    })
}

/// The rules a set of keywords asks for on the type they read.
pub open spec fn rules_for(c: Constraints, ty: RustType) -> Seq<Rule> {
    match ty {
        RustType::String => string_rules(c),
        RustType::I32 | RustType::I64 | RustType::F64 => number_rules(c, ty),
        RustType::Vec(_) => array_rules(c, ty),
        RustType::HashMap(_) => map_rules(c),
        _ => Seq::empty(),
    }
}

/// A rule in the middle of a list is in the list.
proof fn lemma_in_middle(a: Seq<Rule>, x: Rule, b: Seq<Rule>)
    ensures
        (a + seq![x] + b).contains(x),
{
    assert((a + seq![x] + b)[a.len() as int] == x);
}

/// Every keyword present asks for its rule on the type it applies to: on a
/// string, `pattern`, `maxLength` and a positive `minLength`; on a number, an
/// exclusive bound and `multipleOf`; on a list, `minItems` and `maxItems`; on
/// a map, `minProperties` and `maxProperties`. A keyword on a type it does
/// not apply to asks for nothing.
pub proof fn present_keywords_give_their_rules(c: Constraints, ty: RustType)
    ensures
        c.pattern matches Some(p) ==> (ty is String ==> rules_for(c, ty).contains(Rule::Pattern(p))),
        c.max_length matches Some(m) ==> (ty is String ==> rules_for(c, ty).contains(Rule::MaxLength(m))),
        c.min_length matches Some(m) ==> (ty is String && m > 0 ==> rules_for(c, ty).contains(Rule::MinLength(m))),
        c.minimum matches Some(b) ==> ((ty is I32 || ty is I64 || ty is F64) && c.exclusive_minimum ==> rules_for(
            c,
            ty,
        ).contains(Rule::Above(b))),
        c.maximum matches Some(b) ==> ((ty is I32 || ty is I64 || ty is F64) && c.exclusive_maximum ==> rules_for(
            c,
            ty,
        ).contains(Rule::Below(b))),
        c.multiple_of matches Some(b) ==> ((ty is I32 || ty is I64 || ty is F64) ==> rules_for(c, ty).contains(
            Rule::MultipleOf(b),
        )),
        c.minimum matches Some(b) ==> (ty is F64 && !c.exclusive_minimum ==> rules_for(c, ty).contains(
            Rule::AtLeast(b),
        )),
        c.maximum matches Some(b) ==> (ty is F64 && !c.exclusive_maximum ==> rules_for(c, ty).contains(
            Rule::AtMost(b),
        )),
        c.minimum matches Some(Bound::Int(v)) ==> (!c.exclusive_minimum && ((ty is I64 && v > i64::MIN) || (ty is I32
            && v > i32::MIN)) ==> rules_for(c, ty).contains(Rule::AtLeast(Bound::Int(v)))),
        c.maximum matches Some(Bound::Int(v)) ==> (!c.exclusive_maximum && ((ty is I64 && v < i64::MAX) || (ty is I32
            && v < i32::MAX)) ==> rules_for(c, ty).contains(Rule::AtMost(Bound::Int(v)))),
        ty matches RustType::Vec(e) ==> (c.unique_items && scalar(*e) ==> rules_for(c, ty).contains(
            Rule::UniqueItems { pairwise: *e is F64 },
        )),
        c.min_items matches Some(m) ==> (ty is Vec ==> rules_for(c, ty).contains(Rule::MinItems(m))),
        c.max_items matches Some(m) ==> (ty is Vec ==> rules_for(c, ty).contains(Rule::MaxItems(m))),
        c.min_properties matches Some(m) ==> (ty is HashMap ==> rules_for(c, ty).contains(Rule::MinProperties(m))),
        c.max_properties matches Some(m) ==> (ty is HashMap ==> rules_for(c, ty).contains(Rule::MaxProperties(m))),
        !(ty is String || ty is I32 || ty is I64 || ty is F64 || ty is Vec || ty is HashMap) ==> rules_for(c, ty).len()
            == 0,
{
    match ty {
        RustType::String => {
            let p0: Seq<Rule> = match c.pattern {
                Some(p) => seq![Rule::Pattern(p)],
                None => Seq::empty(),
            };
            let p1: Seq<Rule> = match c.min_length {
                Some(m) => if m > 0 {
                    seq![Rule::MinLength(m)]
                } else {
                    Seq::empty()
                },
                None => Seq::empty(),
            };
            let p2: Seq<Rule> = match c.max_length {
                Some(m) => seq![Rule::MaxLength(m)],
                None => Seq::empty(),
            };
            assert(rules_for(c, ty) == p0 + p1 + p2);
            if let Some(p) = c.pattern {
                lemma_in_middle(Seq::empty(), Rule::Pattern(p), p1 + p2);
                assert(Seq::<Rule>::empty() + seq![Rule::Pattern(p)] + (p1 + p2) =~= p0 + p1 + p2);
            }
            if let Some(m) = c.min_length {
                if m > 0 {
                    lemma_in_middle(p0, Rule::MinLength(m), p2);
                }
            }
            if let Some(m) = c.max_length {
                lemma_in_middle(p0 + p1, Rule::MaxLength(m), Seq::empty());
                assert(p0 + p1 + seq![Rule::MaxLength(m)] + Seq::<Rule>::empty() =~= p0 + p1 + p2);
            }
        },
        RustType::I32 | RustType::I64 | RustType::F64 => {
            let a = minimum_rule(c, ty);
            let b = maximum_rule(c, ty);
            let s: Seq<Rule> = match c.multiple_of {
                Some(x) => seq![Rule::MultipleOf(x)],
                None => Seq::empty(),
            };
            assert(rules_for(c, ty) == a + b + s);
            if c.exclusive_minimum {
                if let Some(x) = c.minimum {
                    lemma_in_middle(Seq::empty(), Rule::Above(x), b + s);
                    assert(Seq::<Rule>::empty() + seq![Rule::Above(x)] + (b + s) =~= a + b + s);
                }
            }
            if c.exclusive_maximum {
                if let Some(x) = c.maximum {
                    lemma_in_middle(a, Rule::Below(x), s);
                }
            }
            if let Some(x) = c.multiple_of {
                lemma_in_middle(a + b, Rule::MultipleOf(x), Seq::empty());
                assert(a + b + seq![Rule::MultipleOf(x)] + Seq::<Rule>::empty() =~= a + b + s);
            }
            if let Some(x) = c.minimum {
                if a == seq![Rule::AtLeast(x)] {
                    lemma_in_middle(Seq::empty(), Rule::AtLeast(x), b + s);
                    assert(Seq::<Rule>::empty() + seq![Rule::AtLeast(x)] + (b + s) =~= a + b + s);
                }
            }
            if let Some(x) = c.maximum {
                if b == seq![Rule::AtMost(x)] {
                    lemma_in_middle(a, Rule::AtMost(x), s);
                }
            }
        },
        RustType::Vec(_) => {
            let p0: Seq<Rule> = match c.min_items {
                Some(m) => seq![Rule::MinItems(m)],
                None => Seq::empty(),
            };
            let p1: Seq<Rule> = match c.max_items {
                Some(m) => seq![Rule::MaxItems(m)],
                None => Seq::empty(),
            };
            let p2 = array_rules(c, ty).skip((p0.len() + p1.len()) as int);
            assert(array_rules(c, ty) =~= p0 + p1 + p2);
            if let Some(m) = c.min_items {
                lemma_in_middle(Seq::empty(), Rule::MinItems(m), p1 + p2);
                assert(Seq::<Rule>::empty() + seq![Rule::MinItems(m)] + (p1 + p2) =~= p0 + p1 + p2);
            }
            if let Some(m) = c.max_items {
                lemma_in_middle(p0, Rule::MaxItems(m), p2);
            }
            if let RustType::Vec(e) = ty {
                if c.unique_items && scalar(*e) {
                    assert(innermost_of(*e) == *e);
                    assert(p2 =~= seq![Rule::UniqueItems { pairwise: *e is F64 }]);
                    lemma_in_middle(p0 + p1, Rule::UniqueItems { pairwise: *e is F64 }, Seq::empty());
                    assert(p0 + p1 + seq![Rule::UniqueItems { pairwise: *e is F64 }] + Seq::<Rule>::empty() =~= p0 + p1 + p2);
                }
            }
        },
        RustType::HashMap(_) => {
            let p0: Seq<Rule> = match c.min_properties {
                Some(m) => seq![Rule::MinProperties(m)],
                None => Seq::empty(),
            };
            let p1: Seq<Rule> = match c.max_properties {
                Some(m) => seq![Rule::MaxProperties(m)],
                None => Seq::empty(),
            };
            assert(rules_for(c, ty) == p0 + p1);
            if let Some(m) = c.min_properties {
                lemma_in_middle(Seq::empty(), Rule::MinProperties(m), p1);
                assert(Seq::<Rule>::empty() + seq![Rule::MinProperties(m)] + p1 =~= p0 + p1);
            }
            if let Some(m) = c.max_properties {
                lemma_in_middle(p0, Rule::MaxProperties(m), Seq::empty());
                assert(p0 + seq![Rule::MaxProperties(m)] + Seq::<Rule>::empty() =~= p0 + p1);
            }
        },
        _ => {},
    }
}

/// The type the rules read: the type an alias resolves to when lowering
/// recorded it, else the field's own type, inside any `Option` or `Box`.
pub open spec fn checked_type_of(field: Field, c: Constraints) -> RustType {
    match c.checked_as {
        Some(ty) => innermost_of(ty),
        None => innermost_of(field.ty),
    }
}

/// The type the rules read.
pub fn checked_type<'a>(field: &'a Field, constraints: &'a Constraints) -> (r: &'a RustType)
    ensures
        *r == checked_type_of(*field, *constraints),
{
    match &constraints.checked_as {
        Some(ty) => ty.innermost(),
        None => field.ty.innermost(),
    }
}

/// Append one rule.
fn push_rule(rules: &mut Vec<Rule>, rule: Rule)
    ensures
        final(rules)@ == old(rules)@.push(rule),
{
    rules.push(rule);
}

/// The rules a set of keywords asks for on the type they read, in the order
/// the generated deserializer applies them.
pub fn rules(constraints: &Constraints, ty: &RustType) -> (r: Vec<Rule>)
    ensures
        r@ == rules_for(*constraints, *ty),
{
    let mut out: Vec<Rule> = Vec::new();
    match ty {
        RustType::String => {
            match &constraints.pattern {
                Some(p) => push_rule(&mut out, Rule::Pattern(p.clone())),
                None => {},
            }
            match constraints.min_length {
                Some(m) => if m > 0 {
                    push_rule(&mut out, Rule::MinLength(m));
                },
                None => {},
            }
            match constraints.max_length {
                Some(m) => push_rule(&mut out, Rule::MaxLength(m)),
                None => {},
            }
            assert(out@ =~= string_rules(*constraints));
        },
        RustType::I32 | RustType::I64 | RustType::F64 => {
            let (lowest, highest) = type_limits(ty);
            match constraints.minimum {
                Some(b) => {
                    if constraints.exclusive_minimum {
                        push_rule(&mut out, Rule::Above(b));
                    } else {
                        let no_value_fails = match b {
                            Bound::Int(v) => match lowest {
                                Some(lo) => v <= lo,
                                None => false,
                            },
                            Bound::Float(_) => false,
                        };
                        if !no_value_fails {
                            push_rule(&mut out, Rule::AtLeast(b));
                        }
                    }
                },
                None => {},
            }
            let ghost after_min = out@;
            assert(after_min =~= minimum_rule(*constraints, *ty));
            match constraints.maximum {
                Some(b) => {
                    if constraints.exclusive_maximum {
                        push_rule(&mut out, Rule::Below(b));
                    } else {
                        let no_value_fails = match b {
                            Bound::Int(v) => match highest {
                                Some(hi) => v >= hi,
                                None => false,
                            },
                            Bound::Float(_) => false,
                        };
                        if !no_value_fails {
                            push_rule(&mut out, Rule::AtMost(b));
                        }
                    }
                },
                None => {},
            }
            assert(out@ =~= after_min + maximum_rule(*constraints, *ty));
            let ghost after_max = out@;
            match constraints.multiple_of {
                Some(b) => push_rule(&mut out, Rule::MultipleOf(b)),
                None => {},
            }
            assert(out@ =~= number_rules(*constraints, *ty));
        },
        RustType::Vec(element) => {
            match constraints.min_items {
                Some(m) => push_rule(&mut out, Rule::MinItems(m)),
                None => {},
            }
            match constraints.max_items {
                Some(m) => push_rule(&mut out, Rule::MaxItems(m)),
                None => {},
            }
            if constraints.unique_items && element.is_scalar() {
                let pairwise = match element.innermost() {
                    RustType::F64 => true,
                    _ => false,
                };
                push_rule(&mut out, Rule::UniqueItems { pairwise });
            }
            assert(out@ =~= array_rules(*constraints, *ty));
        },
        RustType::HashMap(_) => {
            match constraints.min_properties {
                Some(m) => push_rule(&mut out, Rule::MinProperties(m)),
                None => {},
            }
            match constraints.max_properties {
                Some(m) => push_rule(&mut out, Rule::MaxProperties(m)),
                None => {},
            }
            assert(out@ =~= map_rules(*constraints));
        },
        _ => {},
    }
    out
}

/// Whether a field carries a keyword the generator can check on its type.
///
/// A keyword the type cannot use is dropped: `minLength` on an integer parses,
/// and means nothing.
pub fn is_checked(field: &Field) -> (r: bool)
    ensures
        r == (field.constraints matches Some(c) && rules_for(c, checked_type_of(*field, c)).len() > 0),
{
    match &field.constraints {
        None => false,
        Some(c) => rules(c, checked_type(field, c)).len() > 0,
    }
}

/// The message `regex` gives for a pattern it cannot compile, or `None` when
/// it compiles: what `regex::Regex::new` answers, a function of the pattern.
pub uninterp spec fn regex_error(pattern: Seq<char>) -> Option<Seq<char>>;

/// The text of an optional message.
pub open spec fn opt_text(o: Option<String>) -> Option<Seq<char>> {
    match o {
        Some(s) => Some(s@),
        None => None,
    }
}

/// Compiles `pattern` with `regex::Regex::new` and gives the error's `Display`
/// text when it fails. The contract claims only that the answer is a function
/// of the pattern.
#[verifier::external_body]
fn regex_problem(pattern: &str) -> (r: Option<String>)
    ensures
        opt_text(r) == regex_error(pattern@),
{
    match regex::Regex::new(pattern) {
        Ok(_) => None,
        Err(e) => Some(e.to_string()),
    }
}

/// Reject a `pattern` the generated code could not compile: the generator
/// compiles it too, so the compiled code's own `expect` cannot fire. A pattern
/// on a field whose checked type is not a string is not read at all.
pub fn check_pattern(field: &Field, constraints: &Constraints) -> (r: Result<(), Error>)
    ensures
        match constraints.pattern {
            None => r is Ok,
            Some(p) => if checked_type_of(*field, *constraints) != RustType::String {
                r is Ok
            } else {
                match regex_error(p@) {
                    None => r is Ok,
                    Some(problem) => (r matches Err(Error::UnsupportedSchema { path, reason }) && path@ == field.name@
                        && reason@ == "the `pattern` `"@ + p@ + "` does not read as a regular expression: "@ + problem),
                }
            },
        },
{
    let pattern = match &constraints.pattern {
        Some(p) => p,
        None => return Ok(()),
    };
    match checked_type(field, constraints) {
        RustType::String => {},
        _ => return Ok(()),
    }
    match regex_problem(pattern.as_str()) {
        None => Ok(()),
        Some(problem) => {
            let mut reason = owned("the `pattern` `");
            push_str(&mut reason, pattern.as_str());
            push_str(&mut reason, "` does not read as a regular expression: ");
            push_str(&mut reason, problem.as_str());
            Err(Error::UnsupportedSchema { path: owned(field.name.logical()), reason })
        },
    }
}

} // verus!
