//! Rust identifiers built from names that a document writes.
//!
//! The word-splitting rules are this library's own, chosen here and stated
//! below. A name splits into words at every character that is not an ASCII letter or
//! digit, and before an upper-case letter that follows a lower-case letter or a
//! digit (`fooBar` is `foo` and `Bar`). `PascalCase` capitalises the first letter
//! of each word and keeps the rest. `snake_case` lowers every letter and joins
//! the words with `_`.

use vstd::prelude::*;

use crate::text::push_char;

verus! {

/// An ASCII lower-case letter.
pub open spec fn is_lower(c: char) -> bool {
    'a' <= c && c <= 'z'
}

/// An ASCII upper-case letter.
pub open spec fn is_upper(c: char) -> bool {
    'A' <= c && c <= 'Z'
}

/// An ASCII digit.
pub open spec fn is_digit(c: char) -> bool {
    '0' <= c && c <= '9'
}

/// A character that belongs to a word.
pub open spec fn is_word_char(c: char) -> bool {
    is_lower(c) || is_upper(c) || is_digit(c)
}

/// `c` in upper case, for an ASCII letter.
pub open spec fn upper_of(c: char) -> char {
    if is_lower(c) { ((c as u32) - 32) as char } else { c }
}

/// `c` in lower case, for an ASCII letter.
pub open spec fn lower_of(c: char) -> char {
    if is_upper(c) { ((c as u32) + 32) as char } else { c }
}

/// Whether the word character at `i` starts a word.
pub open spec fn starts_word(s: Seq<char>, i: int) -> bool {
    ||| i == 0
    ||| !is_word_char(s[i - 1])
    ||| (is_upper(s[i]) && (is_lower(s[i - 1]) || is_digit(s[i - 1])))
}

/// The identifier case to build.
#[derive(Debug, Clone, Copy, PartialEq, Eq)]
pub enum Case {
    /// `PascalCase`, for type and variant names.
    Pascal,
    /// `snake_case`, for field, method, and module names.
    Snake,
}

/// The `PascalCase` form of the first `n` characters of `s`.
pub open spec fn pascal_prefix(s: Seq<char>, n: int) -> Seq<char>
    decreases n,
{
    if n <= 0 {
        Seq::empty()
    } else {
        let before = pascal_prefix(s, n - 1);
        let c = s[n - 1];
        if !is_word_char(c) {
            before
        } else if starts_word(s, n - 1) {
            before.push(upper_of(c))
        } else {
            before.push(c)
        }
    }
}

/// The `snake_case` form of the first `n` characters of `s`.
pub open spec fn snake_prefix(s: Seq<char>, n: int) -> Seq<char>
    decreases n,
{
    if n <= 0 {
        Seq::empty()
    } else {
        let before = snake_prefix(s, n - 1);
        let c = s[n - 1];
        if !is_word_char(c) {
            before
        } else if starts_word(s, n - 1) && before.len() > 0 {
            before.push('_').push(lower_of(c))
        } else {
            before.push(lower_of(c))
        }
    }
}

/// The identifier `s` gives in `case`.
pub open spec fn ident_text(s: Seq<char>, case: Case) -> Seq<char> {
    match case {
        Case::Pascal => pascal_prefix(s, s.len() as int),
        Case::Snake => snake_prefix(s, s.len() as int),
    }
}

/// A Rust identifier, by the text it reads as.
#[derive(Debug, Clone, PartialEq, Eq)]
pub struct RustIdent {
    text: String,
}

impl View for RustIdent {
    type V = Seq<char>;

    closed spec fn view(&self) -> Seq<char> {
        self.text@
    }
}

impl RustIdent {
    /// An identifier that reads as `text`, taken as written.
    pub fn new(text: &str) -> (r: RustIdent)
        ensures
            r@ == text@,
    {
        RustIdent { text: text.to_owned() }
    }

    /// The text of the identifier.
    pub fn logical(&self) -> (r: &str)
        ensures
            r@ == self@,
    {
        self.text.as_str()
    }

    /// A copy of the identifier.
    pub fn copy(&self) -> (r: RustIdent)
        ensures
            r@ == self@,
    {
        RustIdent { text: self.text.clone() }
    }
}

fn to_upper_char(c: char) -> (r: char)
    ensures
        r == upper_of(c),
{
    if 'a' <= c && c <= 'z' {
        let v: u8 = (c as u8) - 32;
        v as char
    } else {
        c
    }
}

fn to_lower_char(c: char) -> (r: char)
    ensures
        r == lower_of(c),
{
    if 'A' <= c && c <= 'Z' {
        let v: u8 = (c as u8) + 32;
        v as char
    } else {
        c
    }
}

fn word_char(c: char) -> (r: bool)
    ensures
        r == is_word_char(c),
{
    ('a' <= c && c <= 'z') || ('A' <= c && c <= 'Z') || ('0' <= c && c <= '9')
}

/// The identifier that `name` gives in `case`.
pub fn to_ident(name: &str, case: Case) -> (r: RustIdent)
    ensures
        r@ == ident_text(name@, case),
{
    let cs = crate::text::chars_of(name);
    let mut out = String::new();
    let mut i: usize = 0;
    while i < cs.len()
        invariant
            cs@ == name@,
            i <= cs@.len(),
            out@ == (match case {
                Case::Pascal => pascal_prefix(cs@, i as int),
                Case::Snake => snake_prefix(cs@, i as int),
            }),
        decreases cs@.len() - i,
    {
        let c = cs[i];
        if word_char(c) {
            let start = i == 0 || !word_char(cs[i - 1]) || (('A' <= c && c <= 'Z') && (('a' <= cs[i
                - 1] && cs[i - 1] <= 'z') || ('0' <= cs[i - 1] && cs[i - 1] <= '9')));
            assert(start == starts_word(cs@, i as int));
            match case {
                Case::Pascal => {
                    if start {
                        push_char(&mut out, to_upper_char(c));
                    } else {
                        push_char(&mut out, c);
                    }
                },
                Case::Snake => {
                    if start && out.as_str().unicode_len() > 0 {
                        push_char(&mut out, '_');
                    }
                    push_char(&mut out, to_lower_char(c));
                },
            }
        }
        i = i + 1;
    }
    RustIdent { text: out }
}

} // verus!
