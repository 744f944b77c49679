//! Warnings about a document, each located by a JSON pointer.

use vstd::prelude::*;

use crate::text::chars_of;
use crate::text::owned;
use crate::text::push_char;
use crate::text::push_str;

verus! {

/// A warning about one place in a document.
#[derive(Debug, Clone, PartialEq, Eq)]
pub struct Warning {
    /// The JSON pointer to the place.
    pub path: String,
    /// What is wrong there.
    pub message: String,
}

impl Warning {
    /// A warning at `path` saying `message`.
    pub fn new(path: &str, message: &str) -> (w: Warning)
        ensures
            w.path@ == path@,
            w.message@ == message@,
    {
        Warning { path: owned(path), message: owned(message) }
    }
}

/// One character of a key as a JSON-pointer token writes it: `~` as `~0`, `/`
/// as `~1`, any other character as itself.
pub open spec fn escape_char(c: char) -> Seq<char> {
    if c == '~' {
        seq!['~', '0']
    } else if c == '/' {
        seq!['~', '1']
    } else {
        seq![c]
    }
}

/// A key as a JSON-pointer token.
pub open spec fn escape(s: Seq<char>) -> Seq<char>
    decreases s.len(),
{
    if s.len() == 0 {
        Seq::empty()
    } else {
        escape(s.drop_last()) + escape_char(s.last())
    }
}

/// The pointer to member `key` of the object at `parent`.
pub open spec fn pointer_text(parent: Seq<char>, key: Seq<char>) -> Seq<char> {
    parent + seq!['/'] + escape(key)
}

/// The JSON pointer to member `key` of the object at `parent`.
pub fn pointer(parent: &str, key: &str) -> (r: String)
    ensures
        r@ == pointer_text(parent@, key@),
{
    let mut r = owned(parent);
    push_char(&mut r, '/');
    let ghost base = r@;
    let cs = chars_of(key);
    let mut k: usize = 0;
    while k < cs.len()
        invariant
            k <= cs@.len(),
            cs@ == key@,
            r@ == base + escape(cs@.take(k as int)),
        decreases cs@.len() - k,
    {
        let c = cs[k];
        if c == '~' {
            push_char(&mut r, '~');
            push_char(&mut r, '0');
        } else if c == '/' {
            push_char(&mut r, '~');
            push_char(&mut r, '1');
        } else {
            push_char(&mut r, c);
        }
        proof {
            assert(cs@.take(k + 1).drop_last() =~= cs@.take(k as int));
            assert(r@ =~= base + escape(cs@.take(k + 1)));
        }
        k = k + 1;
    }
    assert(cs@.take(cs@.len() as int) =~= cs@);
    r
}

} // verus!

verus! {

/// An escaped key holds no `/`, so the last token of a pointer is exactly the
/// escaped key and a pointer names one member.
pub proof fn escape_has_no_slash(key: Seq<char>)
    ensures
        !escape(key).contains('/'),
    decreases key.len(),
{
    if key.len() > 0 {
        escape_has_no_slash(key.drop_last());
        let c = key.last();
        assert(!escape_char(c).contains('/'));
        let whole = escape(key.drop_last()) + escape_char(c);
        assert(escape(key) == whole);
        assert forall|i: int| 0 <= i < whole.len() implies whole[i] != '/' by {
            if i < escape(key.drop_last()).len() {
                assert(whole[i] == escape(key.drop_last())[i]);
            } else {
                assert(whole[i] == escape_char(c)[i - escape(key.drop_last()).len()]);
            }
        }
    }
}

/// A pointer is its parent, a `/`, and the escaped key.
pub proof fn pointer_extends_parent(parent: Seq<char>, key: Seq<char>)
    ensures
        pointer_text(parent, key).subrange(0, parent.len() as int) == parent,
        pointer_text(parent, key)[parent.len() as int] == '/',
        pointer_text(parent, key).skip(parent.len() + 1int) == escape(key),
{
    let p = pointer_text(parent, key);
    assert(p.subrange(0, parent.len() as int) =~= parent);
    assert(p.skip(parent.len() + 1int) =~= escape(key));
}

} // verus!

verus! {

/// A JSON-pointer token read back as the key it names (RFC 6901): `~0` reads
/// as `~`, `~1` as `/`, any other character as itself.
pub open spec fn unescape(s: Seq<char>) -> Seq<char>
    decreases s.len(),
{
    if s.len() == 0 {
        Seq::empty()
    } else if s.len() >= 2 && s[0] == '~' && s[1] == '0' {
        seq!['~'] + unescape(s.skip(2))
    } else if s.len() >= 2 && s[0] == '~' && s[1] == '1' {
        seq!['/'] + unescape(s.skip(2))
    } else {
        seq![s[0]] + unescape(s.skip(1))
    }
}

/// Escaping a joined key escapes each part.
proof fn lemma_escape_concat(a: Seq<char>, b: Seq<char>)
    ensures
        escape(a + b) == escape(a) + escape(b),
    decreases b.len(),
{
    if b.len() == 0 {
        assert(a + b =~= a);
        assert(escape(a) + escape(b) =~= escape(a));
    } else {
        lemma_escape_concat(a, b.drop_last());
        assert((a + b).drop_last() =~= a + b.drop_last());
        assert((a + b).last() == b.last());
        assert(escape(a + b) =~= escape(a) + escape(b));
    }
}

/// Reading an escaped key back gives the key.
pub proof fn unescape_recovers_the_key(key: Seq<char>)
    ensures
        unescape(escape(key)) == key,
    decreases key.len(),
{
    if key.len() > 0 {
        let c = key[0];
        let rest = key.skip(1);
        assert(key =~= seq![c] + rest);
        lemma_escape_concat(seq![c], rest);
        assert(seq![c].drop_last() =~= Seq::<char>::empty());
        assert(seq![c].last() == c);
        assert(escape(Seq::<char>::empty()) =~= Seq::<char>::empty());
        assert(escape(seq![c]) == escape(seq![c].drop_last()) + escape_char(seq![c].last()));
        assert(escape(seq![c]) =~= escape_char(c));
        unescape_recovers_the_key(rest);
        let e = escape(key);
        assert(e == escape_char(c) + escape(rest));
        if c == '~' || c == '/' {
            assert(e.skip(2) =~= escape(rest));
        } else {
            assert(e.skip(1) =~= escape(rest));
        }
    } else {
        assert(escape(key) =~= Seq::<char>::empty());
    }
}

/// The pointer to a member ends in a token that reads back as the member's key.
pub proof fn pointer_names_its_key(parent: Seq<char>, key: Seq<char>)
    ensures
        pointer_text(parent, key).subrange(0, parent.len() as int) == parent,
        unescape(pointer_text(parent, key).skip(parent.len() + 1int)) == key,
        !pointer_text(parent, key).skip(parent.len() + 1int).contains('/'),
{
    pointer_extends_parent(parent, key);
    unescape_recovers_the_key(key);
    escape_has_no_slash(key);
}

} // verus!
