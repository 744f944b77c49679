//! Reading `$ref` strings: which file a reference points into, and which
//! component it names.

use vstd::prelude::*;

pub mod chain;
pub mod model;
pub mod split;

use crate::text::chars_of;
use crate::text::has_prefix;
use crate::text::owned;
use crate::text::push_str;
use crate::text::same_text;

verus! {

/// A resolved structural object plus the referenced file it came from.
#[derive(Debug, Clone)]
pub struct Resolved<T> {
    /// The concrete, owned object.
    pub value: T,
    /// The referenced file the object was ultimately resolved from, written
    /// exactly as it appears in the `$ref`, or `None` for a same-document or
    /// inline object.
    pub origin: Option<String>,
}

/// Whether position `i` holds the first `c` of `s`.
pub open spec fn first_at(s: Seq<char>, c: char, i: int) -> bool {
    &&& 0 <= i < s.len()
    &&& s[i] == c
    &&& forall|j: int| 0 <= j < i ==> s[j] != c
}

/// The text before the first `#`, when there is one and it is not empty.
pub open spec fn file_part(r: Seq<char>) -> Option<Seq<char>> {
    if exists|i: int| first_at(r, '#', i) {
        let i = choose|i: int| first_at(r, '#', i);
        if i > 0 {
            Some(r.take(i))
        } else {
            None
        }
    } else {
        None
    }
}

/// The fragment of a reference: the text between the first `#` and the next
/// one (or the end), or the whole reference when it holds no `#`.
pub open spec fn fragment(r: Seq<char>) -> Seq<char> {
    if exists|i: int| first_at(r, '#', i) {
        let i = choose|i: int| first_at(r, '#', i);
        let rest = r.skip(i + 1);
        if exists|j: int| first_at(rest, '#', j) {
            rest.take(choose|j: int| first_at(rest, '#', j))
        } else {
            rest
        }
    } else {
        r
    }
}

/// The pointer prefix of a component kind.
pub open spec fn kind_prefix(kind: Seq<char>) -> Option<Seq<char>> {
    if kind == "schemas"@ {
        Some("/components/schemas/"@)
    } else if kind == "responses"@ {
        Some("/components/responses/"@)
    } else if kind == "parameters"@ {
        Some("/components/parameters/"@)
    } else if kind == "requestBodies"@ {
        Some("/components/requestBodies/"@)
    } else {
        None
    }
}

/// The component of the given kind a reference names: the fragment after the
/// kind's prefix, when that is one non-empty segment.
pub open spec fn component_name(r: Seq<char>, kind: Seq<char>) -> Option<Seq<char>> {
    match kind_prefix(kind) {
        None => None,
        Some(prefix) => {
            let f = fragment(r);
            let name = f.skip(prefix.len() as int);
            if has_prefix(f, prefix) && name.len() > 0 && !name.contains('/') {
                Some(name)
            } else {
                None
            }
        },
    }
}

/// The schema a same-document reference names.
pub open spec fn target_name(r: Seq<char>) -> Option<Seq<char>> {
    if file_part(r) is Some {
        None
    } else {
        component_name(r, "schemas"@)
    }
}

/// The text of an optional string slice.
pub open spec fn opt_text(o: Option<&str>) -> Option<Seq<char>> {
    match o {
        Some(s) => Some(s@),
        None => None,
    }
}

/// The position of the first `c` in `cs` at or after `from`, if any.
pub(crate) fn find_from(cs: &Vec<char>, c: char, from: usize) -> (r: Option<usize>)
    requires
        from <= cs@.len(),
    ensures
        r matches Some(i) ==> from <= i < cs@.len() && cs@[i as int] == c && forall|j: int| from <= j < i ==> cs@[j] != c,
        r is None ==> forall|j: int| from <= j < cs@.len() ==> cs@[j] != c,
{
    let mut i = from;
    while i < cs.len()
        invariant
            from <= i <= cs@.len(),
            forall|j: int| from <= j < i ==> cs@[j] != c,
        decreases cs@.len() - i,
    {
        if cs[i] == c {
            return Some(i);
        }
        i = i + 1;
    }
    None
}

/// The first `#` of `r`, as the spec names it.
proof fn lemma_first_hash(r: Seq<char>, i: int)
    requires
        first_at(r, '#', i),
    ensures
        (choose|k: int| first_at(r, '#', k)) == i,
{
    let k = choose|k: int| first_at(r, '#', k);
    assert(first_at(r, '#', k));
    if k < i {
        assert(r[k] != '#');
    } else if k > i {
        assert(r[i] != '#');
    }
}

/// The file part of a cross-file `$ref` (the text before `#`), or `None` for a
/// same-document reference such as `#/components/schemas/Foo`.
pub fn ref_file_part(reference: &str) -> (r: Option<&str>)
    ensures
        opt_text(r) == file_part(reference@),
{
    let cs = chars_of(reference);
    match find_from(&cs, '#', 0) {
        Some(i) => {
            proof {
                assert(first_at(reference@, '#', i as int));
                lemma_first_hash(reference@, i as int);
            }
            if i > 0 {
                Some(reference.substring_char(0, i))
            } else {
                None
            }
        },
        None => None,
    }
}

/// The fragment of a reference, as a slice of it.
fn fragment_of(reference: &str) -> (f: &str)
    ensures
        f@ == fragment(reference@),
{
    let cs = chars_of(reference);
    match find_from(&cs, '#', 0) {
        Some(i) => {
            proof {
                assert(first_at(reference@, '#', i as int));
                lemma_first_hash(reference@, i as int);
            }
            let ghost rest = reference@.skip(i + 1);
            assert(i < cs.len());
            match find_from(&cs, '#', i + 1) {
                Some(j) => {
                    proof {
                        let k = j - (i + 1);
                        assert forall|m: int| 0 <= m < k implies rest[m] != '#' by {
                            assert(rest[m] == cs@[i + 1 + m]);
                        }
                        assert(first_at(rest, '#', k));
                        lemma_first_hash(rest, k);
                        assert(reference@.subrange(i + 1, j as int) =~= rest.take(k));
                    }
                    reference.substring_char(i + 1, j)
                },
                None => {
                    proof {
                        assert forall|m: int| !first_at(rest, '#', m) by {
                            if 0 <= m < rest.len() {
                                assert(rest[m] == cs@[i + 1 + m]);
                            }
                        }
                        assert(reference@.subrange(i + 1, reference@.len() as int) =~= rest);
                    }
                    reference.substring_char(i + 1, cs.len())
                },
            }
        },
        None => {
            assert(reference@.subrange(0, reference@.len() as int) =~= reference@);
            reference.substring_char(0, cs.len())
        },
    }
}

/// The pointer prefix of a component kind, when the kind is one of the four.
fn prefix_of(kind: &str) -> (p: Option<&'static str>)
    ensures
        opt_text(p) == kind_prefix(kind@),
{
    if same_text(kind, "schemas") {
        Some("/components/schemas/")
    } else if same_text(kind, "responses") {
        Some("/components/responses/")
    } else if same_text(kind, "parameters") {
        Some("/components/parameters/")
    } else if same_text(kind, "requestBodies") {
        Some("/components/requestBodies/")
    } else {
        None
    }
}

/// Extract the trailing component name of the given `kind` (`schemas`,
/// `responses`, `parameters`, or `requestBodies`) from a (possibly cross-file)
/// `$ref`.
pub fn ref_component_name<'a>(reference: &'a str, kind: &str) -> (r: Option<&'a str>)
    ensures
        opt_text(r) == component_name(reference@, kind@),
{
    let f = fragment_of(reference);
    let prefix = match prefix_of(kind) {
        Some(p) => p,
        None => return None,
    };
    if !crate::text::starts_with_text(f, prefix) {
        return None;
    }
    let fs = chars_of(f);
    let plen = prefix.unicode_len();
    let name = f.substring_char(plen, fs.len());
    proof {
        assert(f@.subrange(plen as int, f@.len() as int) =~= f@.skip(plen as int));
    }
    if name.unicode_len() == 0 {
        return None;
    }
    let ns = chars_of(name);
    match find_from(&ns, '/', 0) {
        Some(k) => {
            assert(name@[k as int] == '/');
            None
        },
        None => {
            assert(!name@.contains('/'));
            Some(name)
        },
    }
}

/// Extract the trailing schema name from a same-document `$ref`
/// (`#/components/schemas/Foo` -> `Foo`).
///
/// A cross-file reference yields `None`: the models pipeline and the
/// same-document resolver only handle in-document schemas.
pub fn ref_target_name(reference: &str) -> (r: Option<&str>)
    ensures
        opt_text(r) == target_name(reference@),
{
    if ref_file_part(reference).is_some() {
        return None;
    }
    ref_component_name(reference, "schemas")
}

/// The text [`schema_ref_reason`] gives for a reference at `site`.
pub open spec fn ref_reason_text(r: Seq<char>, site: Seq<char>) -> Seq<char> {
    if file_part(r) is Some {
        "a cross-file ref does not resolve at "@ + site
    } else {
        site + " must reference `#/components/schemas/<name>`"@
    }
}

/// The reason a schema `$ref` at `site` gives no name.
///
/// [`ref_target_name`] answers `None` for two different faults with different
/// remedies: a cross-file ref names a schema and still fails, so the reason
/// names the fault. `site` reads into the sentence, for example `a property`.
pub fn schema_ref_reason(reference: &str, site: &str) -> (r: String)
    ensures
        r@ == ref_reason_text(reference@, site@),
{
    if ref_file_part(reference).is_some() {
        let mut r = owned("a cross-file ref does not resolve at ");
        push_str(&mut r, site);
        return r;
    }
    let mut r = owned(site);
    push_str(&mut r, " must reference `#/components/schemas/<name>`");
    r
}

} // verus!

verus! {

/// The text with white space taken off its start.
pub open spec fn trim_start(s: Seq<char>) -> Seq<char>
    decreases s.len(),
{
    if s.len() > 0 && crate::console::is_space(s[0]) {
        trim_start(s.subrange(1, s.len() as int))
    } else {
        s
    }
}

/// The text with white space taken off its end.
pub open spec fn trim_end(s: Seq<char>) -> Seq<char>
    decreases s.len(),
{
    if s.len() > 0 && crate::console::is_space(s[s.len() - 1]) {
        trim_end(s.subrange(0, s.len() - 1))
    } else {
        s
    }
}

/// The text with white space taken off both ends.
pub open spec fn trim(s: Seq<char>) -> Seq<char> {
    trim_end(trim_start(s))
}

/// The text with white space taken off both ends.
pub fn trimmed(s: &str) -> (r: &str)
    ensures
        r@ == trim(s@),
{
    let cs = chars_of(s);
    let mut a: usize = 0;
    assert(cs@.subrange(0, cs@.len() as int) =~= cs@);
    while a < cs.len() && crate::console::space_char(cs[a])
        invariant
            a <= cs@.len(),
            cs@ == s@,
            trim_start(s@) == trim_start(cs@.subrange(a as int, cs@.len() as int)),
        decreases cs@.len() - a,
    {
        proof {
            let rest = cs@.subrange(a as int, cs@.len() as int);
            assert(rest.subrange(1, rest.len() as int) =~= cs@.subrange(a + 1, cs@.len() as int));
        }
        a = a + 1;
    }
    proof {
        let rest = cs@.subrange(a as int, cs@.len() as int);
        assert(trim_start(rest) == rest);
    }
    let mut b: usize = cs.len();
    while b > a && crate::console::space_char(cs[b - 1])
        invariant
            a <= b <= cs@.len(),
            cs@ == s@,
            trim(s@) == trim_end(cs@.subrange(a as int, b as int)),
        decreases b - a,
    {
        proof {
            let rest = cs@.subrange(a as int, b as int);
            assert(rest.subrange(0, rest.len() - 1) =~= cs@.subrange(a as int, b - 1));
        }
        b = b - 1;
    }
    proof {
        let rest = cs@.subrange(a as int, b as int);
        assert(trim_end(rest) == rest);
    }
    s.substring_char(a, b)
}

/// Whether a declared `openapi:` version is a release of 3.0: `3.0` itself or
/// `3.0.` and a patch part. The dot keeps a `3.00` from reading as `3.0`.
pub open spec fn supported_version(version: Seq<char>) -> bool {
    version == "3.0"@ || has_prefix(version, "3.0."@)
}

/// The version check's outcome for a parsed document: a declared `openapi:`
/// string that is not a 3.0 release is an error naming the trimmed version; no
/// declaration, or one that is not a string, passes (the typed parse reports it).
pub open spec fn version_outcome(document: Seq<char>, value: crate::yaml::Yaml) -> Option<Seq<char>> {
    match crate::coverage::get_str(value, "openapi"@) {
        Some(v) => if supported_version(trim(v)) {
            None
        } else {
            Some(trim(v))
        },
        None => None,
    }
}

/// Reject a document whose `openapi:` value is not a release of OpenAPI 3.0.
///
/// The typed parser ignores the `openapi:` value, so without this check it
/// reads whatever subset of another version's document happens to match, and
/// reports nothing.
pub fn check_spec_version(document: &str, value: &crate::yaml::Yaml) -> (r: Result<(), crate::error::Error>)
    ensures
        match version_outcome(document@, *value) {
            None => r is Ok,
            Some(v) => r matches Err(crate::error::Error::UnsupportedSpecVersion { document: d, version, hint }) && d@
                == document@ && version@ == v && hint@ == "The generator reads OpenAPI 3.0.x only."@,
        },
{
    let version = match crate::coverage::lookup(value, "openapi") {
        Some(x) => match x.as_str() {
            Some(v) => v,
            None => return Ok(()),
        },
        None => return Ok(()),
    };
    let version = trimmed(version);
    if same_text(version, "3.0") || crate::text::starts_with_text(version, "3.0.") {
        return Ok(());
    }
    Err(
        crate::error::Error::UnsupportedSpecVersion {
            document: owned(document),
            version: owned(version),
            hint: owned("The generator reads OpenAPI 3.0.x only."),
        },
    )
}

/// Whether a parsed document declares `webhooks:` at its top level, a key that
/// carries operations the generator cannot emit.
pub open spec fn declares_webhooks(value: crate::yaml::Yaml) -> bool {
    match crate::yaml::untag(value) {
        crate::yaml::Yaml::Mapping(es) => crate::coverage::entry_value(es@, "webhooks"@) is Some,
        _ => false,
    }
}

/// Reject a document that declares a top-level key holding operations the
/// generator cannot emit. Ignoring such a key would emit no handler for any
/// operation inside it, and read as a document that declares none.
pub fn check_top_level_keys(value: &crate::yaml::Yaml) -> (r: Result<(), crate::error::Error>)
    ensures
        !declares_webhooks(*value) ==> r is Ok,
        declares_webhooks(*value) ==> (r matches Err(crate::error::Error::UnsupportedSpecKey { key, reason, hint }) && key@
            == "webhooks"@ && reason@ == "declares operations the generator cannot emit"@ && hint@
            == "Remove `webhooks:`, or move its operations under `paths:`. Silently ignoring it emits no handler for any operation it holds."@),
{
    if value.as_mapping().is_none() {
        return Ok(());
    }
    if crate::coverage::lookup(value, "webhooks").is_some() {
        return Err(
            crate::error::Error::UnsupportedSpecKey {
                key: owned("webhooks"),
                reason: owned("declares operations the generator cannot emit"),
                hint: owned(
                    "Remove `webhooks:`, or move its operations under `paths:`. Silently ignoring it emits no handler for any operation it holds.",
                ),
            },
        );
    }
    Ok(())
}

} // verus!

verus! {

/// What the sweep over a document gives as its outcome.
pub open spec fn sweep_outcome(document: Seq<char>, value: crate::yaml::Yaml, r: Result<(), crate::error::Error>) -> bool {
    let f = crate::coverage::object_findings(value, crate::coverage::Context::Document, Seq::empty(), 0);
    match r {
        Ok(_) => f.problems.len() == 0,
        Err(crate::error::Error::Validation { problems }) => f.problems.len() >= 2 && crate::coverage::problem_texts(
            problems@,
        ) == f.problems,
        Err(e) => f.problems.len() == 1 && crate::coverage::problem_texts(seq![e]) == f.problems,
    }
}

/// Check a parsed document before its typed parse, in the order the gates
/// run: the version gate, then the top-level key gate, then the coverage sweep.
/// A document that fails a gate is not swept, so it gives no warnings.
pub fn check_document(document: &str, value: &crate::yaml::Yaml) -> (r: (
    Vec<crate::diagnostic::Warning>,
    Result<(), crate::error::Error>,
))
    ensures
        version_outcome(document@, *value) matches Some(v) ==> r.0@.len() == 0 && (r.1 matches Err(
            crate::error::Error::UnsupportedSpecVersion { document: d, version, .. },
        ) && d@ == document@ && version@ == v),
        version_outcome(document@, *value) is None && declares_webhooks(*value) ==> r.0@.len() == 0 && (r.1 matches Err(
            crate::error::Error::UnsupportedSpecKey { key, .. },
        ) && key@ == "webhooks"@),
        version_outcome(document@, *value) is None && !declares_webhooks(*value) ==> crate::config::warning_texts(r.0@)
            == crate::coverage::object_findings(*value, crate::coverage::Context::Document, Seq::empty(), 0).warnings
            && sweep_outcome(document@, *value, r.1),
{
    match check_spec_version(document, value) {
        Err(e) => return (Vec::new(), Err(e)),
        Ok(()) => {},
    }
    match check_top_level_keys(value) {
        Err(e) => return (Vec::new(), Err(e)),
        Ok(()) => {},
    }
    crate::coverage::check(document, value)
}

} // verus!

verus! {

/// Check a document's text before its typed parse: the gates and the sweep
/// over what the text parses to, or the parser's message when it does not parse.
pub fn check_document_text(document: &str, text: &str) -> (r: Result<
    (Vec<crate::diagnostic::Warning>, Result<(), crate::error::Error>),
    String,
>)
    ensures
        match crate::yaml::yaml_parse(text@) {
            Ok(value) => r matches Ok(checked) && (version_outcome(document@, value) is None && !declares_webhooks(value)
                ==> crate::config::warning_texts(checked.0@) == crate::coverage::object_findings(
                value,
                crate::coverage::Context::Document,
                Seq::empty(),
                0,
            ).warnings && sweep_outcome(document@, value, checked.1)) && (version_outcome(document@, value) matches Some(
                v,
            ) ==> checked.0@.len() == 0 && (checked.1 matches Err(
                crate::error::Error::UnsupportedSpecVersion { document: d, version, .. },
            ) && d@ == document@ && version@ == v)) && (version_outcome(document@, value) is None && declares_webhooks(
                value,
            ) ==> checked.0@.len() == 0 && (checked.1 matches Err(crate::error::Error::UnsupportedSpecKey { key, .. })
                && key@ == "webhooks"@)),
            Err(message) => r matches Err(e) && e@ == message,
        },
{
    match crate::yaml::parse_yaml(text) {
        Ok(value) => Ok(check_document(document, &value)),
        Err(message) => Err(message),
    }
}

} // verus!

verus! {

/// The file part of a reference does not change the component it names: a
/// cross-file reference names what the same fragment names in its own file.
/// The name is there exactly when the fragment is the kind's pointer prefix
/// followed by a non-empty name with no `/`.
pub proof fn component_name_ignores_the_file(file: Seq<char>, frag: Seq<char>, kind: Seq<char>)
    requires
        !file.contains('#'),
        !frag.contains('#'),
    ensures
        component_name(file + seq!['#'] + frag, kind) == component_name(seq!['#'] + frag, kind),
        forall|n: Seq<char>|
            component_name(seq!['#'] + frag, kind) == Some(n) <==> (kind_prefix(kind) matches Some(p) && frag == p + n
                && n.len() > 0 && !n.contains('/')),
{
    lemma_fragment_after_hash(file, frag);
    lemma_fragment_after_hash(Seq::empty(), frag);
    assert(Seq::<char>::empty() + seq!['#'] + frag =~= seq!['#'] + frag);
    assert forall|n: Seq<char>|
        component_name(seq!['#'] + frag, kind) == Some(n) <==> (kind_prefix(kind) matches Some(p) && frag == p + n
            && n.len() > 0 && !n.contains('/')) by {
        match kind_prefix(kind) {
            Some(p) => {
                if frag == p + n {
                    assert(frag.subrange(0, p.len() as int) =~= p);
                    assert(frag.skip(p.len() as int) =~= n);
                }
                if has_prefix(frag, p) {
                    assert(frag =~= p + frag.skip(p.len() as int));
                }
            },
            None => {},
        }
    }
}

/// The fragment of `file#frag` is `frag` when neither part holds a `#`.
proof fn lemma_fragment_after_hash(file: Seq<char>, frag: Seq<char>)
    requires
        !file.contains('#'),
        !frag.contains('#'),
    ensures
        fragment(file + seq!['#'] + frag) == frag,
{
    let r = file + seq!['#'] + frag;
    let i = file.len() as int;
    assert(r[i] == '#');
    assert forall|j: int| 0 <= j < i implies r[j] != '#' by {
        assert(r[j] == file[j]);
    }
    assert(first_at(r, '#', i));
    let k = choose|k: int| first_at(r, '#', k);
    assert(first_at(r, '#', k));
    if k < i {
        assert(r[k] != '#');
    } else if k > i {
        assert(r[i] != '#');
    }
    let rest = r.skip(i + 1);
    assert(rest =~= frag);
    assert forall|j: int| !first_at(rest, '#', j) by {
        if 0 <= j < rest.len() {
            assert(rest[j] == frag[j]);
        }
    }
}

} // verus!
