//! The external crates generated code requires.
//!
//! Cargo never infers dependencies from `use` paths, and a path like
//! `http::StatusCode` reveals neither the crate version nor the Cargo features a
//! consumer must enable. The generator knows exactly what it emitted, so it
//! reports the crates (with versions and features) a consumer should add to
//! `Cargo.toml`.
//!
//! The set is read off the generated source: the crate-root paths and method
//! calls the emitters produce. Reading it from the output keeps the report in
//! step with the emitters without a parallel rule set to maintain.

use vstd::prelude::*;

use crate::text::contains_text;
use crate::text::has_sub;
use crate::text::join;
use crate::text::join_strs;
use crate::text::owned;
use crate::text::push_str;
use crate::text::str_views;

verus! {

/// Recommended version requirements, pinned to the major series the generated
/// code is written against.
pub const V_SERDE: &'static str = "1";
pub const V_SERDE_JSON: &'static str = "1";
pub const V_CHRONO: &'static str = "0.4";
pub const V_UUID: &'static str = "1";
pub const V_HTTP: &'static str = "1";
pub const V_AXUM: &'static str = "0.8";
pub const V_AXUM_EXTRA: &'static str = "0.12";
pub const V_REQWEST: &'static str = "0.13";
pub const V_PERCENT_ENCODING: &'static str = "2";
pub const V_SERDE_URLENCODED: &'static str = "0.7";

/// A crate the generated code references, with the version requirement and Cargo
/// features a consumer should declare in `Cargo.toml`.
#[derive(Debug, Clone, PartialEq, Eq)]
pub struct Dependency {
    /// The crates.io crate name (e.g. `axum-extra`).
    pub name: &'static str,
    /// Recommended version requirement (major series).
    pub version: &'static str,
    /// Whether the crate's default features are needed.
    pub default_features: bool,
    /// Cargo features the generated code relies on, in a stable order.
    pub features: Vec<&'static str>,
}

/// A dependency as text: name, version, default-features flag, features.
pub struct DependencyView {
    pub name: Seq<char>,
    pub version: Seq<char>,
    pub default_features: bool,
    pub features: Seq<Seq<char>>,
}

impl View for Dependency {
    type V = DependencyView;

    open spec fn view(&self) -> DependencyView {
        DependencyView {
            name: self.name@,
            version: self.version@,
            default_features: self.default_features,
            features: str_views(self.features@),
        }
    }
}

/// `"s"`.
pub open spec fn quoted(s: Seq<char>) -> Seq<char> {
    seq!['"'] + s + seq!['"']
}

/// The quoted feature names.
pub open spec fn quoted_all(fs: Seq<Seq<char>>) -> Seq<Seq<char>> {
    fs.map_values(|f: Seq<char>| quoted(f))
}

/// The settings of the inline-table form: the version, then `default-features =
/// false` when the defaults are off, then the feature list when there is one.
pub open spec fn toml_parts(d: DependencyView) -> Seq<Seq<char>> {
    seq!["version = "@ + quoted(d.version)] + (if !d.default_features {
        seq!["default-features = false"@]
    } else {
        Seq::empty()
    }) + (if d.features.len() > 0 {
        seq!["features = ["@ + join(quoted_all(d.features), ", "@) + "]"@]
    } else {
        Seq::empty()
    })
}

/// The `Cargo.toml` `[dependencies]` line: the short `name = "version"` form for
/// a crate needing neither features nor a `default-features` change, else the
/// inline-table form.
pub open spec fn toml_text(d: DependencyView) -> Seq<char> {
    if d.default_features && d.features.len() == 0 {
        d.name + " = "@ + quoted(d.version)
    } else {
        d.name + " = { "@ + join(toml_parts(d), ", "@) + " }"@
    }
}

/// The `cargo add` command line.
pub open spec fn cargo_add_text(d: DependencyView) -> Seq<char> {
    "cargo add "@ + d.name + "@"@ + d.version + (if !d.default_features {
        " --no-default-features"@
    } else {
        Seq::empty()
    }) + (if d.features.len() > 0 {
        " --features "@ + join(d.features, ","@)
    } else {
        Seq::empty()
    })
}

/// The `cargo` arguments of the same command.
pub open spec fn cargo_add_arg_texts(d: DependencyView) -> Seq<Seq<char>> {
    seq!["add"@, d.name + "@"@ + d.version] + (if !d.default_features {
        seq!["--no-default-features"@]
    } else {
        Seq::empty()
    }) + (if d.features.len() > 0 {
        seq!["--features"@, join(d.features, ","@)]
    } else {
        Seq::empty()
    })
}

/// The feature names, each in quotes, joined with `, `.
fn quoted_features(features: &Vec<&'static str>) -> (r: String)
    ensures
        r@ == join(quoted_all(str_views(features@)), ", "@),
{
    let mut r = String::new();
    let mut k: usize = 0;
    while k < features.len()
        invariant
            k <= features@.len(),
            r@ == join(quoted_all(str_views(features@.take(k as int))), ", "@),
        decreases features@.len() - k,
    {
        if k > 0 {
            push_str(&mut r, ", ");
        }
        push_str(&mut r, "\"");
        push_str(&mut r, features[k]);
        push_str(&mut r, "\"");
        proof {
            let now = quoted_all(str_views(features@.take(k + 1)));
            assert(now.drop_last() =~= quoted_all(str_views(features@.take(k as int))));
            assert("\""@ =~= seq!['"']) by {
                reveal_strlit("\"");
            }
            assert(now.last() == quoted(features@[k as int]@));
            if k == 0 {
                assert(r@ =~= now[0]);
            } else {
                assert(r@ =~= join(now.drop_last(), ", "@) + ", "@ + now.last());
            }
        }
        k = k + 1;
    }
    assert(features@.take(features@.len() as int) =~= features@);
    r
}

impl Dependency {
    /// Render the `Cargo.toml` `[dependencies]` entry for this crate.
    ///
    /// A crate needing neither features nor a `default-features` change renders
    /// as the short `name = "version"` form; otherwise the inline-table form.
    pub fn toml(&self) -> (r: String)
        ensures
            r@ == toml_text(self@),
    {
        proof {
            reveal_strlit("\"");
        }
        if self.default_features && self.features.len() == 0 {
            let mut r = owned(self.name);
            push_str(&mut r, " = \"");
            push_str(&mut r, self.version);
            push_str(&mut r, "\"");
            proof {
                reveal_strlit(" = \"");
                reveal_strlit(" = ");
                assert(r@ =~= toml_text(self@));
            }
            return r;
        }
        let mut parts: Vec<String> = Vec::new();
        let mut version = owned("version = \"");
        push_str(&mut version, self.version);
        push_str(&mut version, "\"");
        proof {
            reveal_strlit("version = \"");
            reveal_strlit("version = ");
            assert("version = \""@ =~= "version = "@ + seq!['"']);
            assert(version@ =~= "version = "@ + quoted(self.version@));
            crate::graph::lemma_views_push(parts@, version);
        }
        parts.push(version);
        let ghost first = crate::graph::views(parts@);
        assert(first =~= seq!["version = "@ + quoted(self.version@)]);
        if !self.default_features {
            let flag = owned("default-features = false");
            proof {
                crate::graph::lemma_views_push(parts@, flag);
            }
            parts.push(flag);
        }
        let ghost second = crate::graph::views(parts@);
        assert(second =~= first + (if !self.default_features {
            seq!["default-features = false"@]
        } else {
            Seq::<Seq<char>>::empty()
        }));
        if self.features.len() > 0 {
            let mut features = owned("features = [");
            let quoted_list = quoted_features(&self.features);
            push_str(&mut features, quoted_list.as_str());
            push_str(&mut features, "]");
            proof {
                crate::graph::lemma_views_push(parts@, features);
            }
            parts.push(features);
        }
        let mut r = owned(self.name);
        push_str(&mut r, " = { ");
        let joined = crate::text::join_strings(&parts, ", ");
        push_str(&mut r, joined.as_str());
        push_str(&mut r, " }");
        proof {
            assert(crate::graph::views(parts@) =~= toml_parts(self@));
        }
        r
    }

    /// Render the equivalent `cargo add` command.
    pub fn cargo_add(&self) -> (r: String)
        ensures
            r@ == cargo_add_text(self@),
    {
        let mut command = owned("cargo add ");
        push_str(&mut command, self.name);
        push_str(&mut command, "@");
        push_str(&mut command, self.version);
        let ghost base = command@;
        if !self.default_features {
            push_str(&mut command, " --no-default-features");
        }
        let ghost mid = command@;
        if self.features.len() > 0 {
            push_str(&mut command, " --features ");
            let joined = join_strs(&self.features, ",");
            push_str(&mut command, joined.as_str());
        }
        proof {
            assert(mid =~= base + (if !self.default_features {
                " --no-default-features"@
            } else {
                Seq::empty()
            }));
            assert(command@ =~= cargo_add_text(self@));
        }
        command
    }

    /// The `cargo` arguments that add this dependency, for a process runner.
    pub fn cargo_add_args(&self) -> (args: Vec<String>)
        ensures
            crate::graph::views(args@) == cargo_add_arg_texts(self@),
    {
        let mut args: Vec<String> = Vec::new();
        args.push(owned("add"));
        let mut spec = owned(self.name);
        push_str(&mut spec, "@");
        push_str(&mut spec, self.version);
        args.push(spec);
        if !self.default_features {
            args.push(owned("--no-default-features"));
        }
        if self.features.len() > 0 {
            args.push(owned("--features"));
            args.push(join_strs(&self.features, ","));
        }
        assert(crate::graph::views(args@) =~= cargo_add_arg_texts(self@));
        args
    }
}

} // verus!

verus! {

/// `xs` when `b` holds, else nothing.
pub open spec fn when<A>(b: bool, xs: Seq<A>) -> Seq<A> {
    if b {
        xs
    } else {
        Seq::empty()
    }
}

/// The texts of a list of dependencies.
pub open spec fn dep_views(ds: Seq<Dependency>) -> Seq<DependencyView> {
    ds.map_values(|d: Dependency| d@)
}

/// A dependency needing default features and no extra features.
pub open spec fn plain_view(name: Seq<char>, version: Seq<char>) -> DependencyView {
    DependencyView { name, version, default_features: true, features: Seq::empty() }
}

/// The features the generated server needs of `axum`.
pub open spec fn axum_features(code: Seq<char>) -> Seq<Seq<char>> {
    when(has_sub(code, "axum::extract::Multipart"@), seq!["multipart"@])
}

/// The features the generated server needs of `axum-extra`.
pub open spec fn axum_extra_features(code: Seq<char>) -> Seq<Seq<char>> {
    when(has_sub(code, "axum_extra::extract::Query"@), seq!["query"@]) + when(
        has_sub(code, "axum_extra::extract::CookieJar"@),
        seq!["cookie"@],
    )
}

/// The features the generated client needs of `reqwest`.
pub open spec fn reqwest_features(code: Seq<char>) -> Seq<Seq<char>> {
    when(has_sub(code, "reqwest::blocking"@), seq!["blocking"@]) + when(has_sub(code, ".json("@), seq!["json"@])
        + when(has_sub(code, ".form("@), seq!["form"@]) + when(has_sub(code, ".query("@), seq!["query"@]) + when(
        has_sub(code, ".multipart("@) || has_sub(code, "reqwest::blocking::multipart"@),
        seq!["multipart"@],
    )
}

/// The crates the generated models reference.
pub open spec fn model_crates(code: Seq<char>) -> Seq<DependencyView> {
    when(
        has_sub(code, "serde::Serialize"@) || has_sub(code, "serde::Deserialize"@),
        seq![DependencyView { name: "serde"@, version: V_SERDE@, default_features: true, features: seq!["derive"@] }],
    ) + when(has_sub(code, "serde_json::"@), seq![plain_view("serde_json"@, V_SERDE_JSON@)]) + when(
        has_sub(code, "chrono::"@),
        seq![DependencyView { name: "chrono"@, version: V_CHRONO@, default_features: true, features: seq!["serde"@] }],
    ) + when(
        has_sub(code, "uuid::"@),
        seq![DependencyView { name: "uuid"@, version: V_UUID@, default_features: true, features: seq!["serde"@] }],
    )
}

/// The crates the generated server references.
pub open spec fn server_crates(code: Seq<char>) -> Seq<DependencyView> {
    when(has_sub(code, "http::"@), seq![plain_view("http"@, V_HTTP@)]) + when(
        has_sub(code, "axum::"@),
        seq![
            DependencyView {
                name: "axum"@,
                version: V_AXUM@,
                default_features: true,
                features: axum_features(code),
            },
        ],
    ) + when(
        has_sub(code, "axum_extra::"@),
        seq![
            DependencyView {
                name: "axum-extra"@,
                version: V_AXUM_EXTRA@,
                default_features: true,
                features: axum_extra_features(code),
            },
        ],
    )
}

/// The crates the generated client references.
pub open spec fn client_crates(code: Seq<char>) -> Seq<DependencyView> {
    when(
        has_sub(code, "reqwest::"@),
        seq![
            DependencyView {
                name: "reqwest"@,
                version: V_REQWEST@,
                default_features: false,
                features: reqwest_features(code),
            },
        ],
    ) + when(has_sub(code, "percent_encoding::"@), seq![plain_view("percent-encoding"@, V_PERCENT_ENCODING@)])
        + when(has_sub(code, "serde_urlencoded::"@), seq![plain_view("serde_urlencoded"@, V_SERDE_URLENCODED@)])
}

/// The crates a generated source references, in a stable order: shared model
/// crates, then server crates, then client crates. Each crate is detected by
/// the paths and calls the emitters write for it.
pub open spec fn required(code: Seq<char>) -> Seq<DependencyView> {
    model_crates(code) + server_crates(code) + client_crates(code)
}

/// A dependency needing default features and no extra features.
pub fn plain(name: &'static str, version: &'static str) -> (d: Dependency)
    ensures
        d@ == plain_view(name@, version@),
{
    let d = Dependency { name, version, default_features: true, features: Vec::new() };
    assert(d@.features =~= Seq::<Seq<char>>::empty());
    d
}

/// Append `feature` to `features` when `present`.
fn feature_when(features: &mut Vec<&'static str>, present: bool, feature: &'static str)
    ensures
        str_views(final(features)@) == str_views(old(features)@) + when(present, seq![feature@]),
{
    if present {
        features.push(feature);
    }
    assert(str_views(features@) =~= str_views(old(features)@) + when(present, seq![feature@]));
}

/// Append `d` to `deps` when `present`.
fn dep_when(deps: &mut Vec<Dependency>, present: bool, d: Dependency)
    ensures
        dep_views(final(deps)@) == dep_views(old(deps)@) + when(present, seq![d@]),
{
    if present {
        deps.push(d);
    }
    assert(dep_views(deps@) =~= dep_views(old(deps)@) + when(present, seq![d@]));
}

/// A dependency with default features on and the given features.
fn with_features(name: &'static str, version: &'static str, features: Vec<&'static str>) -> (d: Dependency)
    ensures
        d@ == (DependencyView { name: name@, version: version@, default_features: true, features: str_views(features@) }),
{
    Dependency { name, version, default_features: true, features }
}

fn push_model_crates(code: &str, deps: &mut Vec<Dependency>)
    ensures
        dep_views(final(deps)@) == dep_views(old(deps)@) + model_crates(code@),
{
    let ghost start = dep_views(deps@);
    let serde = contains_text(code, "serde::Serialize") || contains_text(code, "serde::Deserialize");
    let mut serde_features: Vec<&'static str> = Vec::new();
    serde_features.push("derive");
    assert(str_views(serde_features@) =~= seq!["derive"@]);
    dep_when(deps, serde, with_features("serde", V_SERDE, serde_features));
    dep_when(deps, contains_text(code, "serde_json::"), plain("serde_json", V_SERDE_JSON));
    let mut chrono_features: Vec<&'static str> = Vec::new();
    chrono_features.push("serde");
    assert(str_views(chrono_features@) =~= seq!["serde"@]);
    dep_when(deps, contains_text(code, "chrono::"), with_features("chrono", V_CHRONO, chrono_features));
    let mut uuid_features: Vec<&'static str> = Vec::new();
    uuid_features.push("serde");
    assert(str_views(uuid_features@) =~= seq!["serde"@]);
    dep_when(deps, contains_text(code, "uuid::"), with_features("uuid", V_UUID, uuid_features));
    assert(dep_views(deps@) =~= start + model_crates(code@));
}

fn push_server_crates(code: &str, deps: &mut Vec<Dependency>)
    ensures
        dep_views(final(deps)@) == dep_views(old(deps)@) + server_crates(code@),
{
    let ghost start = dep_views(deps@);
    dep_when(deps, contains_text(code, "http::"), plain("http", V_HTTP));
    let mut axum: Vec<&'static str> = Vec::new();
    assert(str_views(axum@) =~= Seq::<Seq<char>>::empty());
    feature_when(&mut axum, contains_text(code, "axum::extract::Multipart"), "multipart");
    assert(str_views(axum@) =~= axum_features(code@));
    dep_when(deps, contains_text(code, "axum::"), with_features("axum", V_AXUM, axum));
    let mut extra: Vec<&'static str> = Vec::new();
    assert(str_views(extra@) =~= Seq::<Seq<char>>::empty());
    feature_when(&mut extra, contains_text(code, "axum_extra::extract::Query"), "query");
    feature_when(&mut extra, contains_text(code, "axum_extra::extract::CookieJar"), "cookie");
    assert(str_views(extra@) =~= axum_extra_features(code@));
    dep_when(deps, contains_text(code, "axum_extra::"), with_features("axum-extra", V_AXUM_EXTRA, extra));
    assert(dep_views(deps@) =~= start + server_crates(code@));
}

fn push_client_crates(code: &str, deps: &mut Vec<Dependency>)
    ensures
        dep_views(final(deps)@) == dep_views(old(deps)@) + client_crates(code@),
{
    let ghost start = dep_views(deps@);
    let mut features: Vec<&'static str> = Vec::new();
    assert(str_views(features@) =~= Seq::<Seq<char>>::empty());
    feature_when(&mut features, contains_text(code, "reqwest::blocking"), "blocking");
    feature_when(&mut features, contains_text(code, ".json("), "json");
    feature_when(&mut features, contains_text(code, ".form("), "form");
    feature_when(&mut features, contains_text(code, ".query("), "query");
    let multipart = contains_text(code, ".multipart(") || contains_text(code, "reqwest::blocking::multipart");
    feature_when(&mut features, multipart, "multipart");
    assert(str_views(features@) =~= reqwest_features(code@));
    let client = Dependency { name: "reqwest", version: V_REQWEST, default_features: false, features };
    dep_when(deps, contains_text(code, "reqwest::"), client);
    dep_when(deps, contains_text(code, "percent_encoding::"), plain("percent-encoding", V_PERCENT_ENCODING));
    dep_when(deps, contains_text(code, "serde_urlencoded::"), plain("serde_urlencoded", V_SERDE_URLENCODED));
    assert(dep_views(deps@) =~= start + client_crates(code@));
}

/// Inspect generated `code` and return the external crates it references, in a
/// stable order (shared model crates, then server crates, then client crates).
pub fn required_dependencies(code: &str) -> (deps: Vec<Dependency>)
    ensures
        dep_views(deps@) == required(code@),
{
    let mut deps: Vec<Dependency> = Vec::new();
    assert(dep_views(deps@) =~= Seq::<DependencyView>::empty());
    push_model_crates(code, &mut deps);
    push_server_crates(code, &mut deps);
    push_client_crates(code, &mut deps);
    assert(dep_views(deps@) =~= required(code@));
    deps
}

} // verus!

verus! {

/// The items of `b` that `m` marks, in order.
pub open spec fn pick<A>(b: Seq<A>, m: Seq<bool>) -> Seq<A>
    decreases b.len(),
{
    if b.len() == 0 || m.len() == 0 {
        Seq::empty()
    } else {
        pick(b.drop_last(), m.drop_last()) + if m.last() {
            seq![b.last()]
        } else {
            Seq::empty()
        }
    }
}

/// Whether `a` is `b` with some items left out: the same items in the same order.
pub open spec fn kept_from<A>(a: Seq<A>, b: Seq<A>) -> bool {
    exists|m: Seq<bool>| m.len() == b.len() && #[trigger] pick(b, m) == a
}

/// The names of a list of dependencies, in order.
pub open spec fn dep_names(ds: Seq<DependencyView>) -> Seq<Seq<char>> {
    ds.map_values(|d: DependencyView| d.name)
}

/// Picking from joined lists picks from each.
proof fn lemma_pick_concat<A>(b1: Seq<A>, m1: Seq<bool>, b2: Seq<A>, m2: Seq<bool>)
    requires
        m1.len() == b1.len(),
        m2.len() == b2.len(),
    ensures
        pick(b1 + b2, m1 + m2) == pick(b1, m1) + pick(b2, m2),
    decreases b2.len(),
{
    if b2.len() == 0 {
        assert(b1 + b2 =~= b1);
        assert(m1 + m2 =~= m1);
        assert(pick(b2, m2) =~= Seq::<A>::empty());
        assert(pick(b1, m1) + pick(b2, m2) =~= pick(b1, m1));
    } else {
        lemma_pick_concat(b1, m1, b2.drop_last(), m2.drop_last());
        assert((b1 + b2).drop_last() =~= b1 + b2.drop_last());
        assert((m1 + m2).drop_last() =~= m1 + m2.drop_last());
        assert(pick(b1 + b2, m1 + m2) =~= pick(b1, m1) + pick(b2, m2));
    }
}

/// Marking every item picks the whole list; marking none picks nothing.
proof fn lemma_pick_all<A>(b: Seq<A>, keep: bool)
    ensures
        pick(b, Seq::new(b.len(), |i: int| keep)) == (if keep {
            b
        } else {
            Seq::empty()
        }),
    decreases b.len(),
{
    let m = Seq::new(b.len(), |i: int| keep);
    if b.len() > 0 {
        lemma_pick_all(b.drop_last(), keep);
        assert(m.drop_last() =~= Seq::new(b.drop_last().len(), |i: int| keep));
        if keep {
            assert(b.drop_last().push(b.last()) =~= b);
            assert(pick(b, m) =~= b);
        } else {
            assert(pick(b, m) =~= Seq::<A>::empty());
        }
    }
}

/// Keeping from each part keeps from the joined list.
proof fn lemma_kept_concat<A>(a1: Seq<A>, b1: Seq<A>, a2: Seq<A>, b2: Seq<A>)
    requires
        kept_from(a1, b1),
        kept_from(a2, b2),
    ensures
        kept_from(a1 + a2, b1 + b2),
{
    let m1 = choose|m: Seq<bool>| m.len() == b1.len() && #[trigger] pick(b1, m) == a1;
    let m2 = choose|m: Seq<bool>| m.len() == b2.len() && #[trigger] pick(b2, m) == a2;
    lemma_pick_concat(b1, m1, b2, m2);
    assert((m1 + m2).len() == (b1 + b2).len());
}

/// A part present under a weaker condition keeps the part present under a stronger one.
proof fn lemma_kept_when<A>(p: bool, q: bool, x: Seq<A>)
    requires
        p ==> q,
    ensures
        kept_from(when(p, x), when(q, x)),
{
    let b = when(q, x);
    lemma_pick_all(b, p);
    let m = Seq::new(b.len(), |i: int| p);
    assert(pick(b, m) == when(p, x));
}

/// A text inside a text holds everything the inner one holds.
proof fn lemma_sub_trans(c1: Seq<char>, c2: Seq<char>, needle: Seq<char>)
    requires
        has_sub(c2, c1),
    ensures
        has_sub(c1, needle) ==> has_sub(c2, needle),
{
    if has_sub(c1, needle) {
        let i = choose|i: int| crate::text::occurs_at(c2, c1, i);
        let j = choose|j: int| crate::text::occurs_at(c1, needle, j);
        assert(c2.subrange(i + j, i + j + needle.len()) =~= c1.subrange(j, j + needle.len()));
        assert(crate::text::occurs_at(c2, needle, i + j));
    }
}

/// `item` when the code holds `needle`, else nothing.
pub open spec fn on<A>(code: Seq<char>, needle: Seq<char>, item: A) -> Seq<A> {
    when(has_sub(code, needle), seq![item])
}

/// What more code detects keeps what less code detects.
proof fn lemma_on_grows<A>(c1: Seq<char>, c2: Seq<char>, needle: Seq<char>, item: A)
    requires
        has_sub(c2, c1),
    ensures
        kept_from(on(c1, needle, item), on(c2, needle, item)),
{
    lemma_sub_trans(c1, c2, needle);
    lemma_kept_when(has_sub(c1, needle), has_sub(c2, needle), seq![item]);
}

/// The crate names the generated models need.
pub open spec fn model_names(code: Seq<char>) -> Seq<Seq<char>> {
    when(has_sub(code, "serde::Serialize"@) || has_sub(code, "serde::Deserialize"@), seq!["serde"@]) + on(
        code,
        "serde_json::"@,
        "serde_json"@,
    ) + on(code, "chrono::"@, "chrono"@) + on(code, "uuid::"@, "uuid"@)
}

/// The crate names the generated server needs.
pub open spec fn server_names(code: Seq<char>) -> Seq<Seq<char>> {
    on(code, "http::"@, "http"@) + on(code, "axum::"@, "axum"@) + on(code, "axum_extra::"@, "axum-extra"@)
}

/// The crate names the generated client needs.
pub open spec fn client_names(code: Seq<char>) -> Seq<Seq<char>> {
    on(code, "reqwest::"@, "reqwest"@) + on(code, "percent_encoding::"@, "percent-encoding"@) + on(
        code,
        "serde_urlencoded::"@,
        "serde_urlencoded"@,
    )
}

/// Names of joined lists are the joined names.
proof fn lemma_names_concat(a: Seq<DependencyView>, b: Seq<DependencyView>)
    ensures
        dep_names(a + b) == dep_names(a) + dep_names(b),
{
    assert(dep_names(a + b) =~= dep_names(a) + dep_names(b));
}

/// The names of what the model part detects.
proof fn lemma_model_names(code: Seq<char>)
    ensures
        dep_names(model_crates(code)) == model_names(code),
{
    assert(dep_names(model_crates(code)) =~= model_names(code));
}

/// The names of what the server part detects.
proof fn lemma_server_names(code: Seq<char>)
    ensures
        dep_names(server_crates(code)) == server_names(code),
{
    assert(dep_names(server_crates(code)) =~= server_names(code));
}

/// The names of what the client part detects.
proof fn lemma_client_names(code: Seq<char>)
    ensures
        dep_names(client_crates(code)) == client_names(code),
{
    assert(dep_names(client_crates(code)) =~= client_names(code));
}

/// The model crates of less code are kept among those of more code.
proof fn lemma_model_grows(c1: Seq<char>, c2: Seq<char>)
    requires
        has_sub(c2, c1),
    ensures
        kept_from(model_names(c1), model_names(c2)),
{
    lemma_sub_trans(c1, c2, "serde::Serialize"@);
    lemma_sub_trans(c1, c2, "serde::Deserialize"@);
    let p = has_sub(c1, "serde::Serialize"@) || has_sub(c1, "serde::Deserialize"@);
    let q = has_sub(c2, "serde::Serialize"@) || has_sub(c2, "serde::Deserialize"@);
    lemma_kept_when(p, q, seq!["serde"@]);
    lemma_on_grows(c1, c2, "serde_json::"@, "serde_json"@);
    lemma_on_grows(c1, c2, "chrono::"@, "chrono"@);
    lemma_on_grows(c1, c2, "uuid::"@, "uuid"@);
    let a1 = when(p, seq!["serde"@]);
    let a2 = when(q, seq!["serde"@]);
    lemma_kept_concat(a1, a2, on(c1, "serde_json::"@, "serde_json"@), on(c2, "serde_json::"@, "serde_json"@));
    let b1 = a1 + on(c1, "serde_json::"@, "serde_json"@);
    let b2 = a2 + on(c2, "serde_json::"@, "serde_json"@);
    lemma_kept_concat(b1, b2, on(c1, "chrono::"@, "chrono"@), on(c2, "chrono::"@, "chrono"@));
    let d1 = b1 + on(c1, "chrono::"@, "chrono"@);
    let d2 = b2 + on(c2, "chrono::"@, "chrono"@);
    lemma_kept_concat(d1, d2, on(c1, "uuid::"@, "uuid"@), on(c2, "uuid::"@, "uuid"@));
}

/// The server crates of less code are kept among those of more code.
proof fn lemma_server_grows(c1: Seq<char>, c2: Seq<char>)
    requires
        has_sub(c2, c1),
    ensures
        kept_from(server_names(c1), server_names(c2)),
{
    lemma_on_grows(c1, c2, "http::"@, "http"@);
    lemma_on_grows(c1, c2, "axum::"@, "axum"@);
    lemma_on_grows(c1, c2, "axum_extra::"@, "axum-extra"@);
    lemma_kept_concat(on(c1, "http::"@, "http"@), on(c2, "http::"@, "http"@), on(c1, "axum::"@, "axum"@), on(c2, "axum::"@, "axum"@));
    lemma_kept_concat(
        on(c1, "http::"@, "http"@) + on(c1, "axum::"@, "axum"@),
        on(c2, "http::"@, "http"@) + on(c2, "axum::"@, "axum"@),
        on(c1, "axum_extra::"@, "axum-extra"@),
        on(c2, "axum_extra::"@, "axum-extra"@),
    );
}

/// The client crates of less code are kept among those of more code.
proof fn lemma_client_grows(c1: Seq<char>, c2: Seq<char>)
    requires
        has_sub(c2, c1),
    ensures
        kept_from(client_names(c1), client_names(c2)),
{
    lemma_on_grows(c1, c2, "reqwest::"@, "reqwest"@);
    lemma_on_grows(c1, c2, "percent_encoding::"@, "percent-encoding"@);
    lemma_on_grows(c1, c2, "serde_urlencoded::"@, "serde_urlencoded"@);
    lemma_kept_concat(
        on(c1, "reqwest::"@, "reqwest"@),
        on(c2, "reqwest::"@, "reqwest"@),
        on(c1, "percent_encoding::"@, "percent-encoding"@),
        on(c2, "percent_encoding::"@, "percent-encoding"@),
    );
    lemma_kept_concat(
        on(c1, "reqwest::"@, "reqwest"@) + on(c1, "percent_encoding::"@, "percent-encoding"@),
        on(c2, "reqwest::"@, "reqwest"@) + on(c2, "percent_encoding::"@, "percent-encoding"@),
        on(c1, "serde_urlencoded::"@, "serde_urlencoded"@),
        on(c2, "serde_urlencoded::"@, "serde_urlencoded"@),
    );
}

/// The code-dependent features of less code are kept among those of more code.
proof fn lemma_features_grow(c1: Seq<char>, c2: Seq<char>)
    requires
        has_sub(c2, c1),
    ensures
        kept_from(axum_features(c1), axum_features(c2)),
        kept_from(axum_extra_features(c1), axum_extra_features(c2)),
        kept_from(reqwest_features(c1), reqwest_features(c2)),
{
    lemma_on_grows(c1, c2, "axum::extract::Multipart"@, "multipart"@);
    assert(axum_features(c1) == on(c1, "axum::extract::Multipart"@, "multipart"@));
    assert(axum_features(c2) == on(c2, "axum::extract::Multipart"@, "multipart"@));
    lemma_on_grows(c1, c2, "axum_extra::extract::Query"@, "query"@);
    lemma_on_grows(c1, c2, "axum_extra::extract::CookieJar"@, "cookie"@);
    lemma_kept_concat(
        on(c1, "axum_extra::extract::Query"@, "query"@),
        on(c2, "axum_extra::extract::Query"@, "query"@),
        on(c1, "axum_extra::extract::CookieJar"@, "cookie"@),
        on(c2, "axum_extra::extract::CookieJar"@, "cookie"@),
    );
    lemma_on_grows(c1, c2, "reqwest::blocking"@, "blocking"@);
    lemma_on_grows(c1, c2, ".json("@, "json"@);
    lemma_on_grows(c1, c2, ".form("@, "form"@);
    lemma_on_grows(c1, c2, ".query("@, "query"@);
    lemma_sub_trans(c1, c2, ".multipart("@);
    lemma_sub_trans(c1, c2, "reqwest::blocking::multipart"@);
    let pm = has_sub(c1, ".multipart("@) || has_sub(c1, "reqwest::blocking::multipart"@);
    let qm = has_sub(c2, ".multipart("@) || has_sub(c2, "reqwest::blocking::multipart"@);
    lemma_kept_when(pm, qm, seq!["multipart"@]);
    let f1 = on(c1, "reqwest::blocking"@, "blocking"@);
    let f2 = on(c2, "reqwest::blocking"@, "blocking"@);
    lemma_kept_concat(f1, f2, on(c1, ".json("@, "json"@), on(c2, ".json("@, "json"@));
    let g1 = f1 + on(c1, ".json("@, "json"@);
    let g2 = f2 + on(c2, ".json("@, "json"@);
    lemma_kept_concat(g1, g2, on(c1, ".form("@, "form"@), on(c2, ".form("@, "form"@));
    let h1 = g1 + on(c1, ".form("@, "form"@);
    let h2 = g2 + on(c2, ".form("@, "form"@);
    lemma_kept_concat(h1, h2, on(c1, ".query("@, "query"@), on(c2, ".query("@, "query"@));
    let k1 = h1 + on(c1, ".query("@, "query"@);
    let k2 = h2 + on(c2, ".query("@, "query"@);
    lemma_kept_concat(k1, k2, when(pm, seq!["multipart"@]), when(qm, seq!["multipart"@]));
    assert(reqwest_features(c1) == k1 + when(pm, seq!["multipart"@]));
    assert(reqwest_features(c2) == k2 + when(qm, seq!["multipart"@]));
}

/// More generated code never needs fewer crates or features: when the code of
/// one run lies inside the code of another, the second run names every crate
/// the first does, in the same order, and for each crate whose features depend
/// on the code, every feature the first needs, in the same order. The other
/// crates' features are fixed.
pub proof fn dependencies_grow_with_the_code(c1: Seq<char>, c2: Seq<char>)
    requires
        has_sub(c2, c1),
    ensures
        kept_from(dep_names(required(c1)), dep_names(required(c2))),
        kept_from(axum_features(c1), axum_features(c2)),
        kept_from(axum_extra_features(c1), axum_extra_features(c2)),
        kept_from(reqwest_features(c1), reqwest_features(c2)),
{
    lemma_model_names(c1);
    lemma_model_names(c2);
    lemma_server_names(c1);
    lemma_server_names(c2);
    lemma_client_names(c1);
    lemma_client_names(c2);
    lemma_names_concat(model_crates(c1), server_crates(c1));
    lemma_names_concat(model_crates(c1) + server_crates(c1), client_crates(c1));
    lemma_names_concat(model_crates(c2), server_crates(c2));
    lemma_names_concat(model_crates(c2) + server_crates(c2), client_crates(c2));
    lemma_model_grows(c1, c2);
    lemma_server_grows(c1, c2);
    lemma_client_grows(c1, c2);
    lemma_kept_concat(model_names(c1), model_names(c2), server_names(c1), server_names(c2));
    lemma_kept_concat(
        model_names(c1) + server_names(c1),
        model_names(c2) + server_names(c2),
        client_names(c1),
        client_names(c2),
    );
    lemma_features_grow(c1, c2);
}

} // verus!
