//! Which component schemas the direction pass splits into a request shape and
//! a response shape.
//!
//! A schema splits when a property inside it carries a direction mark
//! (`readOnly` or `writeOnly`), or when it reaches such a schema through a
//! same-document `$ref`. A mark on a schema itself does not split that schema:
//! the direction pass splits a model only when one of its properties is
//! directional, so a marked primitive keeps its one name and only its
//! referrers split. The answer reads the document alone, because both runs
//! that compose a crate must reach the same verdict.

use vstd::prelude::*;

use crate::emit::foreign::contains_name;
use crate::emit::foreign::referrers;
use crate::graph::Edges;
use crate::graph::Rel;
use crate::graph::back_closed;
use crate::graph::back_closure;
use crate::graph::lemma_back_closure;
use crate::graph::lemma_views_drop_last;
use crate::graph::lemma_views_push;
use crate::graph::rel_of;
use crate::graph::views;
use crate::loader::opt_text;
use crate::loader::ref_target_name;
use crate::loader::target_name;

verus! {

/// What the split reads of one schema: its own direction marks, the schemas it
/// declares as properties, and the other schemas it holds in place (its
/// element type, its `additionalProperties` schema, and its composition
/// members).
#[derive(Debug)]
pub struct SchemaShape {
    /// The schema sets `readOnly: true`.
    pub read_only: bool,
    /// The schema sets `writeOnly: true`.
    pub write_only: bool,
    /// The schemas of its properties, in declaration order.
    pub properties: Vec<SchemaSlot>,
    /// Every other schema it holds directly, in document order.
    pub others: Vec<SchemaSlot>,
}

/// A schema position: a `$ref`, or a schema written in place.
#[derive(Debug)]
pub enum SchemaSlot {
    /// A `$ref`, as written.
    Reference(String),
    /// A schema written in place.
    Item(SchemaShape),
}

/// One entry of `components.schemas`.
#[derive(Debug)]
pub struct SchemaEntry {
    /// The component name.
    pub name: String,
    /// The component: a schema, or a `$ref` that makes it an alias.
    pub schema: SchemaSlot,
}

/// Whether a property slot carries a direction mark: an in-place schema that
/// is marked itself, or a same-document `$ref` to a component that is.
pub open spec fn directional_slot(s: SchemaSlot, dir: Set<Seq<char>>) -> bool {
    match s {
        SchemaSlot::Item(x) => x.read_only || x.write_only,
        SchemaSlot::Reference(r) => match target_name(r@) {
            Some(n) => dir.contains(n),
            None => false,
        },
    }
}

/// Whether one schema declares a property that only one direction carries.
pub open spec fn declares_directional(x: SchemaShape, dir: Set<Seq<char>>) -> bool {
    exists|i: int| 0 <= i < x.properties@.len() && directional_slot(#[trigger] x.properties@[i], dir)
}

/// Whether a schema, or a schema written anywhere inside it, declares a
/// directional property.
pub open spec fn shape_marks(x: SchemaShape, dir: Set<Seq<char>>) -> bool
    decreases x, 1nat,
{
    declares_directional(x, dir) || slots_mark(x.properties@, dir) || slots_mark(x.others@, dir)
}

/// Whether some in-place schema among `ss` marks a direction.
pub open spec fn slots_mark(ss: Seq<SchemaSlot>, dir: Set<Seq<char>>) -> bool
    decreases ss, 0nat,
{
    if ss.len() == 0 {
        false
    } else {
        slots_mark(ss.subrange(0, ss.len() - 1), dir) || match ss[ss.len() - 1] {
            SchemaSlot::Item(inner) => shape_marks(inner, dir),
            SchemaSlot::Reference(_) => false,
        }
    }
}

/// The same-document component schemas a schema names, at any depth, slot by slot.
pub open spec fn shape_refs(x: SchemaShape) -> Seq<Seq<char>>
    decreases x, 1nat,
{
    slots_refs(x.properties@) + slots_refs(x.others@)
}

/// The same-document component schemas a list of slots names, at any depth.
pub open spec fn slots_refs(ss: Seq<SchemaSlot>) -> Seq<Seq<char>>
    decreases ss, 0nat,
{
    if ss.len() == 0 {
        Seq::empty()
    } else {
        slots_refs(ss.subrange(0, ss.len() - 1)) + match ss[ss.len() - 1] {
            SchemaSlot::Item(inner) => shape_refs(inner),
            SchemaSlot::Reference(r) => match target_name(r@) {
                Some(n) => seq![n],
                None => Seq::empty(),
            },
        }
    }
}

/// The component schemas one component names: what a schema names at any
/// depth, or the target of an alias.
pub open spec fn entry_refs(s: SchemaSlot) -> Seq<Seq<char>> {
    match s {
        SchemaSlot::Item(x) => shape_refs(x),
        SchemaSlot::Reference(r) => match target_name(r@) {
            Some(n) => seq![n],
            None => Seq::empty(),
        },
    }
}

/// Component `a` names component `b`.
pub open spec fn schema_rel(entries: Seq<SchemaEntry>) -> Rel {
    |a: Seq<char>, b: Seq<char>|
        exists|i: int| 0 <= i < entries.len() && entries[i].name@ == a && #[trigger] entry_refs(entries[i].schema).contains(b)
}

/// The components that mark themselves `readOnly` or `writeOnly`.
pub open spec fn directional_names(entries: Seq<SchemaEntry>) -> Set<Seq<char>> {
    Set::new(
        |n: Seq<char>|
            exists|i: int|
                #![trigger entries[i]]
                0 <= i < entries.len() && entries[i].name@ == n && (entries[i].schema matches SchemaSlot::Item(x) && (
                x.read_only || x.write_only)),
    )
}

/// The components in which some property carries a direction mark.
pub open spec fn marked_names(entries: Seq<SchemaEntry>) -> Set<Seq<char>> {
    Set::new(
        |n: Seq<char>|
            exists|i: int|
                #![trigger entries[i]]
                0 <= i < entries.len() && entries[i].name@ == n && (entries[i].schema matches SchemaSlot::Item(x)
                    && shape_marks(x, directional_names(entries))),
    )
}

/// The components the direction pass splits: those that mark a direction and
/// every component that reaches one of them.
pub open spec fn split_names(entries: Seq<SchemaEntry>) -> Set<Seq<char>> {
    back_closure(schema_rel(entries), marked_names(entries))
}

/// Whether a property slot carries a direction mark.
fn slot_directional(s: &SchemaSlot, dir: &Vec<String>) -> (r: bool)
    ensures
        r == directional_slot(*s, views(dir@).to_set()),
{
    match s {
        SchemaSlot::Item(x) => x.read_only || x.write_only,
        SchemaSlot::Reference(r) => match ref_target_name(r.as_str()) {
            Some(n) => {
                let owned = crate::text::owned(n);
                contains_name(dir, &owned)
            },
            None => false,
        },
    }
}

/// Whether one schema declares a directional property.
fn declares_directional_exec(x: &SchemaShape, dir: &Vec<String>) -> (r: bool)
    ensures
        r == declares_directional(*x, views(dir@).to_set()),
{
    let mut k: usize = 0;
    while k < x.properties.len()
        invariant
            k <= x.properties@.len(),
            forall|j: int| 0 <= j < k ==> !directional_slot(#[trigger] x.properties@[j], views(dir@).to_set()),
        decreases x.properties@.len() - k,
    {
        if slot_directional(&x.properties[k], dir) {
            return true;
        }
        k = k + 1;
    }
    false
}

/// Whether a schema, or a schema written anywhere inside it, declares a
/// directional property.
fn shape_marks_exec(x: &SchemaShape, dir: &Vec<String>) -> (r: bool)
    ensures
        r == shape_marks(*x, views(dir@).to_set()),
    decreases x, 1nat,
{
    if declares_directional_exec(x, dir) {
        return true;
    }
    proof {
        assert(decreases_to!(*x => x.properties));
        assert(decreases_to!(*x => x.others));
    }
    if slots_mark_exec(&x.properties, dir) {
        return true;
    }
    slots_mark_exec(&x.others, dir)
}

/// Whether some in-place schema among `ss` marks a direction.
fn slots_mark_exec(ss: &Vec<SchemaSlot>, dir: &Vec<String>) -> (r: bool)
    ensures
        r == slots_mark(ss@, views(dir@).to_set()),
    decreases ss, 0nat,
{
    let ghost d = views(dir@).to_set();
    let mut k: usize = 0;
    while k < ss.len()
        invariant
            k <= ss@.len(),
            d == views(dir@).to_set(),
            !slots_mark(ss@.subrange(0, k as int), d),
        decreases ss@.len() - k,
    {
        let ghost next = ss@.subrange(0, k + 1);
        proof {
            assert(next.subrange(0, k as int) =~= ss@.subrange(0, k as int));
            assert(next[k as int] == ss@[k as int]);
        }
        match &ss[k] {
            SchemaSlot::Item(inner) => {
                proof {
                    assert(decreases_to!(*ss => ss@));
                    assert(decreases_to!(ss@ => ss@[k as int]));
                    assert(decreases_to!(ss@[k as int] => ss@[k as int]->Item_0));
                }
                if shape_marks_exec(inner, dir) {
                    proof {
                        lemma_slots_mark_grows(ss@, k as int + 1, d);
                    }
                    return true;
                }
            },
            SchemaSlot::Reference(_) => {},
        }
        k = k + 1;
    }
    assert(ss@.subrange(0, ss@.len() as int) =~= ss@);
    false
}

/// A marking prefix marks the whole list.
proof fn lemma_slots_mark_grows(ss: Seq<SchemaSlot>, k: int, d: Set<Seq<char>>)
    requires
        0 <= k <= ss.len(),
        slots_mark(ss.subrange(0, k), d),
    ensures
        slots_mark(ss, d),
    decreases ss.len() - k,
{
    if k < ss.len() {
        let next = ss.subrange(0, k + 1);
        assert(next.subrange(0, k) =~= ss.subrange(0, k));
        assert(slots_mark(next, d));
        lemma_slots_mark_grows(ss, k + 1, d);
    } else {
        assert(ss.subrange(0, k) =~= ss);
    }
}

/// Append the same-document component schemas a schema names, at any depth.
fn collect_shape_refs(x: &SchemaShape, out: &mut Vec<String>)
    ensures
        views(final(out)@) == views(old(out)@) + shape_refs(*x),
    decreases x, 1nat,
{
    proof {
        assert(decreases_to!(*x => x.properties));
        assert(decreases_to!(*x => x.others));
    }
    collect_slots_refs(&x.properties, out);
    collect_slots_refs(&x.others, out);
    assert(views(out@) =~= views(old(out)@) + shape_refs(*x));
}

/// Append the same-document component schemas a list of slots names, at any depth.
fn collect_slots_refs(ss: &Vec<SchemaSlot>, out: &mut Vec<String>)
    ensures
        views(final(out)@) == views(old(out)@) + slots_refs(ss@),
    decreases ss, 0nat,
{
    let ghost start = views(out@);
    let mut k: usize = 0;
    assert(slots_refs(ss@.subrange(0, 0)) =~= Seq::<Seq<char>>::empty());
    while k < ss.len()
        invariant
            k <= ss@.len(),
            views(out@) == start + slots_refs(ss@.subrange(0, k as int)),
        decreases ss@.len() - k,
    {
        let ghost before = views(out@);
        let ghost next = ss@.subrange(0, k + 1);
        proof {
            assert(next.subrange(0, k as int) =~= ss@.subrange(0, k as int));
            assert(next[k as int] == ss@[k as int]);
        }
        match &ss[k] {
            SchemaSlot::Item(inner) => {
                proof {
                    assert(decreases_to!(*ss => ss@));
                    assert(decreases_to!(ss@ => ss@[k as int]));
                    assert(decreases_to!(ss@[k as int] => ss@[k as int]->Item_0));
                }
                collect_shape_refs(inner, out);
            },
            SchemaSlot::Reference(r) => {
                match ref_target_name(r.as_str()) {
                    Some(n) => {
                        let name = crate::text::owned(n);
                        proof {
                            lemma_views_push(out@, name);
                        }
                        out.push(name);
                    },
                    None => {},
                }
            },
        }
        assert(views(out@) =~= start + slots_refs(next));
        k = k + 1;
    }
    assert(ss@.subrange(0, ss@.len() as int) =~= ss@);
}

/// The names of a list of components, in order.
pub open spec fn entry_name_seq(entries: Seq<SchemaEntry>) -> Seq<Seq<char>> {
    entries.map_values(|e: SchemaEntry| e.name@)
}

/// Component `i` marks itself `readOnly` or `writeOnly`.
pub open spec fn directional_at(entries: Seq<SchemaEntry>, i: int) -> bool {
    entries[i].schema matches SchemaSlot::Item(x) && (x.read_only || x.write_only)
}

/// Some property inside component `i` carries a direction mark.
pub open spec fn marked_at(entries: Seq<SchemaEntry>, i: int) -> bool {
    entries[i].schema matches SchemaSlot::Item(x) && shape_marks(x, directional_names(entries))
}

/// The components that mark themselves, as a list of names.
fn directional_list(entries: &Vec<SchemaEntry>) -> (dir: Vec<String>)
    ensures
        views(dir@).to_set() == directional_names(entries@),
{
    let mut dir: Vec<String> = Vec::new();
    let mut k: usize = 0;
    while k < entries.len()
        invariant
            k <= entries@.len(),
            forall|n: Seq<char>|
                views(dir@).contains(n) <==> exists|i: int|
                    0 <= i < k && entries@[i].name@ == n && #[trigger] directional_at(entries@, i),
        decreases entries@.len() - k,
    {
        let ghost before = views(dir@);
        let own = match &entries[k].schema {
            SchemaSlot::Item(x) => x.read_only || x.write_only,
            SchemaSlot::Reference(_) => false,
        };
        if own {
            proof {
                lemma_views_push(dir@, entries@[k as int].name);
            }
            dir.push(entries[k].name.clone());
        }
        proof {
            assert forall|n: Seq<char>|
                views(dir@).contains(n) <==> exists|i: int|
                    0 <= i < k + 1 && entries@[i].name@ == n && #[trigger] directional_at(entries@, i) by {
                if views(dir@).contains(n) {
                    if own && n == entries@[k as int].name@ {
                        assert(directional_at(entries@, k as int));
                    } else {
                        if own {
                            let j = choose|j: int| 0 <= j < views(dir@).len() && views(dir@)[j] == n;
                            assert(j < before.len());
                            assert(before[j] == n);
                        }
                        assert(before.contains(n));
                    }
                }
                if exists|i: int| 0 <= i < k + 1 && entries@[i].name@ == n && #[trigger] directional_at(entries@, i) {
                    let i = choose|i: int| 0 <= i < k + 1 && entries@[i].name@ == n && #[trigger] directional_at(entries@, i);
                    if i < k {
                        assert(before.contains(n));
                        let j = choose|j: int| 0 <= j < before.len() && before[j] == n;
                        assert(views(dir@)[j] == n);
                    } else {
                        assert(own);
                        assert(views(dir@)[before.len() as int] == n);
                    }
                }
            }
        }
        k = k + 1;
    }
    assert(views(dir@).to_set() =~= directional_names(entries@)) by {
        assert forall|n: Seq<char>| views(dir@).to_set().contains(n) implies directional_names(entries@).contains(n) by {
            let i = choose|i: int| 0 <= i < entries@.len() && entries@[i].name@ == n && #[trigger] directional_at(entries@, i);
            assert(entries@[i].name@ == n && directional_at(entries@, i));
        }
        assert forall|n: Seq<char>| directional_names(entries@).contains(n) implies views(dir@).to_set().contains(n) by {
            let i = choose|i: int|
                #![trigger entries@[i]]
                0 <= i < entries@.len() && entries@[i].name@ == n && (entries@[i].schema matches SchemaSlot::Item(x) && (
                x.read_only || x.write_only));
            assert(directional_at(entries@, i));
        }
    }
    dir
}

/// The component-reference graph: one node per component, pointing at the
/// components it names.
fn schema_graph(entries: &Vec<SchemaEntry>) -> (adj: Vec<Edges>)
    ensures
        rel_of(adj@) == schema_rel(entries@),
        adj@.len() == entries@.len(),
        forall|i: int| 0 <= i < adj@.len() ==> (#[trigger] adj@[i]).name@ == entries@[i].name@,
{
    let mut adj: Vec<Edges> = Vec::new();
    let mut k: usize = 0;
    while k < entries.len()
        invariant
            k <= entries@.len(),
            adj@.len() == k,
            forall|i: int|
                0 <= i < k ==> (#[trigger] adj@[i]).name@ == entries@[i].name@ && views(adj@[i].targets@) == entry_refs(
                    entries@[i].schema,
                ),
        decreases entries@.len() - k,
    {
        let mut targets: Vec<String> = Vec::new();
        match &entries[k].schema {
            SchemaSlot::Item(x) => {
                collect_shape_refs(x, &mut targets);
                assert(views(targets@) =~= entry_refs(entries@[k as int].schema));
            },
            SchemaSlot::Reference(r) => {
                match ref_target_name(r.as_str()) {
                    Some(n) => {
                        let name = crate::text::owned(n);
                        proof {
                            lemma_views_push(targets@, name);
                        }
                        targets.push(name);
                    },
                    None => {},
                }
                assert(views(targets@) =~= entry_refs(entries@[k as int].schema));
            },
        }
        adj.push(Edges { name: entries[k].name.clone(), targets });
        k = k + 1;
    }
    proof {
        let r1 = rel_of(adj@);
        let r2 = schema_rel(entries@);
        assert forall|a: Seq<char>, b: Seq<char>| #[trigger] r1(a, b) == r2(a, b) by {
            if r1(a, b) {
                let i = choose|i: int| 0 <= i < adj@.len() && adj@[i].name@ == a && #[trigger] views(adj@[i].targets@).contains(b);
                assert(entry_refs(entries@[i].schema).contains(b));
            }
            if r2(a, b) {
                let i = choose|i: int| 0 <= i < entries@.len() && entries@[i].name@ == a && #[trigger] entry_refs(entries@[i].schema).contains(b);
                assert(views(adj@[i].targets@).contains(b));
            }
        }
        assert(r1 =~= r2);
    }
    adj
}

/// The components that mark a direction, each named once.
fn marked_list(entries: &Vec<SchemaEntry>, dir: &Vec<String>) -> (marked: Vec<String>)
    requires
        views(dir@).to_set() == directional_names(entries@),
    ensures
        views(marked@).no_duplicates(),
        views(marked@).to_set() == marked_names(entries@),
{
    let mut marked: Vec<String> = Vec::new();
    let mut k: usize = 0;
    while k < entries.len()
        invariant
            k <= entries@.len(),
            views(dir@).to_set() == directional_names(entries@),
            views(marked@).no_duplicates(),
            forall|n: Seq<char>|
                views(marked@).contains(n) <==> exists|i: int|
                    0 <= i < k && entries@[i].name@ == n && #[trigger] marked_at(entries@, i),
        decreases entries@.len() - k,
    {
        let ghost before = views(marked@);
        let marks = match &entries[k].schema {
            SchemaSlot::Item(x) => shape_marks_exec(x, dir),
            SchemaSlot::Reference(_) => false,
        };
        assert(marks == marked_at(entries@, k as int));
        let fresh = marks && !contains_name(&marked, &entries[k].name);
        if fresh {
            proof {
                lemma_views_push(marked@, entries@[k as int].name);
            }
            marked.push(entries[k].name.clone());
            proof {
                assert forall|a: int, b: int| 0 <= a < views(marked@).len() && 0 <= b < views(marked@).len() && a != b implies views(
                    marked@,
                )[a] != views(marked@)[b] by {
                    if a == before.len() {
                        assert(views(marked@)[b] == before[b]);
                        assert(before.contains(before[b]));
                    } else if b == before.len() {
                        assert(views(marked@)[a] == before[a]);
                        assert(before.contains(before[a]));
                    } else {
                        assert(views(marked@)[a] == before[a]);
                        assert(views(marked@)[b] == before[b]);
                    }
                }
            }
        }
        proof {
            assert forall|n: Seq<char>|
                views(marked@).contains(n) <==> exists|i: int|
                    0 <= i < k + 1 && entries@[i].name@ == n && #[trigger] marked_at(entries@, i) by {
                if views(marked@).contains(n) {
                    if fresh && n == entries@[k as int].name@ {
                        assert(marked_at(entries@, k as int));
                    } else {
                        if fresh {
                            let j = choose|j: int| 0 <= j < views(marked@).len() && views(marked@)[j] == n;
                            assert(j < before.len());
                            assert(before[j] == n);
                        }
                        assert(before.contains(n));
                    }
                }
                if exists|i: int| 0 <= i < k + 1 && entries@[i].name@ == n && #[trigger] marked_at(entries@, i) {
                    let i = choose|i: int| 0 <= i < k + 1 && entries@[i].name@ == n && #[trigger] marked_at(entries@, i);
                    if i < k {
                        assert(before.contains(n));
                        let j = choose|j: int| 0 <= j < before.len() && before[j] == n;
                        assert(views(marked@)[j] == n);
                    } else if fresh {
                        assert(views(marked@)[before.len() as int] == n);
                    } else {
                        assert(before.contains(n));
                        let j = choose|j: int| 0 <= j < before.len() && before[j] == n;
                        assert(views(marked@)[j] == n);
                    }
                }
            }
        }
        k = k + 1;
    }
    assert(views(marked@).to_set() =~= marked_names(entries@)) by {
        assert forall|n: Seq<char>| views(marked@).to_set().contains(n) implies marked_names(entries@).contains(n) by {
            let i = choose|i: int| 0 <= i < entries@.len() && entries@[i].name@ == n && #[trigger] marked_at(entries@, i);
            assert(entries@[i].name@ == n && marked_at(entries@, i));
        }
        assert forall|n: Seq<char>| marked_names(entries@).contains(n) implies views(marked@).to_set().contains(n) by {
            let i = choose|i: int|
                #![trigger entries@[i]]
                0 <= i < entries@.len() && entries@[i].name@ == n && (entries@[i].schema matches SchemaSlot::Item(x)
                    && shape_marks(x, directional_names(entries@)));
            assert(marked_at(entries@, i));
        }
    }
    marked
}

/// Adding a name that a list lacks keeps it free of repeats.
proof fn lemma_push_fresh(v: Seq<Seq<char>>, x: Seq<char>)
    requires
        v.no_duplicates(),
        !v.contains(x),
    ensures
        v.push(x).no_duplicates(),
{
    let w = v.push(x);
    assert forall|a: int, b: int| 0 <= a < w.len() && 0 <= b < w.len() && a != b implies w[a] != w[b] by {
        if a == v.len() {
            assert(w[b] == v[b]);
            assert(v.contains(v[b]));
        } else if b == v.len() {
            assert(w[a] == v[a]);
            assert(v.contains(v[a]));
        } else {
            assert(w[a] == v[a]);
            assert(w[b] == v[b]);
        }
    }
}

/// A list of distinct names inside a finite set is no longer than the set.
proof fn lemma_fits(v: Seq<Seq<char>>, uni: Set<Seq<char>>)
    requires
        v.no_duplicates(),
        uni.finite(),
        forall|n: Seq<char>| v.contains(n) ==> uni.contains(n),
    ensures
        v.len() <= uni.len(),
{
    v.unique_seq_to_set();
    assert(v.to_set().subset_of(uni));
    vstd::set_lib::lemma_len_subset(v.to_set(), uni);
}

/// The component schemas the direction pass splits, each named once.
///
/// A component splits when a property inside it, or inside a schema written
/// in it, carries a direction mark, or names a component that marks itself;
/// every component that reaches a split one through a same-document `$ref`
/// splits too, an alias included.
pub fn direction_split_schemas(entries: &Vec<SchemaEntry>) -> (split: Vec<String>)
    ensures
        views(split@).no_duplicates(),
        views(split@).to_set() == split_names(entries@),
{
    let ghost rel = schema_rel(entries@);
    let ghost seeds = marked_names(entries@);
    let ghost closure = split_names(entries@);
    let ghost uni = entry_name_seq(entries@).to_set();
    let dir = directional_list(entries);
    let adj = schema_graph(entries);
    let mut marked = marked_list(entries, &dir);
    let mut stack: Vec<String> = marked.clone();
    proof {
        lemma_back_closure(rel, seeds);
        vstd::seq_lib::seq_to_set_is_finite(entry_name_seq(entries@));
        assert forall|n: Seq<char>| views(marked@).contains(n) implies uni.contains(n) by {
            assert(views(marked@).to_set().contains(n));
            let i = choose|i: int|
                #![trigger entries@[i]]
                0 <= i < entries@.len() && entries@[i].name@ == n && (entries@[i].schema matches SchemaSlot::Item(x)
                    && shape_marks(x, directional_names(entries@)));
            assert(entry_name_seq(entries@)[i] == n);
        }
        lemma_fits(views(marked@), uni);
        assert(views(stack@) =~= views(marked@));
    }
    while stack.len() > 0
        invariant
            rel == schema_rel(entries@),
            rel_of(adj@) == rel,
            adj@.len() == entries@.len(),
            forall|i: int| 0 <= i < adj@.len() ==> (#[trigger] adj@[i]).name@ == entries@[i].name@,
            seeds == marked_names(entries@),
            closure == back_closure(rel, seeds),
            back_closed(rel, closure),
            seeds.subset_of(closure),
            uni == entry_name_seq(entries@).to_set(),
            uni.finite(),
            views(marked@).no_duplicates(),
            marked@.len() <= uni.len(),
            forall|n: Seq<char>| seeds.contains(n) ==> views(marked@).contains(n),
            forall|n: Seq<char>| views(marked@).contains(n) ==> closure.contains(n) && uni.contains(n),
            forall|n: Seq<char>| views(stack@).contains(n) ==> views(marked@).contains(n),
            forall|a: Seq<char>, q: Seq<char>|
                #[trigger] rel(a, q) && views(marked@).contains(q) && !views(marked@).contains(a) ==> views(
                    stack@,
                ).contains(q),
        decreases uni.len() - marked@.len(), stack@.len(),
    {
        let ghost stack0 = stack@;
        let ghost m0 = marked@.len();
        let name = stack.pop().unwrap();
        proof {
            assert(stack@ == stack0.drop_last());
            assert(views(stack@) =~= views(stack0).drop_last());
            assert(name@ == views(stack0).last());
            assert(views(stack0).contains(name@));
            assert forall|n: Seq<char>| views(stack@).contains(n) implies views(marked@).contains(n) by {
                let j = choose|j: int| 0 <= j < views(stack@).len() && views(stack@)[j] == n;
                assert(views(stack0)[j] == n);
            }
        }
        let ghost s1 = stack@.len();
        let parents = referrers(&adj, &name);
        proof {
            assert(views(parents@).take(0) =~= Seq::<Seq<char>>::empty());
            assert forall|a: Seq<char>, q: Seq<char>|
                #[trigger] rel(a, q) && views(marked@).contains(q) && !views(marked@).contains(a) implies views(
                    stack@,
                ).contains(q) || (q == name@ && !views(parents@).take(0).contains(a)) by {
                assert(views(stack0).contains(q));
                if q != name@ {
                    lemma_views_drop_last(stack0, q);
                }
            }
        }
        let mut j: usize = 0;
        while j < parents.len()
            invariant
                rel == schema_rel(entries@),
                rel_of(adj@) == rel,
                back_closed(rel, closure),
                uni == entry_name_seq(entries@).to_set(),
                uni.finite(),
                forall|p: Seq<char>| #[trigger] views(parents@).contains(p) <==> rel(p, name@),
                j <= parents@.len(),
                views(marked@).contains(name@),
                views(marked@).no_duplicates(),
                marked@.len() <= uni.len(),
                marked@.len() >= m0,
                marked@.len() - m0 == stack@.len() - s1,
                forall|n: Seq<char>| seeds.contains(n) ==> views(marked@).contains(n),
                forall|n: Seq<char>| views(marked@).contains(n) ==> closure.contains(n) && uni.contains(n),
                forall|n: Seq<char>| views(stack@).contains(n) ==> views(marked@).contains(n),
                forall|a: Seq<char>, q: Seq<char>|
                    #[trigger] rel(a, q) && views(marked@).contains(q) && !views(marked@).contains(a) ==> views(
                        stack@,
                    ).contains(q) || (q == name@ && !views(parents@).take(j as int).contains(a)),
            decreases parents@.len() - j,
        {
            let p = &parents[j];
            let ghost pv = p@;
            let ghost before_marked = views(marked@);
            let ghost before_stack = views(stack@);
            proof {
                assert(views(parents@)[j as int] == pv);
                assert(views(parents@).contains(pv));
                assert(rel(pv, name@));
                assert(views(parents@).take(j + 1) =~= views(parents@).take(j as int).push(pv));
            }
            if !contains_name(&marked, p) {
                proof {
                    assert(closure.contains(pv));
                    let i = choose|i: int| 0 <= i < entries@.len() && entries@[i].name@ == pv && #[trigger] entry_refs(entries@[i].schema).contains(name@);
                    assert(entry_name_seq(entries@)[i] == pv);
                    assert(uni.contains(pv));
                    lemma_push_fresh(before_marked, pv);
                    lemma_views_push(marked@, *p);
                    lemma_views_push(stack@, *p);
                }
                marked.push(p.clone());
                stack.push(p.clone());
                proof {
                    assert(views(marked@) == before_marked.push(pv));
                    assert(views(stack@) == before_stack.push(pv));
                    assert(views(marked@).contains(pv)) by {
                        assert(views(marked@)[before_marked.len() as int] == pv);
                    }
                    assert(views(stack@).contains(pv)) by {
                        assert(views(stack@)[before_stack.len() as int] == pv);
                    }
                    assert forall|n: Seq<char>| #[trigger] views(marked@).contains(n) implies n == pv || before_marked.contains(n) by {
                        let t = choose|t: int| 0 <= t < views(marked@).len() && views(marked@)[t] == n;
                        if t < before_marked.len() {
                            assert(before_marked[t] == n);
                        }
                    }
                    assert forall|n: Seq<char>| #[trigger] before_marked.contains(n) implies views(marked@).contains(n) by {
                        let t = choose|t: int| 0 <= t < before_marked.len() && before_marked[t] == n;
                        assert(views(marked@)[t] == n);
                    }
                    assert forall|n: Seq<char>| #[trigger] views(stack@).contains(n) implies n == pv || before_stack.contains(n) by {
                        let t = choose|t: int| 0 <= t < views(stack@).len() && views(stack@)[t] == n;
                        if t < before_stack.len() {
                            assert(before_stack[t] == n);
                        }
                    }
                    assert forall|n: Seq<char>| #[trigger] before_stack.contains(n) implies views(stack@).contains(n) by {
                        let t = choose|t: int| 0 <= t < before_stack.len() && before_stack[t] == n;
                        assert(views(stack@)[t] == n);
                    }
                    lemma_fits(views(marked@), uni);
                }
            }
            j = j + 1;
        }
        proof {
            assert(views(parents@).take(parents@.len() as int) =~= views(parents@));
        }
    }
    proof {
        let mset = views(marked@).to_set();
        assert(back_closed(rel, mset)) by {
            assert forall|a: Seq<char>, b: Seq<char>| mset.contains(b) && #[trigger] rel(a, b) implies mset.contains(a) by {
                if !views(marked@).contains(a) {
                    assert(views(stack@).contains(b));
                }
            }
        }
        assert(seeds.subset_of(mset));
        assert(closure.subset_of(mset));
        assert(mset =~= closure);
    }
    marked
}

} // verus!

verus! {

/// A component that names a split component splits as well, an alias
/// included: both runs must agree on every name a reference can reach.
pub proof fn referrers_of_split_components_split(entries: Seq<SchemaEntry>, a: Seq<char>, b: Seq<char>)
    requires
        (schema_rel(entries))(a, b),
        split_names(entries).contains(b),
    ensures
        split_names(entries).contains(a),
{
    lemma_back_closure(schema_rel(entries), marked_names(entries));
}

/// A component with a directional property splits.
pub proof fn marking_components_split(entries: Seq<SchemaEntry>, n: Seq<char>)
    requires
        marked_names(entries).contains(n),
    ensures
        split_names(entries).contains(n),
{
    lemma_back_closure(schema_rel(entries), marked_names(entries));
}

/// Only component names split: what no component declares cannot split.
pub proof fn only_components_split(entries: Seq<SchemaEntry>, n: Seq<char>)
    requires
        split_names(entries).contains(n),
    ensures
        exists|i: int| 0 <= i < entries.len() && entries[i].name@ == n,
{
    let names = Set::new(|m: Seq<char>| exists|i: int| 0 <= i < entries.len() && entries[i].name@ == m);
    let rel = schema_rel(entries);
    assert(back_closed(rel, names)) by {
        assert forall|a: Seq<char>, b: Seq<char>| names.contains(b) && #[trigger] rel(a, b) implies names.contains(a) by {
            let i = choose|i: int| 0 <= i < entries.len() && entries[i].name@ == a && #[trigger] entry_refs(entries[i].schema).contains(b);
            assert(entries[i].name@ == a);
        }
    }
    assert(marked_names(entries).subset_of(names)) by {
        assert forall|m: Seq<char>| marked_names(entries).contains(m) implies names.contains(m) by {
            let i = choose|i: int|
                #![trigger entries[i]]
                0 <= i < entries.len() && entries[i].name@ == m && (entries[i].schema matches SchemaSlot::Item(x)
                    && shape_marks(x, directional_names(entries)));
            assert(entries[i].name@ == m);
        }
    }
    lemma_back_closure(rel, marked_names(entries));
    assert(names.contains(n));
}

} // verus!
