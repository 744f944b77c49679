//! Deciding each generated model's derive set from how the API uses it.
//!
//! A server serializes response bodies and deserializes request bodies; a
//! client does the reverse. This module seeds each component model as
//! request-reachable and/or response-reachable from the [`Service`], carries
//! that reachability along the model-reference graph, and combines it with the
//! generation targets to pick each model's serde traits.
//!
//! A foreign (`x-rust-type`) type that lacks `Debug`, `Clone`, or `PartialEq`
//! constrains the model naming it and every model that reaches that one, so the
//! constraint travels the same graph the other way.
//!
//! Every name is canonicalized to the `PascalCase` identifier the items carry.

use vstd::prelude::*;

use crate::emit::models::ModelDerives;
use crate::emit::models::SerdeDerives;
use crate::graph::Edges;
use crate::graph::Rel;
use crate::graph::find_node;
use crate::graph::lemma_views_push;
use crate::graph::node_names;
use crate::graph::name_seq;
use crate::graph::all_targets;
use crate::graph::closed;
use crate::graph::extend_names;
use crate::graph::lemma_closure;
use crate::graph::lemma_edge_target;
use crate::graph::lemma_views_drop_last;
use crate::graph::reach;
use crate::graph::closure;
use crate::graph::lemma_closure_empty;
use crate::graph::lemma_closure_union;
use vstd::seq_lib::seq_to_set_is_finite;
use crate::graph::rel_of;
use crate::graph::unique_names;
use crate::graph::views;
use crate::ir::EnumKind;
use crate::ir::Field;
use crate::ir::Item;
use crate::ir::Module;
use crate::ir::RustType;
use crate::ir::UnionVariant;
use crate::ir::Param;
use crate::ir::HeaderParam;
use crate::ir::CookieParam;
use crate::ir::MultipartField;
use crate::ir::BodyVariant;
use crate::ir::ResponseHeader;
use crate::ir::RequestPayload;
use crate::ir::ResponseBody;
use crate::ir::ResponseCase;
use crate::ir::Operation;
use crate::ir::Service;
use crate::ir::item_name;
use crate::naming::Case;
use crate::naming::ident_text;
use crate::naming::to_ident;
use crate::emit::Targets;
use crate::emit::foreign::ForeignEntry;
use crate::emit::foreign::ForeignTrait;
use crate::emit::foreign::allowed_for;
use crate::emit::foreign::constrained_models;
use crate::emit::foreign::foreign_derives;
use crate::emit::foreign::foreign_keys;
use crate::emit::foreign::foreign_name_seq;
use crate::emit::foreign::lacking;
use crate::emit::foreign::lacking_models;
use crate::emit::foreign::lookup;
use crate::emit::foreign::lookup_exec;
use crate::emit::foreign::unique_foreign;

verus! {

/// The model names a type expression references, looking through `Vec`,
/// `HashMap`, `Option`, and `Box`.
pub open spec fn named_refs(t: RustType) -> Seq<Seq<char>>
    decreases t,
{
    match t {
        RustType::Named(name) => seq![ident_text(name@, Case::Pascal)],
        RustType::Vec(inner) => named_refs(*inner),
        RustType::HashMap(inner) => named_refs(*inner),
        RustType::Option(inner) => named_refs(*inner),
        RustType::Boxed(inner) => named_refs(*inner),
        _ => Seq::empty(),
    }
}

/// The model names a list of fields references, in field order.
pub open spec fn fields_refs(fs: Seq<Field>) -> Seq<Seq<char>>
    decreases fs.len(),
{
    if fs.len() == 0 {
        Seq::empty()
    } else {
        fields_refs(fs.drop_last()) + named_refs(fs.last().ty)
    }
}

/// The model names a list of union variants references, in variant order.
pub open spec fn variants_refs(vs: Seq<UnionVariant>) -> Seq<Seq<char>>
    decreases vs.len(),
{
    if vs.len() == 0 {
        Seq::empty()
    } else {
        variants_refs(vs.drop_last()) + named_refs(vs.last().ty)
    }
}

/// The model names an item references through its fields, variants, or alias target.
pub open spec fn item_refs(item: Item) -> Seq<Seq<char>> {
    match item {
        Item::Struct(s) => fields_refs(s.fields@) + match s.additional_properties {
            Some(t) => named_refs(t),
            None => Seq::empty(),
        },
        Item::Enum(e) => match e.kind {
            EnumKind::Union(vs) => variants_refs(vs@),
            _ => Seq::empty(),
        },
        Item::Alias(a) => named_refs(a.ty),
    }
}

/// Whether item `i` is the last item named `n`.
pub open spec fn last_named(items: Seq<Item>, n: Seq<char>, i: int) -> bool {
    &&& 0 <= i < items.len()
    &&& item_name(items[i]) == n
    &&& forall|j: int| i < j < items.len() ==> item_name(#[trigger] items[j]) != n
}

/// The model-reference graph: model `a` references model `b` when the last item
/// named `a` references `b`.
pub open spec fn model_rel(items: Seq<Item>) -> Rel {
    |a: Seq<char>, b: Seq<char>| exists|i: int| last_named(items, a, i) && #[trigger] item_refs(items[i]).contains(b)
}

/// The names of a list of items, in item order.
pub open spec fn item_name_seq(items: Seq<Item>) -> Seq<Seq<char>> {
    items.map_values(|it: Item| item_name(it))
}

/// The names of a list of items.
pub open spec fn item_names(items: Seq<Item>) -> Set<Seq<char>> {
    item_name_seq(items).to_set()
}

/// Whether the nodes of `g` are named exactly by the items.
pub open spec fn same_names(items: Seq<Item>, g: Seq<Edges>) -> bool {
    node_names(g) == item_names(items)
}

/// Append the canonical names `ty` references to `out`.
pub fn collect_named(ty: &RustType, out: &mut Vec<String>)
    ensures
        views(final(out)@) == views(old(out)@) + named_refs(*ty),
    decreases ty,
{
    match ty {
        RustType::Named(name) => {
            let ident = to_ident(name.as_str(), Case::Pascal);
            let text = crate::text::owned(ident.logical());
            proof {
                lemma_views_push(out@, text);
            }
            out.push(text);
            assert(views(out@) =~= views(old(out)@) + named_refs(*ty));
        },
        RustType::Vec(inner) => collect_named(inner, out),
        RustType::HashMap(inner) => collect_named(inner, out),
        RustType::Option(inner) => collect_named(inner, out),
        RustType::Boxed(inner) => collect_named(inner, out),
        _ => {
            assert(views(out@) =~= views(old(out)@) + named_refs(*ty));
        },
    }
}

fn collect_fields(fields: &Vec<Field>, out: &mut Vec<String>)
    ensures
        views(final(out)@) == views(old(out)@) + fields_refs(fields@),
{
    let mut k: usize = 0;
    while k < fields.len()
        invariant
            k <= fields@.len(),
            views(out@) == views(old(out)@) + fields_refs(fields@.take(k as int)),
        decreases fields@.len() - k,
    {
        collect_named(&fields[k].ty, out);
        assert(fields@.take(k + 1).drop_last() =~= fields@.take(k as int));
        k = k + 1;
        assert(views(out@) =~= views(old(out)@) + fields_refs(fields@.take(k as int)));
    }
    assert(fields@.take(fields@.len() as int) =~= fields@);
}

fn collect_variants(variants: &Vec<UnionVariant>, out: &mut Vec<String>)
    ensures
        views(final(out)@) == views(old(out)@) + variants_refs(variants@),
{
    let mut k: usize = 0;
    while k < variants.len()
        invariant
            k <= variants@.len(),
            views(out@) == views(old(out)@) + variants_refs(variants@.take(k as int)),
        decreases variants@.len() - k,
    {
        collect_named(&variants[k].ty, out);
        assert(variants@.take(k + 1).drop_last() =~= variants@.take(k as int));
        k = k + 1;
        assert(views(out@) =~= views(old(out)@) + variants_refs(variants@.take(k as int)));
    }
    assert(variants@.take(variants@.len() as int) =~= variants@);
}

/// The canonical model names an item references.
pub fn item_references(item: &Item) -> (names: Vec<String>)
    ensures
        views(names@) == item_refs(*item),
{
    let mut names: Vec<String> = Vec::new();
    match item {
        Item::Struct(strukt) => {
            collect_fields(&strukt.fields, &mut names);
            match &strukt.additional_properties {
                Some(additional) => collect_named(additional, &mut names),
                None => {},
            }
        },
        Item::Enum(enom) => {
            match &enom.kind {
                EnumKind::Union(variants) => collect_variants(variants, &mut names),
                _ => {},
            }
        },
        Item::Alias(alias) => collect_named(&alias.ty, &mut names),
    }
    assert(views(names@) =~= item_refs(*item));
    names
}

/// The model-reference graph of a module: one node per item name, pointing at
/// the names the item references. A later item with a name already seen
/// replaces the earlier one.
pub fn adjacency(module: &Module) -> (g: Vec<Edges>)
    ensures
        unique_names(g@),
        rel_of(g@) == model_rel(module.items@),
        same_names(module.items@, g@),
{
    let mut g: Vec<Edges> = Vec::new();
    let ghost mut src: Seq<int> = Seq::empty();
    let mut k: usize = 0;
    while k < module.items.len()
        invariant
            k <= module.items@.len(),
            unique_names(g@),
            src.len() == g@.len(),
            forall|p: int|
                #![trigger g@[p]]
                0 <= p < g@.len() ==> last_named(module.items@.take(k as int), g@[p].name@, src[p])
                    && views(g@[p].targets@) == item_refs(module.items@[src[p]]),
            forall|i: int|
                #![trigger module.items@[i]]
                0 <= i < k ==> exists|p: int| 0 <= p < g@.len() && g@[p].name@ == item_name(module.items@[i]),
        decreases module.items@.len() - k,
    {
        let item = &module.items[k];
        let name = crate::text::owned(item.name());
        let targets = item_references(item);
        let ghost prefix = module.items@.take(k as int);
        let ghost next = module.items@.take(k + 1);
        assert forall|j: int| 0 <= j < k implies next[j] == prefix[j] by {}
        match find_node(&g, &name) {
            Some(p) => {
                let ghost old_g = g@;
                let ghost old_src = src;
                g.set(p, Edges { name, targets });
                proof {
                    src = src.update(p as int, k as int);
                    assert forall|q: int| #![trigger g@[q]] 0 <= q < g@.len() implies last_named(next, g@[q].name@, src[q])
                        && views(g@[q].targets@) == item_refs(module.items@[src[q]]) by {
                        if q != p {
                            assert(old_g[q].name@ != old_g[p as int].name@);
                            assert(last_named(prefix, old_g[q].name@, old_src[q]));
                        }
                    }
                    assert forall|i: int| #![trigger module.items@[i]] 0 <= i < k + 1 implies exists|q: int|
                        0 <= q < g@.len() && g@[q].name@ == item_name(module.items@[i]) by {
                        if i < k {
                            let q = choose|q: int| 0 <= q < old_g.len() && old_g[q].name@ == item_name(module.items@[i]);
                            if q == p {
                                assert(g@[q].name@ == item_name(module.items@[i]));
                            } else {
                                assert(g@[q] == old_g[q]);
                            }
                        } else {
                            assert(g@[p as int].name@ == item_name(module.items@[i]));
                        }
                    }
                }
            },
            None => {
                let ghost old_g = g@;
                let ghost old_src = src;
                g.push(Edges { name, targets });
                proof {
                    src = src.push(k as int);
                    assert forall|q: int| #![trigger g@[q]] 0 <= q < g@.len() implies last_named(next, g@[q].name@, src[q])
                        && views(g@[q].targets@) == item_refs(module.items@[src[q]]) by {
                        if q < old_g.len() {
                            assert(g@[q] == old_g[q]);
                            assert(last_named(prefix, old_g[q].name@, old_src[q]));
                        }
                    }
                    assert forall|i: int| #![trigger module.items@[i]] 0 <= i < k + 1 implies exists|q: int|
                        0 <= q < g@.len() && g@[q].name@ == item_name(module.items@[i]) by {
                        if i < k {
                            let q = choose|q: int| 0 <= q < old_g.len() && old_g[q].name@ == item_name(module.items@[i]);
                            assert(g@[q] == old_g[q]);
                        } else {
                            assert(g@[old_g.len() as int].name@ == item_name(module.items@[i]));
                        }
                    }
                }
            },
        }
        k = k + 1;
    }
    proof {
        assert(module.items@.take(module.items@.len() as int) =~= module.items@);
        let r1 = rel_of(g@);
        let r2 = model_rel(module.items@);
        assert forall|a: Seq<char>, b: Seq<char>| #[trigger] r1(a, b) == r2(a, b) by {
            if r1(a, b) {
                let p = choose|p: int| 0 <= p < g@.len() && g@[p].name@ == a && #[trigger] views(g@[p].targets@).contains(b);
                assert(last_named(module.items@, a, src[p]));
                assert(item_refs(module.items@[src[p]]).contains(b));
            }
            if r2(a, b) {
                let i = choose|i: int| last_named(module.items@, a, i) && #[trigger] item_refs(module.items@[i]).contains(b);
                let p = choose|p: int| 0 <= p < g@.len() && g@[p].name@ == item_name(module.items@[i]);
                assert(last_named(module.items@, a, src[p]));
                assert(src[p] == i) by {
                    if src[p] < i {
                        assert(item_name(module.items@[i]) == a);
                    } else if src[p] > i {
                        assert(item_name(module.items@[src[p]]) == a);
                    }
                }
                assert(views(g@[p].targets@).contains(b));
            }
        }
        assert(r1 =~= r2);
        assert(node_names(g@) =~= item_names(module.items@)) by {
            assert forall|n: Seq<char>| node_names(g@).contains(n) implies item_names(module.items@).contains(n) by {
                let p = choose|p: int| 0 <= p < g@.len() && #[trigger] name_seq(g@)[p] == n;
                assert(last_named(module.items@, g@[p].name@, src[p]));
                assert(item_name_seq(module.items@)[src[p]] == n);
            }
            assert forall|n: Seq<char>| item_names(module.items@).contains(n) implies node_names(g@).contains(n) by {
                let i = choose|i: int| 0 <= i < module.items@.len() && #[trigger] item_name_seq(module.items@)[i] == n;
                assert(item_name(module.items@[i]) == n);
                let p = choose|p: int| 0 <= p < g@.len() && g@[p].name@ == item_name(module.items@[i]);
                assert(name_seq(g@)[p] == n);
            }
        }
    }
    g
}

} // verus!

verus! {

/// Whether a model is reachable as a request payload and/or a response payload.
#[derive(Debug, Clone, Copy, PartialEq, Eq)]
pub struct Usage {
    /// Reachable from a request body or a request parameter.
    pub request: bool,
    /// Reachable from a response body or a response header.
    pub response: bool,
}

impl Usage {
    /// Reached in neither direction.
    pub fn none() -> (r: Usage)
        ensures
            !r.request,
            !r.response,
    {
        Usage { request: false, response: false }
    }
}

/// The way a payload travels.
#[derive(Debug, Clone, Copy, PartialEq, Eq)]
pub enum Direction {
    /// From the client to the server.
    Request,
    /// From the server back to the client.
    Response,
}

/// The flag of `u` for direction `d`.
pub open spec fn flag(u: Usage, d: Direction) -> bool {
    match d {
        Direction::Request => u.request,
        Direction::Response => u.response,
    }
}

/// The other direction.
pub open spec fn opposite(d: Direction) -> Direction {
    match d {
        Direction::Request => Direction::Response,
        Direction::Response => Direction::Request,
    }
}

/// One model name and how the API uses it.
#[derive(Debug, Clone)]
pub struct UsageEntry {
    /// The canonical model name.
    pub name: String,
    /// The directions that reach it.
    pub usage: Usage,
}

/// The names of a usage table, in entry order.
pub open spec fn entry_name_seq(es: Seq<UsageEntry>) -> Seq<Seq<char>> {
    es.map_values(|e: UsageEntry| e.name@)
}

/// The names a usage table has an entry for.
pub open spec fn usage_keys(es: Seq<UsageEntry>) -> Set<Seq<char>> {
    entry_name_seq(es).to_set()
}

/// No two entries share a name.
pub open spec fn unique_keys(es: Seq<UsageEntry>) -> bool {
    forall|i: int, j: int|
        #![trigger es[i].name@, es[j].name@]
        0 <= i < es.len() && 0 <= j < es.len() && i != j ==> es[i].name@ != es[j].name@
}

/// The names whose entry carries the flag for `d`.
pub open spec fn flagged(es: Seq<UsageEntry>, d: Direction) -> Set<Seq<char>> {
    Set::new(|n: Seq<char>| exists|i: int| #![trigger es[i]] 0 <= i < es.len() && es[i].name@ == n && flag(es[i].usage, d))
}

/// A flagged name has an entry.
pub proof fn lemma_flagged_keys(es: Seq<UsageEntry>, d: Direction)
    ensures
        flagged(es, d).subset_of(usage_keys(es)),
{
    assert forall|n: Seq<char>| flagged(es, d).contains(n) implies usage_keys(es).contains(n) by {
        let i = choose|i: int| #![trigger es[i]] 0 <= i < es.len() && es[i].name@ == n && flag(es[i].usage, d);
        assert(entry_name_seq(es)[i] == n);
    }
}

/// The index of the entry named `name`, when there is one.
fn find_entry(usage: &Vec<UsageEntry>, name: &String) -> (r: Option<usize>)
    ensures
        r matches Some(i) ==> i < usage@.len() && usage@[i as int].name@ == name@,
        r is None ==> !usage_keys(usage@).contains(name@),
{
    let mut i: usize = 0;
    while i < usage.len()
        invariant
            i <= usage@.len(),
            forall|k: int| 0 <= k < i ==> usage@[k].name@ != name@,
        decreases usage@.len() - i,
    {
        if usage[i].name == *name {
            return Some(i);
        }
        i = i + 1;
    }
    proof {
        if usage_keys(usage@).contains(name@) {
            let k = choose|k: int| 0 <= k < usage@.len() && #[trigger] entry_name_seq(usage@)[k] == name@;
            assert(usage@[k].name@ == name@);
        }
    }
    None
}

/// The names a walk from `start` can meet: `start` and every name a node points at.
pub open spec fn universe(adj: Seq<Edges>, start: Seq<char>) -> Set<Seq<char>> {
    all_targets(adj).to_set().insert(start)
}

/// Flag `start` and every model reachable from it with `d`, following model
/// references until no new model is reached. Each name met on the way gets an
/// entry, with no flag where none was set before.
pub fn mark(adj: &Vec<Edges>, start: &str, usage: &mut Vec<UsageEntry>, d: Direction)
    requires
        unique_names(adj@),
        unique_keys(old(usage)@),
        closed(rel_of(adj@), flagged(old(usage)@, d)),
    ensures
        unique_keys(final(usage)@),
        flagged(final(usage)@, d) == flagged(old(usage)@, d).union(reach(rel_of(adj@), start@)),
        flagged(final(usage)@, opposite(d)) == flagged(old(usage)@, opposite(d)),
        usage_keys(final(usage)@) == usage_keys(old(usage)@).union(reach(rel_of(adj@), start@)),
{
    let ghost rel = rel_of(adj@);
    let ghost f0 = flagged(old(usage)@, d);
    let ghost g0 = flagged(old(usage)@, opposite(d));
    let ghost keys0 = usage_keys(old(usage)@);
    let ghost r = reach(rel, start@);
    let ghost uni = universe(adj@, start@);
    proof {
        lemma_closure(rel, set![start@]);
        seq_to_set_is_finite(all_targets(adj@));
        lemma_flagged_keys(old(usage)@, d);
    }
    let mut stack: Vec<String> = Vec::new();
    stack.push(crate::text::owned(start));
    assert(views(stack@) =~= seq![start@]);
    assert(views(stack@)[0] == start@);
    while stack.len() > 0
        invariant
            unique_names(adj@),
            rel == rel_of(adj@),
            r == reach(rel, start@),
            uni == universe(adj@, start@),
            uni.finite(),
            r.contains(start@),
            closed(rel, r),
            closed(rel, f0),
            unique_keys(usage@),
            f0.subset_of(flagged(usage@, d)),
            flagged(usage@, d).subset_of(f0.union(r)),
            flagged(usage@, opposite(d)) == g0,
            keys0.subset_of(usage_keys(usage@)),
            usage_keys(usage@).subset_of(keys0.union(r)),
            forall|k: int| 0 <= k < stack@.len() ==> r.contains(#[trigger] stack@[k]@) && uni.contains(stack@[k]@),
            forall|a: Seq<char>, b: Seq<char>|
                flagged(usage@, d).contains(a) && #[trigger] rel(a, b) ==> flagged(usage@, d).contains(b) || views(stack@).contains(b),
            flagged(usage@, d).contains(start@) || views(stack@).contains(start@),
        decreases uni.difference(flagged(usage@, d)).len(), stack@.len(),
    {
        let ghost before = usage@;
        let ghost stack_before = stack@;
        let ghost fb = flagged(usage@, d);
        let name = stack.pop().unwrap();
        assert(stack@ == stack_before.drop_last());
        assert(name == stack_before[stack_before.len() - 1]);
        let idx = match find_entry(usage, &name) {
            Some(i) => i,
            None => {
                let ghost pre = usage@;
                usage.push(UsageEntry { name: name.clone(), usage: Usage::none() });
                proof {
                    assert(flagged(usage@, d) =~= flagged(pre, d)) by {
                        assert forall|n: Seq<char>| flagged(usage@, d).contains(n) implies flagged(pre, d).contains(n) by {
                            let i = choose|i: int| #![trigger usage@[i]] 0 <= i < usage@.len() && usage@[i].name@ == n && flag(usage@[i].usage, d);
                            assert(i < pre.len());
                            assert(pre[i] == usage@[i]);
                        }
                        assert forall|n: Seq<char>| flagged(pre, d).contains(n) implies flagged(usage@, d).contains(n) by {
                            let i = choose|i: int| #![trigger pre[i]] 0 <= i < pre.len() && pre[i].name@ == n && flag(pre[i].usage, d);
                            assert(usage@[i] == pre[i]);
                        }
                    }
                    assert(flagged(usage@, opposite(d)) =~= flagged(pre, opposite(d))) by {
                        assert forall|n: Seq<char>| flagged(usage@, opposite(d)).contains(n) implies flagged(pre, opposite(d)).contains(n) by {
                            let i = choose|i: int| #![trigger usage@[i]] 0 <= i < usage@.len() && usage@[i].name@ == n && flag(usage@[i].usage, opposite(d));
                            assert(i < pre.len());
                            assert(pre[i] == usage@[i]);
                        }
                        assert forall|n: Seq<char>| flagged(pre, opposite(d)).contains(n) implies flagged(usage@, opposite(d)).contains(n) by {
                            let i = choose|i: int| #![trigger pre[i]] 0 <= i < pre.len() && pre[i].name@ == n && flag(pre[i].usage, opposite(d));
                            assert(usage@[i] == pre[i]);
                        }
                    }
                    assert(entry_name_seq(usage@) =~= entry_name_seq(pre).push(name@));
                    assert(usage_keys(usage@) =~= usage_keys(pre).insert(name@)) by {
                        assert forall|n: Seq<char>| usage_keys(usage@).contains(n) implies usage_keys(pre).insert(name@).contains(n) by {
                            let k = choose|k: int| 0 <= k < usage@.len() && #[trigger] entry_name_seq(usage@)[k] == n;
                            if k < pre.len() {
                                assert(entry_name_seq(pre)[k] == n);
                            }
                        }
                        assert forall|n: Seq<char>| usage_keys(pre).insert(name@).contains(n) implies usage_keys(usage@).contains(n) by {
                            if n == name@ {
                                assert(entry_name_seq(usage@)[pre.len() as int] == n);
                            } else {
                                let k = choose|k: int| 0 <= k < pre.len() && #[trigger] entry_name_seq(pre)[k] == n;
                                assert(entry_name_seq(usage@)[k] == n);
                            }
                        }
                    }
                    assert forall|i: int, j: int|
                        #![trigger usage@[i].name@, usage@[j].name@]
                        0 <= i < usage@.len() && 0 <= j < usage@.len() && i != j implies usage@[i].name@ != usage@[j].name@ by {
                        if i < pre.len() && j < pre.len() {
                            assert(pre[i] == usage@[i] && pre[j] == usage@[j]);
                        } else if i < pre.len() {
                            assert(entry_name_seq(pre)[i] == pre[i].name@);
                        } else if j < pre.len() {
                            assert(entry_name_seq(pre)[j] == pre[j].name@);
                        }
                    }
                }
                usage.len() - 1
            },
        };
        let cur = usage[idx].usage;
        let already = match d {
            Direction::Request => cur.request,
            Direction::Response => cur.response,
        };
        if already {
            proof {
                assert(flagged(usage@, d).contains(name@)) by {
                    assert(usage@[idx as int].name@ == name@);
                }
                assert forall|a: Seq<char>, b: Seq<char>|
                    flagged(usage@, d).contains(a) && #[trigger] rel(a, b) implies flagged(usage@, d).contains(b) || views(stack@).contains(b) by {
                    if !flagged(usage@, d).contains(b) && b != name@ {
                        lemma_views_drop_last(stack_before, b);
                    }
                }
                if !flagged(usage@, d).contains(start@) && start@ != name@ {
                    lemma_views_drop_last(stack_before, start@);
                }
                assert(flagged(usage@, d) =~= fb);
            }
        } else {
            let updated = match d {
                Direction::Request => Usage { request: true, response: cur.response },
                Direction::Response => Usage { request: cur.request, response: true },
            };
            let node = find_node(adj, &name);
            let ghost pre = usage@;
            let ghost fpre = flagged(pre, d);
            usage.set(idx, UsageEntry { name, usage: updated });
            proof {
                let n = pre[idx as int].name@;
                assert(flagged(usage@, d) =~= fpre.insert(n)) by {
                    assert forall|m: Seq<char>| flagged(usage@, d).contains(m) implies fpre.insert(m).contains(m) by {}
                    assert forall|m: Seq<char>| flagged(usage@, d).contains(m) implies fpre.insert(n).contains(m) by {
                        let i = choose|i: int| #![trigger usage@[i]] 0 <= i < usage@.len() && usage@[i].name@ == m && flag(usage@[i].usage, d);
                        if i != idx {
                            assert(pre[i] == usage@[i]);
                        }
                    }
                    assert forall|m: Seq<char>| fpre.insert(n).contains(m) implies flagged(usage@, d).contains(m) by {
                        if m == n {
                            assert(usage@[idx as int].name@ == m);
                        } else {
                            let i = choose|i: int| #![trigger pre[i]] 0 <= i < pre.len() && pre[i].name@ == m && flag(pre[i].usage, d);
                            assert(i != idx);
                            assert(usage@[i] == pre[i]);
                        }
                    }
                }
                assert(flagged(usage@, opposite(d)) =~= flagged(pre, opposite(d))) by {
                    assert forall|m: Seq<char>| flagged(usage@, opposite(d)).contains(m) implies flagged(pre, opposite(d)).contains(m) by {
                        let i = choose|i: int| #![trigger usage@[i]] 0 <= i < usage@.len() && usage@[i].name@ == m && flag(usage@[i].usage, opposite(d));
                        if i != idx {
                            assert(pre[i] == usage@[i]);
                        } else {
                            assert(pre[i].name@ == m);
                        }
                    }
                    assert forall|m: Seq<char>| flagged(pre, opposite(d)).contains(m) implies flagged(usage@, opposite(d)).contains(m) by {
                        let i = choose|i: int| #![trigger pre[i]] 0 <= i < pre.len() && pre[i].name@ == m && flag(pre[i].usage, opposite(d));
                        if i != idx {
                            assert(usage@[i] == pre[i]);
                        } else {
                            assert(usage@[i].name@ == m);
                        }
                    }
                }
                assert(entry_name_seq(usage@) =~= entry_name_seq(pre));
                assert forall|i: int, j: int|
                    #![trigger usage@[i].name@, usage@[j].name@]
                    0 <= i < usage@.len() && 0 <= j < usage@.len() && i != j implies usage@[i].name@ != usage@[j].name@ by {
                    assert(pre[i].name@ == usage@[i].name@ && pre[j].name@ == usage@[j].name@);
                }
                assert(uni.contains(n));
                assert(!fpre.contains(n)) by {
                    if fpre.contains(n) {
                        let i = choose|i: int| #![trigger pre[i]] 0 <= i < pre.len() && pre[i].name@ == n && flag(pre[i].usage, d);
                        assert(i == idx);
                    }
                }
                uni.lemma_set_insert_diff_decreases(fpre, n);
            }
            match node {
                Some(p) => {
                    let ghost mid = stack@;
                    extend_names(&mut stack, &adj[p].targets);
                    proof {
                        let n = usage@[idx as int].name@;
                        assert forall|k: int| 0 <= k < stack@.len() implies r.contains(#[trigger] stack@[k]@) && uni.contains(stack@[k]@) by {
                            assert(views(stack@).len() == stack@.len());
                            assert(views(stack@)[k] == stack@[k]@);
                            if k >= mid.len() {
                                let t = stack@[k]@;
                                assert(views(stack@)[k] == views(adj@[p as int].targets@)[k - mid.len()]);
                                assert(views(adj@[p as int].targets@).contains(t));
                                assert(rel(n, t));
                                lemma_edge_target(adj@, n, t);
                            } else {
                                assert(views(stack@)[k] == views(mid)[k]);
                                assert(views(mid)[k] == mid[k]@);
                                assert(mid[k] == stack_before[k]);
                            }
                        }
                        assert forall|a: Seq<char>, b: Seq<char>|
                            flagged(usage@, d).contains(a) && #[trigger] rel(a, b) implies flagged(usage@, d).contains(b) || views(stack@).contains(b) by {
                            if a == n {
                                let q = choose|q: int| 0 <= q < adj@.len() && adj@[q].name@ == a && #[trigger] views(adj@[q].targets@).contains(b);
                                assert(q == p);
                                let m = choose|m: int| 0 <= m < views(adj@[q].targets@).len() && views(adj@[q].targets@)[m] == b;
                                assert(views(stack@)[mid.len() + m] == b);
                            } else if !flagged(usage@, d).contains(b) {
                                if b != n {
                                    lemma_views_drop_last(stack_before, b);
                                    let m = choose|m: int| 0 <= m < views(mid).len() && views(mid)[m] == b;
                                    assert(views(stack@)[m] == b);
                                }
                            }
                        }
                        if !flagged(usage@, d).contains(start@) && start@ != n {
                            lemma_views_drop_last(stack_before, start@);
                            let m = choose|m: int| 0 <= m < views(mid).len() && views(mid)[m] == start@;
                            assert(views(stack@)[m] == start@);
                        }
                    }
                },
                None => {
                    proof {
                        let n = usage@[idx as int].name@;
                        assert forall|a: Seq<char>, b: Seq<char>|
                            flagged(usage@, d).contains(a) && #[trigger] rel(a, b) implies flagged(usage@, d).contains(b) || views(stack@).contains(b) by {
                            if a == n {
                                let q = choose|q: int| 0 <= q < adj@.len() && adj@[q].name@ == a && #[trigger] views(adj@[q].targets@).contains(b);
                                assert(adj@[q].name@ == n);
                            } else if !flagged(usage@, d).contains(b) && b != n {
                                lemma_views_drop_last(stack_before, b);
                            }
                        }
                        if !flagged(usage@, d).contains(start@) && start@ != n {
                            lemma_views_drop_last(stack_before, start@);
                        }
                    }
                },
            }
        }
    }
    proof {
        let fin = flagged(usage@, d);
        assert(closed(rel, fin));
        assert(set![start@].subset_of(fin));
        lemma_closure(rel, set![start@]);
        assert(r.subset_of(fin));
        assert(fin =~= f0.union(r));
        lemma_flagged_keys(usage@, d);
        assert(usage_keys(usage@) =~= keys0.union(r));
    }
}

} // verus!

verus! {

/// The model names a list of type expressions references, in order.
pub open spec fn types_refs(ts: Seq<RustType>) -> Seq<Seq<char>>
    decreases ts.len(),
{
    if ts.len() == 0 {
        Seq::empty()
    } else {
        types_refs(ts.drop_last()) + named_refs(ts.last())
    }
}

/// One more type expression adds the names it references.
pub proof fn lemma_types_refs_push(ts: Seq<RustType>, t: RustType)
    ensures
        types_refs(ts.push(t)) == types_refs(ts) + named_refs(t),
{
    assert(ts.push(t).drop_last() =~= ts);
}

/// The types of a list of path parameters.
pub open spec fn param_types(ps: Seq<Param>) -> Seq<RustType> {
    ps.map_values(|p: Param| p.ty)
}

/// The types of a list of header parameters.
pub open spec fn header_param_types(ps: Seq<HeaderParam>) -> Seq<RustType> {
    ps.map_values(|p: HeaderParam| p.ty)
}

/// The types of a list of cookie parameters.
pub open spec fn cookie_param_types(ps: Seq<CookieParam>) -> Seq<RustType> {
    ps.map_values(|p: CookieParam| p.ty)
}

/// The types of a list of multipart fields.
pub open spec fn multipart_types(fs: Seq<MultipartField>) -> Seq<RustType> {
    fs.map_values(|f: MultipartField| f.ty)
}

/// The body types of a negotiated body's variants.
pub open spec fn negotiated_types(vs: Seq<BodyVariant>) -> Seq<RustType> {
    vs.map_values(|v: BodyVariant| v.body.ty)
}

/// The types of a list of response headers.
pub open spec fn response_header_types(hs: Seq<ResponseHeader>) -> Seq<RustType> {
    hs.map_values(|h: ResponseHeader| h.ty)
}

/// The types of a list of struct fields.
pub open spec fn field_types(fs: Seq<Field>) -> Seq<RustType> {
    fs.map_values(|f: Field| f.ty)
}

/// The model names a request payload references.
pub open spec fn payload_refs(p: RequestPayload) -> Seq<Seq<char>> {
    match p {
        RequestPayload::Single(body) => named_refs(body.ty),
        RequestPayload::Multipart(m) => types_refs(multipart_types(m.fields@)),
        RequestPayload::Negotiated(b) => types_refs(negotiated_types(b.variants@)),
    }
}

/// The model names one operation seeds as request-reachable: its path, query,
/// header, and cookie parameters, then its request payload.
pub open spec fn op_request_refs(op: Operation) -> Seq<Seq<char>> {
    types_refs(param_types(op.path_params@))
        + match op.query {
            Some(q) => types_refs(field_types(q.fields@)),
            None => Seq::empty(),
        }
        + match op.headers {
            Some(h) => types_refs(header_param_types(h.params@)),
            None => Seq::empty(),
        }
        + match op.cookies {
            Some(c) => types_refs(cookie_param_types(c.params@)),
            None => Seq::empty(),
        }
        + match op.request {
            Some(p) => payload_refs(p),
            None => Seq::empty(),
        }
}

/// The model names every operation seeds as request-reachable, operation by operation.
pub open spec fn request_refs(ops: Seq<Operation>) -> Seq<Seq<char>>
    decreases ops.len(),
{
    if ops.len() == 0 {
        Seq::empty()
    } else {
        request_refs(ops.drop_last()) + op_request_refs(ops.last())
    }
}

/// The model names one response seeds as response-reachable: its headers, then its body.
pub open spec fn case_refs(c: ResponseCase) -> Seq<Seq<char>> {
    types_refs(response_header_types(c.headers@)) + match c.body {
        Some(ResponseBody::Single(body)) => named_refs(body.ty),
        Some(ResponseBody::Negotiated(b)) => types_refs(negotiated_types(b.variants@)),
        None => Seq::empty(),
    }
}

/// The model names a list of responses seeds, response by response.
pub open spec fn cases_refs(cs: Seq<ResponseCase>) -> Seq<Seq<char>>
    decreases cs.len(),
{
    if cs.len() == 0 {
        Seq::empty()
    } else {
        cases_refs(cs.drop_last()) + case_refs(cs.last())
    }
}

/// The model names every operation seeds as response-reachable, operation by operation.
pub open spec fn response_refs(ops: Seq<Operation>) -> Seq<Seq<char>>
    decreases ops.len(),
{
    if ops.len() == 0 {
        Seq::empty()
    } else {
        response_refs(ops.drop_last()) + cases_refs(ops.last().responses@)
    }
}

fn collect_params(ps: &Vec<Param>, out: &mut Vec<String>)
    ensures
        views(final(out)@) == views(old(out)@) + types_refs(param_types(ps@)),
{
    let mut k: usize = 0;
    while k < ps.len()
        invariant
            k <= ps@.len(),
            views(out@) == views(old(out)@) + types_refs(param_types(ps@.take(k as int))),
        decreases ps@.len() - k,
    {
        collect_named(&ps[k].ty, out);
        proof {
            assert(param_types(ps@.take(k + 1)) =~= param_types(ps@.take(k as int)).push(ps@[k as int].ty));
            lemma_types_refs_push(param_types(ps@.take(k as int)), ps@[k as int].ty);
        }
        k = k + 1;
    }
    assert(ps@.take(ps@.len() as int) =~= ps@);
}

fn collect_header_params(ps: &Vec<HeaderParam>, out: &mut Vec<String>)
    ensures
        views(final(out)@) == views(old(out)@) + types_refs(header_param_types(ps@)),
{
    let mut k: usize = 0;
    while k < ps.len()
        invariant
            k <= ps@.len(),
            views(out@) == views(old(out)@) + types_refs(header_param_types(ps@.take(k as int))),
        decreases ps@.len() - k,
    {
        collect_named(&ps[k].ty, out);
        proof {
            assert(header_param_types(ps@.take(k + 1)) =~= header_param_types(ps@.take(k as int)).push(ps@[k as int].ty));
            lemma_types_refs_push(header_param_types(ps@.take(k as int)), ps@[k as int].ty);
        }
        k = k + 1;
    }
    assert(ps@.take(ps@.len() as int) =~= ps@);
}

fn collect_cookie_params(ps: &Vec<CookieParam>, out: &mut Vec<String>)
    ensures
        views(final(out)@) == views(old(out)@) + types_refs(cookie_param_types(ps@)),
{
    let mut k: usize = 0;
    while k < ps.len()
        invariant
            k <= ps@.len(),
            views(out@) == views(old(out)@) + types_refs(cookie_param_types(ps@.take(k as int))),
        decreases ps@.len() - k,
    {
        collect_named(&ps[k].ty, out);
        proof {
            assert(cookie_param_types(ps@.take(k + 1)) =~= cookie_param_types(ps@.take(k as int)).push(ps@[k as int].ty));
            lemma_types_refs_push(cookie_param_types(ps@.take(k as int)), ps@[k as int].ty);
        }
        k = k + 1;
    }
    assert(ps@.take(ps@.len() as int) =~= ps@);
}

fn collect_multipart(fs: &Vec<MultipartField>, out: &mut Vec<String>)
    ensures
        views(final(out)@) == views(old(out)@) + types_refs(multipart_types(fs@)),
{
    let mut k: usize = 0;
    while k < fs.len()
        invariant
            k <= fs@.len(),
            views(out@) == views(old(out)@) + types_refs(multipart_types(fs@.take(k as int))),
        decreases fs@.len() - k,
    {
        collect_named(&fs[k].ty, out);
        proof {
            assert(multipart_types(fs@.take(k + 1)) =~= multipart_types(fs@.take(k as int)).push(fs@[k as int].ty));
            lemma_types_refs_push(multipart_types(fs@.take(k as int)), fs@[k as int].ty);
        }
        k = k + 1;
    }
    assert(fs@.take(fs@.len() as int) =~= fs@);
}

/// Collect the model names referenced by a negotiated (multi-content-type) body.
fn negotiated_names(vs: &Vec<BodyVariant>, out: &mut Vec<String>)
    ensures
        views(final(out)@) == views(old(out)@) + types_refs(negotiated_types(vs@)),
{
    let mut k: usize = 0;
    while k < vs.len()
        invariant
            k <= vs@.len(),
            views(out@) == views(old(out)@) + types_refs(negotiated_types(vs@.take(k as int))),
        decreases vs@.len() - k,
    {
        collect_named(&vs[k].body.ty, out);
        proof {
            assert(negotiated_types(vs@.take(k + 1)) =~= negotiated_types(vs@.take(k as int)).push(vs@[k as int].body.ty));
            lemma_types_refs_push(negotiated_types(vs@.take(k as int)), vs@[k as int].body.ty);
        }
        k = k + 1;
    }
    assert(vs@.take(vs@.len() as int) =~= vs@);
}

fn collect_response_headers(hs: &Vec<ResponseHeader>, out: &mut Vec<String>)
    ensures
        views(final(out)@) == views(old(out)@) + types_refs(response_header_types(hs@)),
{
    let mut k: usize = 0;
    while k < hs.len()
        invariant
            k <= hs@.len(),
            views(out@) == views(old(out)@) + types_refs(response_header_types(hs@.take(k as int))),
        decreases hs@.len() - k,
    {
        collect_named(&hs[k].ty, out);
        proof {
            assert(response_header_types(hs@.take(k + 1)) =~= response_header_types(hs@.take(k as int)).push(hs@[k as int].ty));
            lemma_types_refs_push(response_header_types(hs@.take(k as int)), hs@[k as int].ty);
        }
        k = k + 1;
    }
    assert(hs@.take(hs@.len() as int) =~= hs@);
}

/// Collect the model names referenced by a struct's fields.
fn struct_field_names(fs: &Vec<Field>, out: &mut Vec<String>)
    ensures
        views(final(out)@) == views(old(out)@) + types_refs(field_types(fs@)),
{
    let mut k: usize = 0;
    while k < fs.len()
        invariant
            k <= fs@.len(),
            views(out@) == views(old(out)@) + types_refs(field_types(fs@.take(k as int))),
        decreases fs@.len() - k,
    {
        collect_named(&fs[k].ty, out);
        proof {
            assert(field_types(fs@.take(k + 1)) =~= field_types(fs@.take(k as int)).push(fs@[k as int].ty));
            lemma_types_refs_push(field_types(fs@.take(k as int)), fs@[k as int].ty);
        }
        k = k + 1;
    }
    assert(fs@.take(fs@.len() as int) =~= fs@);
}

/// Append the model names one operation seeds as request-reachable.
fn operation_request_names(op: &Operation, out: &mut Vec<String>)
    ensures
        views(final(out)@) == views(old(out)@) + op_request_refs(*op),
{
    let ghost v0 = views(out@);
    collect_params(&op.path_params, out);
    let ghost v1 = views(out@);
    match &op.query {
        Some(query) => struct_field_names(&query.fields, out),
        None => {},
    }
    let ghost v2 = views(out@);
    assert(v2 == v1 + match op.query {
        Some(q) => types_refs(field_types(q.fields@)),
        None => Seq::<Seq<char>>::empty(),
    }) by {
        if op.query.is_none() {
            assert(v2 =~= v1 + Seq::<Seq<char>>::empty());
        }
    }
    match &op.headers {
        Some(headers) => collect_header_params(&headers.params, out),
        None => {},
    }
    let ghost v3 = views(out@);
    assert(v3 == v2 + match op.headers {
        Some(h) => types_refs(header_param_types(h.params@)),
        None => Seq::<Seq<char>>::empty(),
    }) by {
        if op.headers.is_none() {
            assert(v3 =~= v2 + Seq::<Seq<char>>::empty());
        }
    }
    match &op.cookies {
        Some(cookies) => collect_cookie_params(&cookies.params, out),
        None => {},
    }
    let ghost v4 = views(out@);
    assert(v4 == v3 + match op.cookies {
        Some(c) => types_refs(cookie_param_types(c.params@)),
        None => Seq::<Seq<char>>::empty(),
    }) by {
        if op.cookies.is_none() {
            assert(v4 =~= v3 + Seq::<Seq<char>>::empty());
        }
    }
    match &op.request {
        Some(RequestPayload::Single(body)) => collect_named(&body.ty, out),
        Some(RequestPayload::Multipart(multipart)) => collect_multipart(&multipart.fields, out),
        Some(RequestPayload::Negotiated(body)) => negotiated_names(&body.variants, out),
        None => {},
    }
    assert(views(out@) == v4 + match op.request {
        Some(p) => payload_refs(p),
        None => Seq::<Seq<char>>::empty(),
    }) by {
        if op.request.is_none() {
            assert(views(out@) =~= v4 + Seq::<Seq<char>>::empty());
        }
    }
    assert(views(out@) =~= v0 + op_request_refs(*op));
}

/// Model names seeded as request-reachable: path, query, header, and cookie
/// parameters plus the request payload, operation by operation.
pub fn request_seeds(service: &Service) -> (names: Vec<String>)
    ensures
        views(names@) == request_refs(service.operations@),
{
    let mut names: Vec<String> = Vec::new();
    let mut k: usize = 0;
    while k < service.operations.len()
        invariant
            k <= service.operations@.len(),
            views(names@) == request_refs(service.operations@.take(k as int)),
        decreases service.operations@.len() - k,
    {
        let ghost v0 = views(names@);
        operation_request_names(&service.operations[k], &mut names);
        proof {
            let ops = service.operations@;
            assert(ops.take(k + 1).drop_last() =~= ops.take(k as int));
            assert(views(names@) =~= request_refs(ops.take(k + 1)));
        }
        k = k + 1;
    }
    assert(service.operations@.take(service.operations@.len() as int) =~= service.operations@);
    names
}

/// Model names seeded as response-reachable: every response's declared headers
/// and body, operation by operation.
pub fn response_seeds(service: &Service) -> (names: Vec<String>)
    ensures
        views(names@) == response_refs(service.operations@),
{
    let mut names: Vec<String> = Vec::new();
    let mut k: usize = 0;
    while k < service.operations.len()
        invariant
            k <= service.operations@.len(),
            views(names@) == response_refs(service.operations@.take(k as int)),
        decreases service.operations@.len() - k,
    {
        let cases = &service.operations[k].responses;
        let ghost v0 = views(names@);
        let mut j: usize = 0;
        while j < cases.len()
            invariant
                j <= cases@.len(),
                views(names@) == v0 + cases_refs(cases@.take(j as int)),
            decreases cases@.len() - j,
        {
            let case = &cases[j];
            let ghost w0 = views(names@);
            collect_response_headers(&case.headers, &mut names);
            match &case.body {
                Some(ResponseBody::Single(body)) => collect_named(&body.ty, &mut names),
                Some(ResponseBody::Negotiated(body)) => negotiated_names(&body.variants, &mut names),
                None => {},
            }
            proof {
                assert(cases@.take(j + 1).drop_last() =~= cases@.take(j as int));
                assert(views(names@) =~= v0 + cases_refs(cases@.take(j + 1)));
            }
            j = j + 1;
        }
        proof {
            let ops = service.operations@;
            assert(cases@.take(cases@.len() as int) =~= cases@);
            assert(ops.take(k + 1).drop_last() =~= ops.take(k as int));
            assert(views(names@) =~= response_refs(ops.take(k + 1)));
        }
        k = k + 1;
    }
    assert(service.operations@.take(service.operations@.len() as int) =~= service.operations@);
    names
}

} // verus!

verus! {

/// The models a request reaches: the request seeds and everything they reference.
pub open spec fn request_reach(module: Module, service: Service) -> Set<Seq<char>> {
    closure(model_rel(module.items@), request_refs(service.operations@).to_set())
}

/// The models a response reaches: the response seeds and everything they reference.
pub open spec fn response_reach(module: Module, service: Service) -> Set<Seq<char>> {
    closure(model_rel(module.items@), response_refs(service.operations@).to_set())
}

/// A table with no entries flags nothing.
proof fn lemma_no_entries(es: Seq<UsageEntry>, d: Direction)
    requires
        es.len() == 0,
    ensures
        flagged(es, d) == Set::<Seq<char>>::empty(),
        usage_keys(es) == Set::<Seq<char>>::empty(),
{
    assert(flagged(es, d) =~= Set::<Seq<char>>::empty());
    assert(usage_keys(es) =~= Set::<Seq<char>>::empty());
}

/// Which direction reaches each model, one entry per model name reached.
///
/// A name without an entry is reached by no operation.
pub fn direction_usage(module: &Module, service: &Service) -> (usage: Vec<UsageEntry>)
    ensures
        unique_keys(usage@),
        flagged(usage@, Direction::Request) == request_reach(*module, *service),
        flagged(usage@, Direction::Response) == response_reach(*module, *service),
        usage_keys(usage@) == request_reach(*module, *service).union(response_reach(*module, *service)),
{
    let adj = adjacency(module);
    let ghost rel = model_rel(module.items@);
    let mut usage: Vec<UsageEntry> = Vec::new();
    let req = request_seeds(service);
    proof {
        lemma_no_entries(usage@, Direction::Request);
        lemma_no_entries(usage@, Direction::Response);
        lemma_closure_empty(rel);
        assert(views(req@).take(0).to_set() =~= Set::<Seq<char>>::empty());
    }
    let mut k: usize = 0;
    while k < req.len()
        invariant
            k <= req@.len(),
            unique_names(adj@),
            rel_of(adj@) == rel,
            unique_keys(usage@),
            flagged(usage@, Direction::Request) == closure(rel, views(req@).take(k as int).to_set()),
            flagged(usage@, Direction::Response) == Set::<Seq<char>>::empty(),
            usage_keys(usage@) == flagged(usage@, Direction::Request),
        decreases req@.len() - k,
    {
        proof {
            lemma_closure(rel, views(req@).take(k as int).to_set());
        }
        mark(&adj, req[k].as_str(), &mut usage, Direction::Request);
        proof {
            let seeds = views(req@).take(k as int).to_set();
            assert(views(req@).take(k + 1) =~= views(req@).take(k as int) + seq![req@[k as int]@]);
            Seq::lemma_to_set_insert_commutes(views(req@).take(k as int), req@[k as int]@);
            lemma_closure_union(rel, seeds, req@[k as int]@);
        }
        k = k + 1;
    }
    let ghost req_reach = flagged(usage@, Direction::Request);
    proof {
        assert(views(req@).take(req@.len() as int) =~= views(req@));
        assert(views(req@) == request_refs(service.operations@));
    }
    let resp = response_seeds(service);
    proof {
        assert(views(resp@).take(0).to_set() =~= Set::<Seq<char>>::empty());
    }
    let mut k: usize = 0;
    while k < resp.len()
        invariant
            k <= resp@.len(),
            unique_names(adj@),
            rel_of(adj@) == rel,
            unique_keys(usage@),
            flagged(usage@, Direction::Request) == req_reach,
            flagged(usage@, Direction::Response) == closure(rel, views(resp@).take(k as int).to_set()),
            usage_keys(usage@) == req_reach.union(flagged(usage@, Direction::Response)),
        decreases resp@.len() - k,
    {
        proof {
            lemma_closure(rel, views(resp@).take(k as int).to_set());
        }
        let ghost before = flagged(usage@, Direction::Response);
        mark(&adj, resp[k].as_str(), &mut usage, Direction::Response);
        proof {
            let seeds = views(resp@).take(k as int).to_set();
            assert(views(resp@).take(k + 1) =~= views(resp@).take(k as int) + seq![resp@[k as int]@]);
            Seq::lemma_to_set_insert_commutes(views(resp@).take(k as int), resp@[k as int]@);
            lemma_closure_union(rel, seeds, resp@[k as int]@);
            assert(usage_keys(usage@) =~= req_reach.union(flagged(usage@, Direction::Response)));
        }
        k = k + 1;
    }
    proof {
        assert(views(resp@).take(resp@.len() as int) =~= views(resp@));
    }
    usage
}

} // verus!

verus! {

/// A table with unique names flags a name exactly when its entry does.
proof fn lemma_entry_flag(es: Seq<UsageEntry>, i: int, d: Direction)
    requires
        unique_keys(es),
        0 <= i < es.len(),
    ensures
        flagged(es, d).contains(es[i].name@) == flag(es[i].usage, d),
{
    if flagged(es, d).contains(es[i].name@) {
        let j = choose|j: int| #![trigger es[j]] 0 <= j < es.len() && es[j].name@ == es[i].name@ && flag(es[j].usage, d);
        assert(j == i);
    }
}

/// How the table says `name` is used: its entry, or neither direction without one.
fn usage_of(usage: &Vec<UsageEntry>, name: &String) -> (r: Usage)
    requires
        unique_keys(usage@),
    ensures
        r.request == flagged(usage@, Direction::Request).contains(name@),
        r.response == flagged(usage@, Direction::Response).contains(name@),
{
    match find_entry(usage, name) {
        Some(i) => {
            proof {
                lemma_entry_flag(usage@, i as int, Direction::Request);
                lemma_entry_flag(usage@, i as int, Direction::Response);
            }
            usage[i].usage
        },
        None => {
            proof {
                lemma_flagged_keys(usage@, Direction::Request);
                lemma_flagged_keys(usage@, Direction::Response);
            }
            Usage::none()
        },
    }
}

/// One model name and its derive set.
#[derive(Debug, Clone)]
pub struct ModelEntry {
    /// The canonical model name.
    pub name: String,
    /// What the model derives.
    pub derives: ModelDerives,
}

/// The names of a derive table, in entry order.
pub open spec fn model_name_seq(es: Seq<ModelEntry>) -> Seq<Seq<char>> {
    es.map_values(|e: ModelEntry| e.name@)
}

/// The names a derive table has an entry for.
pub open spec fn model_keys(es: Seq<ModelEntry>) -> Set<Seq<char>> {
    model_name_seq(es).to_set()
}

/// No two entries share a name.
pub open spec fn unique_models(es: Seq<ModelEntry>) -> bool {
    forall|i: int, j: int|
        #![trigger es[i].name@, es[j].name@]
        0 <= i < es.len() && 0 <= j < es.len() && i != j ==> es[i].name@ != es[j].name@
}

/// The serde traits a model needs: a server serializes what responses reach and
/// deserializes what requests reach, a client the reverse.
pub open spec fn serde_for(req: bool, resp: bool, targets: Targets) -> SerdeDerives {
    SerdeDerives {
        serialize: (targets.server && resp) || (targets.client && req),
        deserialize: (targets.server && req) || (targets.client && resp),
    }
}

/// The derive set of model `n` in a generated API.
pub open spec fn api_derives(module: Module, service: Service, targets: Targets, n: Seq<char>) -> ModelDerives {
    ModelDerives {
        serde: serde_for(
            request_reach(module, service).contains(n),
            response_reach(module, service).contains(n),
            targets,
        ),
        foreign: allowed_for(module.items@, n),
    }
}

/// Append an entry for `name` with the derive set the usage and constraint
/// tables give it.
fn push_model(
    out: &mut Vec<ModelEntry>,
    name: &String,
    usage: &Vec<UsageEntry>,
    foreign: &Vec<ForeignEntry>,
    targets: Targets,
)
    requires
        unique_keys(usage@),
        unique_foreign(foreign@),
    ensures
        final(out)@ == old(out)@.push(final(out)@.last()),
        final(out)@.last().name@ == name@,
        final(out)@.last().derives == (ModelDerives {
            serde: serde_for(
                flagged(usage@, Direction::Request).contains(name@),
                flagged(usage@, Direction::Response).contains(name@),
                targets,
            ),
            foreign: lookup(foreign@, name@),
        }),
{
    let used = usage_of(usage, name);
    let serde = SerdeDerives {
        serialize: (targets.server && used.response) || (targets.client && used.request),
        deserialize: (targets.server && used.request) || (targets.client && used.response),
    };
    let constraint = lookup_exec(foreign, name);
    out.push(ModelEntry { name: name.clone(), derives: ModelDerives { serde, foreign: constraint } });
}

/// Compute the derive set for every generated model that an operation reaches
/// or a restricted foreign type constrains, one entry per model name.
///
/// A name without an entry is reached by no operation and constrained by no
/// foreign type, and derives everything.
pub fn model_derives(module: &Module, service: &Service, targets: Targets) -> (entries: Vec<ModelEntry>)
    ensures
        unique_models(entries@),
        model_keys(entries@) == request_reach(*module, *service).union(response_reach(*module, *service)).union(
            constrained_models(module.items@),
        ),
        forall|i: int|
            #![trigger entries@[i]]
            0 <= i < entries@.len() ==> entries@[i].derives == api_derives(*module, *service, targets, entries@[i].name@),
{
    let adj = adjacency(module);
    let foreign = foreign_derives(module, &adj);
    let usage = direction_usage(module, service);
    let ghost req = request_reach(*module, *service);
    let ghost resp = response_reach(*module, *service);
    let ghost items = module.items@;
    let mut entries: Vec<ModelEntry> = Vec::new();
    let mut k: usize = 0;
    while k < usage.len()
        invariant
            k <= usage@.len(),
            unique_keys(usage@),
            unique_foreign(foreign@),
            req == request_reach(*module, *service),
            resp == response_reach(*module, *service),
            flagged(usage@, Direction::Request) == req,
            flagged(usage@, Direction::Response) == resp,
            usage_keys(usage@) == req.union(resp),
            forall|t: ForeignTrait| #[trigger] lacking(foreign@, t) == lacking_models(items, t),
            items == module.items@,
            entries@.len() == k,
            unique_models(entries@),
            forall|i: int| #![trigger entries@[i]] 0 <= i < k ==> entries@[i].name@ == usage@[i].name@,
            forall|i: int|
                #![trigger entries@[i]]
                0 <= i < entries@.len() ==> entries@[i].derives == api_derives(*module, *service, targets, entries@[i].name@),
        decreases usage@.len() - k,
    {
        push_model(&mut entries, &usage[k].name, &usage, &foreign, targets);
        proof {
            let n = usage@[k as int].name@;
            assert(lookup(foreign@, n) == allowed_for(items, n));
            assert(entries@[k as int] == entries@.last());
            assert(entries@[k as int].name@ == n);
            assert(flagged(usage@, Direction::Request).contains(n) == req.contains(n));
            assert(entries@[k as int].derives.foreign == allowed_for(items, n));
            assert(entries@[k as int].derives.serde == api_derives(*module, *service, targets, n).serde);
            assert(entries@[k as int].derives == api_derives(*module, *service, targets, n));
            assert forall|i: int, j: int|
                #![trigger entries@[i].name@, entries@[j].name@]
                0 <= i < entries@.len() && 0 <= j < entries@.len() && i != j implies entries@[i].name@ != entries@[j].name@ by {
                assert(usage@[i].name@ != usage@[j].name@);
            }
        }
        k = k + 1;
    }
    let ghost from_usage = entries@.len();
    let mut k: usize = 0;
    while k < foreign.len()
        invariant
            k <= foreign@.len(),
            from_usage == usage@.len(),
            from_usage <= entries@.len(),
            unique_models(entries@),
            unique_keys(usage@),
            unique_foreign(foreign@),
            req == request_reach(*module, *service),
            resp == response_reach(*module, *service),
            flagged(usage@, Direction::Request) == req,
            flagged(usage@, Direction::Response) == resp,
            usage_keys(usage@) == req.union(resp),
            forall|t: ForeignTrait| #[trigger] lacking(foreign@, t) == lacking_models(items, t),
            items == module.items@,
            forall|i: int| #![trigger entries@[i]] 0 <= i < from_usage ==> entries@[i].name@ == usage@[i].name@,
            forall|i: int|
                #![trigger entries@[i]]
                from_usage <= i < entries@.len() ==> exists|j: int| 0 <= j < k && entries@[i].name@ == foreign@[j].name@,
            forall|i: int|
                #![trigger entries@[i]]
                from_usage <= i < entries@.len() ==> !usage_keys(usage@).contains(entries@[i].name@),
            forall|j: int|
                #![trigger foreign@[j]]
                0 <= j < k ==> usage_keys(usage@).contains(foreign@[j].name@) || model_keys(entries@).contains(foreign@[j].name@),
            forall|i: int|
                #![trigger entries@[i]]
                0 <= i < entries@.len() ==> entries@[i].derives == api_derives(*module, *service, targets, entries@[i].name@),
        decreases foreign@.len() - k,
    {
        let ghost pre = entries@;
        let found = find_entry(&usage, &foreign[k].name);
        if found.is_none() {
            push_model(&mut entries, &foreign[k].name, &usage, &foreign, targets);
            proof {
                let n = foreign@[k as int].name@;
                assert(lookup(foreign@, n) == allowed_for(items, n));
                assert(entries@[pre.len() as int].derives == api_derives(*module, *service, targets, n));
                assert(model_name_seq(entries@)[pre.len() as int] == n);
                assert(!usage_keys(usage@).contains(n));
                assert forall|i: int, j: int|
                    #![trigger entries@[i].name@, entries@[j].name@]
                    0 <= i < entries@.len() && 0 <= j < entries@.len() && i != j implies entries@[i].name@ != entries@[j].name@ by {
                    if i < pre.len() && j < pre.len() {
                        assert(pre[i] == entries@[i] && pre[j] == entries@[j]);
                    } else {
                        let m = if i < pre.len() { i } else { j };
                        assert(entries@[m] == pre[m]);
                        if m < from_usage {
                            assert(entry_name_seq(usage@)[m] == usage@[m].name@);
                        } else {
                            let a = choose|a: int| 0 <= a < k && pre[m].name@ == foreign@[a].name@;
                            assert(foreign@[a].name@ != foreign@[k as int].name@);
                        }
                    }
                }
                assert forall|j: int| #![trigger foreign@[j]] 0 <= j < k + 1 implies usage_keys(usage@).contains(foreign@[j].name@)
                    || model_keys(entries@).contains(foreign@[j].name@) by {
                    if j < k && !usage_keys(usage@).contains(foreign@[j].name@) {
                        let m = choose|m: int| 0 <= m < pre.len() && #[trigger] model_name_seq(pre)[m] == foreign@[j].name@;
                        assert(model_name_seq(entries@)[m] == foreign@[j].name@);
                    }
                }
                assert forall|i: int| #![trigger entries@[i]] from_usage <= i < entries@.len() implies exists|j: int|
                    0 <= j < k + 1 && entries@[i].name@ == foreign@[j].name@ by {
                    if i < pre.len() {
                        assert(entries@[i] == pre[i]);
                        let j = choose|j: int| 0 <= j < k && pre[i].name@ == foreign@[j].name@;
                        assert(0 <= j < k + 1 && entries@[i].name@ == foreign@[j].name@);
                    } else {
                        assert(entries@[i].name@ == foreign@[k as int].name@);
                    }
                }
            }
        } else {
            proof {
                let i = found.unwrap();
                assert(entry_name_seq(usage@)[i as int] == foreign@[k as int].name@);
                assert forall|j: int| #![trigger foreign@[j]] 0 <= j < k + 1 implies usage_keys(usage@).contains(foreign@[j].name@)
                    || model_keys(entries@).contains(foreign@[j].name@) by {}
                assert forall|i: int| #![trigger entries@[i]] from_usage <= i < entries@.len() implies exists|j: int|
                    0 <= j < k + 1 && entries@[i].name@ == foreign@[j].name@ by {
                    let j = choose|j: int| 0 <= j < k && entries@[i].name@ == foreign@[j].name@;
                    assert(0 <= j < k + 1 && entries@[i].name@ == foreign@[j].name@);
                }
            }
        }
        k = k + 1;
    }
    proof {
        let want = req.union(resp).union(constrained_models(items));
        assert forall|n: Seq<char>| model_keys(entries@).contains(n) implies want.contains(n) by {
            let i = choose|i: int| 0 <= i < entries@.len() && #[trigger] model_name_seq(entries@)[i] == n;
            if i < from_usage {
                assert(entry_name_seq(usage@)[i] == n);
            } else {
                let a = choose|a: int| 0 <= a < foreign@.len() && entries@[i].name@ == foreign@[a].name@;
                assert(foreign_name_seq(foreign@)[a] == n);
            }
        }
        assert forall|n: Seq<char>| want.contains(n) implies model_keys(entries@).contains(n) by {
            if usage_keys(usage@).contains(n) {
                let i = choose|i: int| 0 <= i < usage@.len() && #[trigger] entry_name_seq(usage@)[i] == n;
                assert(model_name_seq(entries@)[i] == n);
            } else {
                assert(foreign_keys(foreign@).contains(n));
                let a = choose|a: int| 0 <= a < foreign@.len() && #[trigger] foreign_name_seq(foreign@)[a] == n;
                assert(foreign@[a].name@ == n);
            }
        }
        assert(model_keys(entries@) =~= want);
    }
    entries
}

} // verus!

verus! {

/// The derive set for every constrained model when only models are generated,
/// with no service to say which direction each one travels in.
///
/// Every model keeps both serde traits, because an unknown direction cannot
/// narrow them. Only the models a restricted foreign type constrains get an
/// entry, so an absent name derives everything.
pub fn models_only_derives(module: &Module) -> (entries: Vec<ModelEntry>)
    ensures
        unique_models(entries@),
        model_keys(entries@) == constrained_models(module.items@),
        forall|i: int|
            #![trigger entries@[i]]
            0 <= i < entries@.len() ==> entries@[i].derives == (ModelDerives {
                serde: SerdeDerives { serialize: true, deserialize: true },
                foreign: allowed_for(module.items@, entries@[i].name@),
            }),
{
    let adj = adjacency(module);
    let foreign = foreign_derives(module, &adj);
    let mut entries: Vec<ModelEntry> = Vec::new();
    let mut k: usize = 0;
    while k < foreign.len()
        invariant
            k <= foreign@.len(),
            unique_foreign(foreign@),
            forall|t: ForeignTrait| #[trigger] lacking(foreign@, t) == lacking_models(module.items@, t),
            foreign_keys(foreign@) == constrained_models(module.items@),
            entries@.len() == k,
            forall|i: int| #![trigger entries@[i]] 0 <= i < k ==> entries@[i].name@ == foreign@[i].name@,
            forall|i: int|
                #![trigger entries@[i]]
                0 <= i < k ==> entries@[i].derives == (ModelDerives {
                    serde: SerdeDerives { serialize: true, deserialize: true },
                    foreign: allowed_for(module.items@, entries@[i].name@),
                }),
        decreases foreign@.len() - k,
    {
        let name = foreign[k].name.clone();
        let derives = ModelDerives { serde: SerdeDerives::both(), foreign: foreign[k].derives };
        proof {
            crate::emit::foreign::lemma_lookup_entry(foreign@, k as int);
        }
        entries.push(ModelEntry { name, derives });
        k = k + 1;
    }
    proof {
        assert(model_name_seq(entries@) =~= foreign_name_seq(foreign@));
        assert forall|i: int, j: int|
            #![trigger entries@[i].name@, entries@[j].name@]
            0 <= i < entries@.len() && 0 <= j < entries@.len() && i != j implies entries@[i].name@ != entries@[j].name@ by {
            assert(foreign@[i].name@ != foreign@[j].name@);
        }
    }
    entries
}

} // verus!

verus! {

/// A model that a model reached in some direction references is reached in
/// that direction too: a payload carries every model its fields name.
pub proof fn reach_follows_references(module: Module, service: Service, a: Seq<char>, b: Seq<char>)
    requires
        (model_rel(module.items@))(a, b),
    ensures
        request_reach(module, service).contains(a) ==> request_reach(module, service).contains(b),
        response_reach(module, service).contains(a) ==> response_reach(module, service).contains(b),
{
    lemma_closure(model_rel(module.items@), request_refs(service.operations@).to_set());
    lemma_closure(model_rel(module.items@), response_refs(service.operations@).to_set());
}

/// Every serde trait a model needs, each model it references needs too.
pub proof fn serde_needs_follow_references(
    module: Module,
    service: Service,
    targets: Targets,
    a: Seq<char>,
    b: Seq<char>,
)
    requires
        (model_rel(module.items@))(a, b),
    ensures
        api_derives(module, service, targets, a).serde.serialize ==> api_derives(
            module,
            service,
            targets,
            b,
        ).serde.serialize,
        api_derives(module, service, targets, a).serde.deserialize ==> api_derives(
            module,
            service,
            targets,
            b,
        ).serde.deserialize,
{
    reach_follows_references(module, service, a, b);
}

/// When one file holds both the server and the client, every model an
/// operation reaches derives both serde traits.
pub proof fn shared_output_derives_both(module: Module, service: Service, n: Seq<char>)
    requires
        request_reach(module, service).contains(n) || response_reach(module, service).contains(n),
    ensures
        api_derives(module, service, Targets { server: true, client: true }, n).serde == (SerdeDerives {
            serialize: true,
            deserialize: true,
        }),
{
}

/// A server that only answers with a model serializes it and never
/// deserializes it.
pub proof fn response_only_models_skip_deserialize(module: Module, service: Service, n: Seq<char>)
    requires
        response_reach(module, service).contains(n),
        !request_reach(module, service).contains(n),
    ensures
        api_derives(module, service, Targets { server: true, client: false }, n).serde == (SerdeDerives {
            serialize: true,
            deserialize: false,
        }),
{
}

/// A client sends requests and reads responses: in a client-only crate every
/// model a request reaches derives `Serialize`, every model a response
/// reaches derives `Deserialize`, and no model derives a trait its
/// directions do not need.
pub proof fn client_derives_follow_directions(module: Module, service: Service, n: Seq<char>)
    ensures
        api_derives(module, service, Targets { server: false, client: true }, n).serde == (SerdeDerives {
            serialize: request_reach(module, service).contains(n),
            deserialize: response_reach(module, service).contains(n),
        }),
{
}

/// A server reads requests and sends responses: in a server-only crate every
/// model a request reaches derives `Deserialize`, every model a response
/// reaches derives `Serialize`, and nothing else is derived.
pub proof fn server_derives_follow_directions(module: Module, service: Service, n: Seq<char>)
    ensures
        api_derives(module, service, Targets { server: true, client: false }, n).serde == (SerdeDerives {
            serialize: response_reach(module, service).contains(n),
            deserialize: request_reach(module, service).contains(n),
        }),
{
}

/// Whatever the targets, a trait is derived exactly when some target needs
/// it in some direction the model is reached in: the two traits of a crate
/// with both targets are what the server and the client each need, joined.
pub proof fn derives_join_the_targets(module: Module, service: Service, n: Seq<char>)
    ensures
        api_derives(module, service, Targets { server: true, client: true }, n).serde.serialize == (api_derives(
            module,
            service,
            Targets { server: true, client: false },
            n,
        ).serde.serialize || api_derives(module, service, Targets { server: false, client: true }, n).serde.serialize),
        api_derives(module, service, Targets { server: true, client: true }, n).serde.deserialize == (api_derives(
            module,
            service,
            Targets { server: true, client: false },
            n,
        ).serde.deserialize || api_derives(module, service, Targets { server: false, client: true }, n).serde.deserialize),
        api_derives(module, service, Targets { server: false, client: false }, n).serde == (SerdeDerives {
            serialize: false,
            deserialize: false,
        }),
{
}

} // verus!
