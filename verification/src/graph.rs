//! A graph over names: each node is a name, and each node lists the names it
//! points at. The model-reference graph and the schema-reference graph are both
//! of this shape.
//!
//! The sets a walk over such a graph computes are stated here as closures: the
//! least set that holds the seeds and is closed under the edges (or under the
//! edges reversed). A set is in the closure exactly when every closed superset
//! of the seeds holds it, which needs no notion of a path.

use vstd::prelude::*;

verus! {

/// One node of a name graph and the names it points at.
#[derive(Debug, Clone, PartialEq)]
pub struct Edges {
    /// The node's name.
    pub name: String,
    /// The names the node points at, in the order the node lists them.
    pub targets: Vec<String>,
}

/// The texts of a sequence of strings.
pub open spec fn views(v: Seq<String>) -> Seq<Seq<char>> {
    v.map_values(|s: String| s@)
}

/// The names of the nodes of `g`, in node order.
pub open spec fn name_seq(g: Seq<Edges>) -> Seq<Seq<char>> {
    g.map_values(|e: Edges| e.name@)
}

/// The names of the nodes of `g`.
pub open spec fn node_names(g: Seq<Edges>) -> Set<Seq<char>> {
    name_seq(g).to_set()
}

/// No two nodes share a name.
pub open spec fn unique_names(g: Seq<Edges>) -> bool {
    forall|i: int, j: int|
        #![trigger g[i].name@, g[j].name@]
        0 <= i < g.len() && 0 <= j < g.len() && i != j ==> g[i].name@ != g[j].name@
}

/// An edge relation between names.
pub type Rel = spec_fn(Seq<char>, Seq<char>) -> bool;

/// Whether node `a` points at `b`.
pub open spec fn edge(g: Seq<Edges>, a: Seq<char>, b: Seq<char>) -> bool {
    exists|i: int| 0 <= i < g.len() && g[i].name@ == a && #[trigger] views(g[i].targets@).contains(b)
}

/// The edge relation of a graph.
pub open spec fn rel_of(g: Seq<Edges>) -> Rel {
    |a: Seq<char>, b: Seq<char>| edge(g, a, b)
}

/// Whether `s` holds every name that a name in `s` points at.
pub open spec fn closed(e: Rel, s: Set<Seq<char>>) -> bool {
    forall|a: Seq<char>, b: Seq<char>| s.contains(a) && #[trigger] e(a, b) ==> s.contains(b)
}

/// Whether `s` holds every name that points at a name in `s`.
pub open spec fn back_closed(e: Rel, s: Set<Seq<char>>) -> bool {
    forall|a: Seq<char>, b: Seq<char>| s.contains(b) && #[trigger] e(a, b) ==> s.contains(a)
}

/// Whether `y` lies in the least set that holds `seeds` and is closed under the edges.
pub open spec fn in_closure(e: Rel, seeds: Set<Seq<char>>, y: Seq<char>) -> bool {
    forall|s: Set<Seq<char>>| #[trigger] closed(e, s) && seeds.subset_of(s) ==> s.contains(y)
}

/// Whether `y` lies in the least set that holds `seeds` and is closed under the
/// reversed edges.
pub open spec fn in_back_closure(e: Rel, seeds: Set<Seq<char>>, y: Seq<char>) -> bool {
    forall|s: Set<Seq<char>>| #[trigger] back_closed(e, s) && seeds.subset_of(s) ==> s.contains(y)
}

/// The least set holding `seeds` that is closed under the edges.
pub open spec fn closure(e: Rel, seeds: Set<Seq<char>>) -> Set<Seq<char>> {
    Set::new(|y: Seq<char>| in_closure(e, seeds, y))
}

/// The least set holding `seeds` that is closed under the reversed edges.
pub open spec fn back_closure(e: Rel, seeds: Set<Seq<char>>) -> Set<Seq<char>> {
    Set::new(|y: Seq<char>| in_back_closure(e, seeds, y))
}

/// The names reachable from `x`, `x` included.
pub open spec fn reach(e: Rel, x: Seq<char>) -> Set<Seq<char>> {
    closure(e, set![x])
}

/// A closure holds its seeds, is closed, and lies inside every closed superset
/// of its seeds.
pub proof fn lemma_closure(e: Rel, seeds: Set<Seq<char>>)
    ensures
        seeds.subset_of(closure(e, seeds)),
        closed(e, closure(e, seeds)),
        forall|s: Set<Seq<char>>|
            #[trigger] closed(e, s) && seeds.subset_of(s) ==> closure(e, seeds).subset_of(s),
{
    let c = closure(e, seeds);
    assert forall|a: Seq<char>, b: Seq<char>| c.contains(a) && #[trigger] e(a, b) implies c.contains(b) by {
        assert forall|s: Set<Seq<char>>| #[trigger] closed(e, s) && seeds.subset_of(s) implies s.contains(b) by {
            assert(s.contains(a));
        }
    }
}

/// A back closure holds its seeds, is back-closed, and lies inside every
/// back-closed superset of its seeds.
pub proof fn lemma_back_closure(e: Rel, seeds: Set<Seq<char>>)
    ensures
        seeds.subset_of(back_closure(e, seeds)),
        back_closed(e, back_closure(e, seeds)),
        forall|s: Set<Seq<char>>|
            #[trigger] back_closed(e, s) && seeds.subset_of(s) ==> back_closure(e, seeds).subset_of(s),
{
    let c = back_closure(e, seeds);
    assert forall|a: Seq<char>, b: Seq<char>| c.contains(b) && #[trigger] e(a, b) implies c.contains(a) by {
        assert forall|s: Set<Seq<char>>| #[trigger] back_closed(e, s) && seeds.subset_of(s) implies s.contains(a) by {
            assert(s.contains(b));
        }
    }
}

/// Closing one more seed adds the names reachable from it.
pub proof fn lemma_closure_union(e: Rel, a: Set<Seq<char>>, x: Seq<char>)
    ensures
        closure(e, a.insert(x)) == closure(e, a).union(reach(e, x)),
{
    let ca = closure(e, a);
    let r = reach(e, x);
    let big = closure(e, a.insert(x));
    let u = ca.union(r);
    assert(closed(e, u)) by {
        lemma_closure(e, a);
        lemma_closure(e, set![x]);
        assert forall|p: Seq<char>, q: Seq<char>| u.contains(p) && #[trigger] e(p, q) implies u.contains(q) by {
            if ca.contains(p) {
                assert(ca.contains(q));
            } else {
                assert(r.contains(q));
            }
        }
    }
    assert(a.insert(x).subset_of(u)) by {
        lemma_closure(e, a);
        lemma_closure(e, set![x]);
        assert(r.contains(x));
    }
    assert forall|y: Seq<char>| big.contains(y) implies u.contains(y) by {
        assert(in_closure(e, a.insert(x), y));
        assert(closed(e, u) && a.insert(x).subset_of(u));
    }
    assert forall|y: Seq<char>| u.contains(y) implies big.contains(y) by {
        assert forall|s: Set<Seq<char>>| #[trigger] closed(e, s) && a.insert(x).subset_of(s) implies s.contains(y) by {
            if ca.contains(y) {
                assert(in_closure(e, a, y));
                assert(a.subset_of(s));
            } else {
                assert(in_closure(e, set![x], y));
                assert(set![x].subset_of(s));
            }
        }
    }
    assert(big =~= u);
}

/// No seeds close to nothing.
pub proof fn lemma_closure_empty(e: Rel)
    ensures
        closure(e, Set::empty()) == Set::<Seq<char>>::empty(),
{
    lemma_closure(e, Set::empty());
    assert(closed(e, Set::<Seq<char>>::empty()));
    assert(closure(e, Set::empty()).subset_of(Set::<Seq<char>>::empty()));
    assert(closure(e, Set::empty()) =~= Set::<Seq<char>>::empty());
}

/// No seeds back-close to nothing.
pub proof fn lemma_back_closure_empty(e: Rel)
    ensures
        back_closure(e, Set::empty()) == Set::<Seq<char>>::empty(),
{
    lemma_back_closure(e, Set::empty());
    assert(back_closed(e, Set::<Seq<char>>::empty()));
    assert(back_closure(e, Set::empty()).subset_of(Set::<Seq<char>>::empty()));
    assert(back_closure(e, Set::empty()) =~= Set::<Seq<char>>::empty());
}

/// Every name any node points at, node by node.
pub open spec fn all_targets(g: Seq<Edges>) -> Seq<Seq<char>>
    decreases g.len(),
{
    if g.len() == 0 {
        Seq::empty()
    } else {
        all_targets(g.drop_last()) + views(g.last().targets@)
    }
}

/// A name some node points at is among all the targets.
pub proof fn lemma_all_targets(g: Seq<Edges>, p: int, b: Seq<char>)
    requires
        0 <= p < g.len(),
        views(g[p].targets@).contains(b),
    ensures
        all_targets(g).contains(b),
    decreases g.len(),
{
    let k = choose|k: int| 0 <= k < views(g[p].targets@).len() && views(g[p].targets@)[k] == b;
    let front = all_targets(g.drop_last());
    if p == g.len() - 1 {
        assert(all_targets(g)[front.len() + k] == b);
    } else {
        assert(g.drop_last()[p] == g[p]);
        lemma_all_targets(g.drop_last(), p, b);
        let m = choose|m: int| 0 <= m < front.len() && front[m] == b;
        assert(all_targets(g)[m] == b);
    }
}

/// Whatever a name points at is among all the targets.
pub proof fn lemma_edge_target(g: Seq<Edges>, a: Seq<char>, b: Seq<char>)
    requires
        edge(g, a, b),
    ensures
        all_targets(g).contains(b),
{
    let p = choose|p: int| 0 <= p < g.len() && g[p].name@ == a && #[trigger] views(g[p].targets@).contains(b);
    lemma_all_targets(g, p, b);
}

/// A name the last string of `v` does not hold stays among the texts once
/// that string is gone.
pub proof fn lemma_views_drop_last(v: Seq<String>, b: Seq<char>)
    requires
        v.len() > 0,
        views(v).contains(b),
        b != v.last()@,
    ensures
        views(v.drop_last()).contains(b),
{
    let k = choose|k: int| 0 <= k < views(v).len() && views(v)[k] == b;
    assert(k != v.len() - 1);
    assert(views(v.drop_last())[k] == b);
}

/// Appends clones of `names` to `stack`.
pub fn extend_names(stack: &mut Vec<String>, names: &Vec<String>)
    ensures
        views(final(stack)@) == views(old(stack)@) + views(names@),
{
    let mut j: usize = 0;
    while j < names.len()
        invariant
            j <= names@.len(),
            views(stack@) == views(old(stack)@) + views(names@.take(j as int)),
        decreases names@.len() - j,
    {
        proof {
            lemma_views_push(stack@, names@[j as int]);
        }
        stack.push(names[j].clone());
        assert(views(names@.take(j + 1)) =~= views(names@.take(j as int)).push(names@[j as int]@));
        j = j + 1;
    }
    assert(names@.take(names@.len() as int) =~= names@);
}

/// The texts of a vector of strings, one push at a time.
pub proof fn lemma_views_push(v: Seq<String>, s: String)
    ensures
        views(v.push(s)) == views(v).push(s@),
{
    assert(views(v.push(s)) =~= views(v).push(s@));
}

/// The index of the node named `name`, when there is one.
pub fn find_node(g: &Vec<Edges>, name: &String) -> (r: Option<usize>)
    ensures
        r matches Some(i) ==> i < g@.len() && g@[i as int].name@ == name@,
        r is None ==> forall|i: int| 0 <= i < g@.len() ==> g@[i].name@ != name@,
{
    let mut i: usize = 0;
    while i < g.len()
        invariant
            i <= g@.len(),
            forall|k: int| 0 <= k < i ==> g@[k].name@ != name@,
        decreases g@.len() - i,
    {
        if g[i].name == *name {
            return Some(i);
        }
        i = i + 1;
    }
    None
}

} // verus!
