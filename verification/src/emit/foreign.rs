//! Which of `Debug`, `Clone`, and `PartialEq` each generated model may derive.
//!
//! A foreign (`x-rust-type`) type that lacks one of these constrains the model
//! naming it and every model that reaches that one, because a derive is only as
//! satisfiable as the fields it recurses through. So the constraint travels the
//! model-reference graph from a referenced model back up to the models naming
//! it: for each trait, the models that lose it are exactly those that reach a
//! model whose own foreign types lack it.

use vstd::prelude::*;

use crate::emit::usage::adjacency;
use crate::emit::usage::field_types;
use crate::emit::usage::item_names;
use crate::emit::usage::model_rel;
use crate::emit::usage::same_names;
use crate::graph::Edges;
use crate::graph::Rel;
use crate::graph::back_closed;
use crate::graph::back_closure;
use crate::graph::lemma_back_closure;
use crate::graph::lemma_back_closure_empty;
use crate::graph::name_seq;
use crate::graph::node_names;
use crate::graph::rel_of;
use crate::graph::unique_names;
use crate::graph::views;
use crate::graph::lemma_views_drop_last;
use vstd::seq_lib::seq_to_set_is_finite;
use crate::ir::EnumKind;
use crate::ir::ForeignDerives;
use crate::ir::Item;
use crate::ir::Module;
use crate::ir::RustType;
use crate::ir::UnionVariant;
use crate::ir::all_derives;
use crate::ir::item_name;
use crate::ir::meet;
use crate::naming::Case;
use crate::naming::ident_text;
use crate::naming::to_ident;

verus! {

/// One of the three non-serde traits a foreign type may lack.
#[derive(Debug, Clone, Copy, PartialEq, Eq)]
pub enum ForeignTrait {
    /// `Debug`.
    Debug,
    /// `Clone`.
    Clone,
    /// `PartialEq`.
    PartialEq,
}

/// Whether `d` allows trait `t`.
pub open spec fn allows(d: ForeignDerives, t: ForeignTrait) -> bool {
    match t {
        ForeignTrait::Debug => d.debug,
        ForeignTrait::Clone => d.clone,
        ForeignTrait::PartialEq => d.partial_eq,
    }
}

/// What a single type expression allows, counting only the foreign types it
/// names directly: the wrappers are transparent and a model name adds nothing.
pub open spec fn direct_constraint(t: RustType) -> ForeignDerives
    decreases t,
{
    match t {
        RustType::Verbatim { derives, .. } => derives,
        RustType::Vec(inner) => direct_constraint(*inner),
        RustType::HashMap(inner) => direct_constraint(*inner),
        RustType::Option(inner) => direct_constraint(*inner),
        RustType::Boxed(inner) => direct_constraint(*inner),
        _ => all_derives(),
    }
}

/// What a list of type expressions allows together.
pub open spec fn meet_all(ts: Seq<RustType>) -> ForeignDerives
    decreases ts.len(),
{
    if ts.len() == 0 {
        all_derives()
    } else {
        meet(meet_all(ts.drop_last()), direct_constraint(ts.last()))
    }
}

/// The types of a list of union variants.
pub open spec fn variant_types(vs: Seq<UnionVariant>) -> Seq<RustType> {
    vs.map_values(|v: UnionVariant| v.ty)
}

/// Every type expression an item holds: its field types and captured-map type,
/// its union variant types, or its alias target.
pub open spec fn item_type_seq(item: Item) -> Seq<RustType> {
    match item {
        Item::Struct(s) => field_types(s.fields@) + match s.additional_properties {
            Some(t) => seq![t],
            None => Seq::empty(),
        },
        Item::Enum(e) => match e.kind {
            EnumKind::Union(vs) => variant_types(vs@),
            _ => Seq::empty(),
        },
        Item::Alias(a) => seq![a.ty],
    }
}

/// What an item's own foreign types allow.
pub open spec fn item_allowed(item: Item) -> ForeignDerives {
    meet_all(item_type_seq(item))
}

/// Each constrained item's own constraint, by name; a later item with a name
/// already seen replaces the earlier one's constraint when it has one.
pub open spec fn direct_map(items: Seq<Item>) -> Map<Seq<char>, ForeignDerives>
    decreases items.len(),
{
    if items.len() == 0 {
        Map::empty()
    } else {
        let rest = direct_map(items.drop_last());
        let allowed = item_allowed(items.last());
        if allowed == all_derives() {
            rest
        } else {
            rest.insert(item_name(items.last()), allowed)
        }
    }
}

/// The models whose own foreign types lack `t`.
pub open spec fn direct_lacking(items: Seq<Item>, t: ForeignTrait) -> Set<Seq<char>> {
    Set::new(|n: Seq<char>| direct_map(items).dom().contains(n) && !allows(direct_map(items)[n], t))
}

/// The models that may not derive `t`: those reaching a model whose own foreign
/// types lack it.
pub open spec fn lacking_models(items: Seq<Item>, t: ForeignTrait) -> Set<Seq<char>> {
    back_closure(model_rel(items), direct_lacking(items, t))
}

/// What a model may derive: the traits no model it reaches lacks.
pub open spec fn allowed_for(items: Seq<Item>, n: Seq<char>) -> ForeignDerives {
    ForeignDerives {
        debug: !lacking_models(items, ForeignTrait::Debug).contains(n),
        clone: !lacking_models(items, ForeignTrait::Clone).contains(n),
        partial_eq: !lacking_models(items, ForeignTrait::PartialEq).contains(n),
    }
}

/// The models that may not derive everything.
pub open spec fn constrained_models(items: Seq<Item>) -> Set<Seq<char>> {
    lacking_models(items, ForeignTrait::Debug)
        .union(lacking_models(items, ForeignTrait::Clone))
        .union(lacking_models(items, ForeignTrait::PartialEq))
}

/// One model name and the non-serde traits it may derive.
#[derive(Debug, Clone)]
pub struct ForeignEntry {
    /// The model name.
    pub name: String,
    /// The traits it may derive.
    pub derives: ForeignDerives,
}

/// The names of a constraint table, in entry order.
pub open spec fn foreign_name_seq(es: Seq<ForeignEntry>) -> Seq<Seq<char>> {
    es.map_values(|e: ForeignEntry| e.name@)
}

/// The names a constraint table has an entry for.
pub open spec fn foreign_keys(es: Seq<ForeignEntry>) -> Set<Seq<char>> {
    foreign_name_seq(es).to_set()
}

/// No two entries share a name.
pub open spec fn unique_foreign(es: Seq<ForeignEntry>) -> bool {
    forall|i: int, j: int|
        #![trigger es[i].name@, es[j].name@]
        0 <= i < es.len() && 0 <= j < es.len() && i != j ==> es[i].name@ != es[j].name@
}

/// The names whose entry lacks `t`.
pub open spec fn lacking(es: Seq<ForeignEntry>, t: ForeignTrait) -> Set<Seq<char>> {
    Set::new(|n: Seq<char>| exists|i: int| #![trigger es[i]] 0 <= i < es.len() && es[i].name@ == n && !allows(es[i].derives, t))
}

/// What a table says a name may derive: its entry, or everything without one.
pub open spec fn lookup(es: Seq<ForeignEntry>, n: Seq<char>) -> ForeignDerives {
    ForeignDerives {
        debug: !lacking(es, ForeignTrait::Debug).contains(n),
        clone: !lacking(es, ForeignTrait::Clone).contains(n),
        partial_eq: !lacking(es, ForeignTrait::PartialEq).contains(n),
    }
}

/// Whether a table holds exactly the constraints `m` maps.
pub open spec fn represents(es: Seq<ForeignEntry>, m: Map<Seq<char>, ForeignDerives>) -> bool {
    &&& unique_foreign(es)
    &&& foreign_keys(es) == m.dom()
    &&& forall|i: int| #![trigger es[i]] 0 <= i < es.len() ==> m[es[i].name@] == es[i].derives
}

/// With unique names, an entry's own flags decide what the table lacks at its name.
pub proof fn lemma_entry_lacking(es: Seq<ForeignEntry>, i: int, t: ForeignTrait)
    requires
        unique_foreign(es),
        0 <= i < es.len(),
    ensures
        lacking(es, t).contains(es[i].name@) == !allows(es[i].derives, t),
{
    if lacking(es, t).contains(es[i].name@) {
        let j = choose|j: int| #![trigger es[j]] 0 <= j < es.len() && es[j].name@ == es[i].name@ && !allows(es[j].derives, t);
        assert(j == i);
    }
}

/// A name without an entry lacks nothing.
pub proof fn lemma_absent_lacking(es: Seq<ForeignEntry>, n: Seq<char>, t: ForeignTrait)
    requires
        !foreign_keys(es).contains(n),
    ensures
        !lacking(es, t).contains(n),
{
    if lacking(es, t).contains(n) {
        let j = choose|j: int| #![trigger es[j]] 0 <= j < es.len() && es[j].name@ == n && !allows(es[j].derives, t);
        assert(foreign_name_seq(es)[j] == n);
    }
}

/// The lacking sets of a table, mapped back: a table with unique names holds at
/// `n` exactly what [`lookup`] says.
pub proof fn lemma_lookup_entry(es: Seq<ForeignEntry>, i: int)
    requires
        unique_foreign(es),
        0 <= i < es.len(),
    ensures
        lookup(es, es[i].name@) == es[i].derives,
{
    lemma_entry_lacking(es, i, ForeignTrait::Debug);
    lemma_entry_lacking(es, i, ForeignTrait::Clone);
    lemma_entry_lacking(es, i, ForeignTrait::PartialEq);
}

/// Replacing the derives of entry `i` changes what the table lacks only at its name.
pub proof fn lemma_set_entry(es: Seq<ForeignEntry>, i: int, e: ForeignEntry, t: ForeignTrait)
    requires
        unique_foreign(es),
        0 <= i < es.len(),
        e.name@ == es[i].name@,
    ensures
        unique_foreign(es.update(i, e)),
        foreign_keys(es.update(i, e)) == foreign_keys(es),
        lacking(es.update(i, e), t) == if allows(e.derives, t) {
            lacking(es, t).remove(e.name@)
        } else {
            lacking(es, t).insert(e.name@)
        },
{
    let es2 = es.update(i, e);
    let n = e.name@;
    assert(foreign_name_seq(es2) =~= foreign_name_seq(es));
    assert forall|a: int, b: int|
        #![trigger es2[a].name@, es2[b].name@]
        0 <= a < es2.len() && 0 <= b < es2.len() && a != b implies es2[a].name@ != es2[b].name@ by {
        assert(es2[a].name@ == es[a].name@ && es2[b].name@ == es[b].name@);
    }
    let want = if allows(e.derives, t) { lacking(es, t).remove(n) } else { lacking(es, t).insert(n) };
    assert forall|m: Seq<char>| lacking(es2, t).contains(m) implies want.contains(m) by {
        let j = choose|j: int| #![trigger es2[j]] 0 <= j < es2.len() && es2[j].name@ == m && !allows(es2[j].derives, t);
        if j != i {
            assert(es[j] == es2[j]);
            assert(es[j].name@ != es[i].name@);
        }
    }
    assert forall|m: Seq<char>| want.contains(m) implies lacking(es2, t).contains(m) by {
        if m == n {
            assert(es2[i] == e);
        } else {
            let j = choose|j: int| #![trigger es[j]] 0 <= j < es.len() && es[j].name@ == m && !allows(es[j].derives, t);
            assert(j != i);
            assert(es2[j] == es[j]);
        }
    }
    assert(lacking(es2, t) =~= want);
}

/// Appending an entry under a new name adds it to what the table lacks as its derives say.
pub proof fn lemma_push_entry(es: Seq<ForeignEntry>, e: ForeignEntry, t: ForeignTrait)
    requires
        unique_foreign(es),
        !foreign_keys(es).contains(e.name@),
    ensures
        unique_foreign(es.push(e)),
        foreign_keys(es.push(e)) == foreign_keys(es).insert(e.name@),
        lacking(es.push(e), t) == if allows(e.derives, t) {
            lacking(es, t)
        } else {
            lacking(es, t).insert(e.name@)
        },
{
    let es2 = es.push(e);
    let n = e.name@;
    assert(foreign_name_seq(es2) =~= foreign_name_seq(es).push(n));
    assert forall|a: int, b: int|
        #![trigger es2[a].name@, es2[b].name@]
        0 <= a < es2.len() && 0 <= b < es2.len() && a != b implies es2[a].name@ != es2[b].name@ by {
        if a < es.len() && b < es.len() {
            assert(es2[a] == es[a] && es2[b] == es[b]);
        } else if a < es.len() {
            assert(foreign_name_seq(es)[a] == es[a].name@);
        } else if b < es.len() {
            assert(foreign_name_seq(es)[b] == es[b].name@);
        }
    }
    assert forall|m: Seq<char>| foreign_keys(es2).contains(m) implies foreign_keys(es).insert(n).contains(m) by {
        let k = choose|k: int| 0 <= k < es2.len() && #[trigger] foreign_name_seq(es2)[k] == m;
        if k < es.len() {
            assert(foreign_name_seq(es)[k] == m);
        }
    }
    assert forall|m: Seq<char>| foreign_keys(es).insert(n).contains(m) implies foreign_keys(es2).contains(m) by {
        if m == n {
            assert(foreign_name_seq(es2)[es.len() as int] == m);
        } else {
            let k = choose|k: int| 0 <= k < es.len() && #[trigger] foreign_name_seq(es)[k] == m;
            assert(foreign_name_seq(es2)[k] == m);
        }
    }
    assert(foreign_keys(es2) =~= foreign_keys(es).insert(n));
    let want = if allows(e.derives, t) { lacking(es, t) } else { lacking(es, t).insert(n) };
    assert forall|m: Seq<char>| lacking(es2, t).contains(m) implies want.contains(m) by {
        let j = choose|j: int| #![trigger es2[j]] 0 <= j < es2.len() && es2[j].name@ == m && !allows(es2[j].derives, t);
        if j < es.len() {
            assert(es[j] == es2[j]);
        }
    }
    assert forall|m: Seq<char>| want.contains(m) implies lacking(es2, t).contains(m) by {
        if m == n && !allows(e.derives, t) {
            assert(es2[es.len() as int] == e);
        } else {
            let j = choose|j: int| #![trigger es[j]] 0 <= j < es.len() && es[j].name@ == m && !allows(es[j].derives, t);
            assert(es2[j] == es[j]);
        }
    }
    assert(lacking(es2, t) =~= want);
}

/// The index of the entry named `name`, when there is one.
fn find_foreign(es: &Vec<ForeignEntry>, name: &String) -> (r: Option<usize>)
    ensures
        r matches Some(i) ==> i < es@.len() && es@[i as int].name@ == name@,
        r is None ==> !foreign_keys(es@).contains(name@),
{
    let mut i: usize = 0;
    while i < es.len()
        invariant
            i <= es@.len(),
            forall|k: int| 0 <= k < i ==> es@[k].name@ != name@,
        decreases es@.len() - i,
    {
        if es[i].name == *name {
            return Some(i);
        }
        i = i + 1;
    }
    proof {
        if foreign_keys(es@).contains(name@) {
            let k = choose|k: int| 0 <= k < es@.len() && #[trigger] foreign_name_seq(es@)[k] == name@;
            assert(es@[k].name@ == name@);
        }
    }
    None
}

/// What a single type expression allows, counting only the foreign types it
/// names directly.
///
/// Every wrapper derives all three when its element does, so `Vec`, `HashMap`,
/// `Option`, and `Box` are transparent. A model name contributes nothing here:
/// the graph walk is what carries a constraint across a model reference.
pub fn direct_foreign_constraint(ty: &RustType) -> (r: ForeignDerives)
    ensures
        r == direct_constraint(*ty),
    decreases ty,
{
    match ty {
        RustType::Verbatim { derives, .. } => *derives,
        RustType::Vec(inner) => direct_foreign_constraint(inner),
        RustType::HashMap(inner) => direct_foreign_constraint(inner),
        RustType::Option(inner) => direct_foreign_constraint(inner),
        RustType::Boxed(inner) => direct_foreign_constraint(inner),
        _ => ForeignDerives::all(),
    }
}

/// Every type expression an item holds: its field types, its variant types, or
/// its alias target.
///
/// The alias target is included even though an alias emits no derive of its
/// own: a model naming the alias reaches the foreign type through it.
pub fn item_types(item: &Item) -> (types: Vec<RustType>)
    ensures
        types@ == item_type_seq(*item),
{
    let mut types: Vec<RustType> = Vec::new();
    match item {
        Item::Struct(strukt) => {
            let mut k: usize = 0;
            while k < strukt.fields.len()
                invariant
                    k <= strukt.fields@.len(),
                    types@ == field_types(strukt.fields@.take(k as int)),
                decreases strukt.fields@.len() - k,
            {
                types.push(strukt.fields[k].ty.clone());
                assert(field_types(strukt.fields@.take(k + 1)) =~= field_types(strukt.fields@.take(k as int)).push(strukt.fields@[k as int].ty));
                k = k + 1;
            }
            assert(strukt.fields@.take(strukt.fields@.len() as int) =~= strukt.fields@);
            match &strukt.additional_properties {
                Some(additional) => types.push(additional.clone()),
                None => {},
            }
        },
        Item::Enum(enom) => {
            match &enom.kind {
                EnumKind::Union(variants) => {
                    let mut k: usize = 0;
                    while k < variants.len()
                        invariant
                            k <= variants@.len(),
                            types@ == variant_types(variants@.take(k as int)),
                        decreases variants@.len() - k,
                    {
                        types.push(variants[k].ty.clone());
                        assert(variant_types(variants@.take(k + 1)) =~= variant_types(variants@.take(k as int)).push(variants@[k as int].ty));
                        k = k + 1;
                    }
                    assert(variants@.take(variants@.len() as int) =~= variants@);
                },
                _ => {},
            }
        },
        Item::Alias(alias) => types.push(alias.ty.clone()),
    }
    assert(types@ =~= item_type_seq(*item));
    types
}

/// What an item's own foreign types allow together.
fn item_constraint(item: &Item) -> (r: ForeignDerives)
    ensures
        r == item_allowed(*item),
{
    let types = item_types(item);
    let mut allowed = ForeignDerives::all();
    let mut k: usize = 0;
    while k < types.len()
        invariant
            k <= types@.len(),
            types@ == item_type_seq(*item),
            allowed == meet_all(types@.take(k as int)),
        decreases types@.len() - k,
    {
        allowed = allowed.intersect(direct_foreign_constraint(&types[k]));
        assert(types@.take(k + 1).drop_last() =~= types@.take(k as int));
        k = k + 1;
    }
    assert(types@.take(types@.len() as int) =~= types@);
    allowed
}

/// Each constrained item's own constraint: the seed of the graph walk.
fn direct_constraints(module: &Module) -> (direct: Vec<ForeignEntry>)
    ensures
        represents(direct@, direct_map(module.items@)),
        forall|i: int| #![trigger direct@[i]] 0 <= i < direct@.len() ==> direct@[i].derives != all_derives(),
{
    let mut direct: Vec<ForeignEntry> = Vec::new();
    let mut k: usize = 0;
    proof {
        assert(foreign_keys(direct@) =~= Map::<Seq<char>, ForeignDerives>::empty().dom());
        assert(module.items@.take(0) =~= Seq::<Item>::empty());
    }
    while k < module.items.len()
        invariant
            k <= module.items@.len(),
            represents(direct@, direct_map(module.items@.take(k as int))),
            forall|i: int| #![trigger direct@[i]] 0 <= i < direct@.len() ==> direct@[i].derives != all_derives(),
        decreases module.items@.len() - k,
    {
        let item = &module.items[k];
        let allowed = item_constraint(item);
        let ghost prefix = module.items@.take(k as int);
        let ghost next = module.items@.take(k + 1);
        proof {
            assert(next.drop_last() =~= prefix);
            assert(next.last() == *item);
        }
        if !allowed.is_unconstrained() {
            let name = crate::text::owned(item.name());
            let ghost m = direct_map(prefix);
            let ghost m2 = m.insert(name@, allowed);
            assert(direct_map(next) == m2);
            match find_foreign(&direct, &name) {
                Some(i) => {
                    let ghost pre = direct@;
                    proof {
                        assert(foreign_name_seq(pre)[i as int] == name@);
                        assert(m.dom().contains(name@));
                    }
                    direct.set(i, ForeignEntry { name, derives: allowed });
                    proof {
                        lemma_set_entry(pre, i as int, direct@[i as int], ForeignTrait::Debug);
                        assert(foreign_keys(direct@) =~= m2.dom());
                        assert forall|j: int| #![trigger direct@[j]] 0 <= j < direct@.len() implies m2[direct@[j].name@] == direct@[j].derives by {
                            if j != i {
                                assert(direct@[j] == pre[j]);
                                assert(pre[j].name@ != pre[i as int].name@);
                            }
                        }
                    }
                },
                None => {
                    let ghost pre = direct@;
                    direct.push(ForeignEntry { name, derives: allowed });
                    proof {
                        lemma_push_entry(pre, direct@.last(), ForeignTrait::Debug);
                        assert(direct@ == pre.push(direct@.last()));
                        assert(foreign_keys(direct@) =~= m2.dom());
                        assert forall|j: int| #![trigger direct@[j]] 0 <= j < direct@.len() implies m2[direct@[j].name@] == direct@[j].derives by {
                            if j < pre.len() {
                                assert(direct@[j] == pre[j]);
                                assert(foreign_name_seq(pre)[j] == pre[j].name@);
                            }
                        }
                    }
                },
            }
        } else {
            assert(direct_map(next) == direct_map(prefix));
        }
        k = k + 1;
    }
    proof {
        assert(module.items@.take(module.items@.len() as int) =~= module.items@);
    }
    direct
}

} // verus!

verus! {

/// Whether a list of names holds `n`.
pub fn contains_name(names: &Vec<String>, n: &String) -> (r: bool)
    ensures
        r == views(names@).contains(n@),
{
    let mut k: usize = 0;
    while k < names.len()
        invariant
            k <= names@.len(),
            forall|j: int| 0 <= j < k ==> names@[j]@ != n@,
        decreases names@.len() - k,
    {
        if names[k] == *n {
            assert(views(names@)[k as int] == n@);
            return true;
        }
        k = k + 1;
    }
    proof {
        if views(names@).contains(n@) {
            let j = choose|j: int| 0 <= j < views(names@).len() && views(names@)[j] == n@;
            assert(names@[j]@ == n@);
        }
    }
    false
}

/// The models naming `name`: every node that points at it.
pub fn referrers(adj: &Vec<Edges>, name: &String) -> (parents: Vec<String>)
    ensures
        forall|p: Seq<char>| #[trigger] views(parents@).contains(p) <==> rel_of(adj@)(p, name@),
{
    let mut parents: Vec<String> = Vec::new();
    let mut q: usize = 0;
    while q < adj.len()
        invariant
            q <= adj@.len(),
            forall|p: Seq<char>|
                #[trigger] views(parents@).contains(p) <==> exists|i: int|
                    0 <= i < q && adj@[i].name@ == p && #[trigger] views(adj@[i].targets@).contains(name@),
        decreases adj@.len() - q,
    {
        if contains_name(&adj[q].targets, name) {
            let ghost pre = parents@;
            proof {
                crate::graph::lemma_views_push(pre, adj@[q as int].name);
            }
            parents.push(adj[q].name.clone());
            proof {
                assert forall|p: Seq<char>|
                    #[trigger] views(parents@).contains(p) <==> exists|i: int|
                        0 <= i < q + 1 && adj@[i].name@ == p && #[trigger] views(adj@[i].targets@).contains(name@) by {
                    if views(parents@).contains(p) {
                        let k = choose|k: int| 0 <= k < views(parents@).len() && views(parents@)[k] == p;
                        if k < pre.len() {
                            assert(views(pre)[k] == p);
                            assert(views(pre).contains(p));
                            let i = choose|i: int| 0 <= i < q && adj@[i].name@ == p && #[trigger] views(adj@[i].targets@).contains(name@);
                            assert(0 <= i < q + 1 && adj@[i].name@ == p && views(adj@[i].targets@).contains(name@));
                        } else {
                            assert(p == adj@[q as int].name@);
                            assert(views(adj@[q as int].targets@).contains(name@));
                        }
                    }
                    if exists|i: int| 0 <= i < q + 1 && adj@[i].name@ == p && #[trigger] views(adj@[i].targets@).contains(name@) {
                        let i = choose|i: int| 0 <= i < q + 1 && adj@[i].name@ == p && #[trigger] views(adj@[i].targets@).contains(name@);
                        if i < q {
                            assert(exists|i2: int| 0 <= i2 < q && adj@[i2].name@ == p && #[trigger] views(adj@[i2].targets@).contains(name@));
                            assert(views(pre).contains(p));
                            let k = choose|k: int| 0 <= k < views(pre).len() && views(pre)[k] == p;
                            assert(views(parents@)[k] == p);
                        } else {
                            assert(views(parents@)[pre.len() as int] == p);
                        }
                    }
                }
            }
        }
        q = q + 1;
    }
    parents
}

/// A table that represents a map lacks `t` exactly where the map's value does.
pub proof fn lemma_represents_lacking(es: Seq<ForeignEntry>, m: Map<Seq<char>, ForeignDerives>, t: ForeignTrait)
    requires
        represents(es, m),
    ensures
        lacking(es, t) == Set::new(|n: Seq<char>| m.dom().contains(n) && !allows(m[n], t)),
{
    let want = Set::new(|n: Seq<char>| m.dom().contains(n) && !allows(m[n], t));
    assert forall|n: Seq<char>| lacking(es, t).contains(n) implies want.contains(n) by {
        let i = choose|i: int| #![trigger es[i]] 0 <= i < es.len() && es[i].name@ == n && !allows(es[i].derives, t);
        assert(foreign_name_seq(es)[i] == n);
    }
    assert forall|n: Seq<char>| want.contains(n) implies lacking(es, t).contains(n) by {
        assert(foreign_keys(es).contains(n));
        let i = choose|i: int| 0 <= i < es.len() && #[trigger] foreign_name_seq(es)[i] == n;
        assert(es[i].name@ == n);
    }
    assert(lacking(es, t) =~= want);
}

/// Every constrained name is an item name.
pub proof fn lemma_direct_names(items: Seq<Item>)
    ensures
        direct_map(items).dom().subset_of(item_names(items)),
    decreases items.len(),
{
    if items.len() > 0 {
        lemma_direct_names(items.drop_last());
        let rest = items.drop_last();
        assert forall|n: Seq<char>| direct_map(items).dom().contains(n) implies item_names(items).contains(n) by {
            if n == item_name(items.last()) {
                assert(crate::emit::usage::item_name_seq(items)[items.len() - 1] == n);
            } else {
                assert(item_names(rest).contains(n));
                let k = choose|k: int| 0 <= k < rest.len() && #[trigger] crate::emit::usage::item_name_seq(rest)[k] == n;
                assert(crate::emit::usage::item_name_seq(items)[k] == n);
            }
        }
    }
}

/// How far a table is from lacking everything: the (name, trait) pairs over
/// `uni` it still allows.
pub open spec fn allowed_count(es: Seq<ForeignEntry>, uni: Set<Seq<char>>) -> nat {
    uni.difference(lacking(es, ForeignTrait::Debug)).len()
        + uni.difference(lacking(es, ForeignTrait::Clone)).len()
        + uni.difference(lacking(es, ForeignTrait::PartialEq)).len()
}

/// Growing a set shrinks what of a finite universe lies outside it, strictly
/// when the growth meets the universe.
pub proof fn lemma_outside_shrinks(uni: Set<Seq<char>>, a: Set<Seq<char>>, b: Set<Seq<char>>)
    requires
        uni.finite(),
        a.subset_of(b),
    ensures
        uni.difference(b).len() <= uni.difference(a).len(),
        (exists|x: Seq<char>| uni.contains(x) && b.contains(x) && !a.contains(x)) ==> uni.difference(b).len() < uni.difference(a).len(),
{
    vstd::set_lib::lemma_len_subset(uni.difference(b), uni.difference(a));
    if exists|x: Seq<char>| uni.contains(x) && b.contains(x) && !a.contains(x) {
        let x = choose|x: Seq<char>| uni.contains(x) && b.contains(x) && !a.contains(x);
        uni.difference(b).lemma_subset_not_in_lt(uni.difference(a), x);
    }
}

/// The table keeps its own seeds and claims no trait loss the items do not force.
pub open spec fn sound_for(es: Seq<ForeignEntry>, items: Seq<Item>, t: ForeignTrait) -> bool {
    &&& direct_lacking(items, t).subset_of(lacking(es, t))
    &&& lacking(es, t).subset_of(lacking_models(items, t))
}

/// Every edge along which the loss of `t` has not yet been carried ends at a
/// name still waiting, or, while `c` is being processed, at `c` from a referrer
/// not yet visited.
pub open spec fn carried_for(
    es: Seq<ForeignEntry>,
    rel: Rel,
    t: ForeignTrait,
    waiting: Seq<Seq<char>>,
    active: bool,
    c: Seq<char>,
    done: Seq<Seq<char>>,
) -> bool {
    forall|p: Seq<char>, q: Seq<char>|
        #[trigger] rel(p, q) && lacking(es, t).contains(q) && !lacking(es, t).contains(p) ==> waiting.contains(q) || (active
            && q == c && !done.contains(p))
}

/// Update or add the entry for `name` to `derives`.
fn upsert(es: &mut Vec<ForeignEntry>, name: &String, derives: ForeignDerives)
    requires
        unique_foreign(old(es)@),
    ensures
        unique_foreign(final(es)@),
        foreign_keys(final(es)@) == foreign_keys(old(es)@).insert(name@),
        forall|t: ForeignTrait| #[trigger] lacking(final(es)@, t) == if allows(derives, t) {
            lacking(old(es)@, t).remove(name@)
        } else {
            lacking(old(es)@, t).insert(name@)
        },
        forall|i: int| #![trigger final(es)@[i]] 0 <= i < final(es)@.len() ==> final(es)@[i].derives == derives || exists|j: int| 0 <= j < old(es)@.len() && old(es)@[j] == final(es)@[i],
{
    match find_foreign(es, name) {
        Some(i) => {
            let ghost pre = es@;
            proof {
                assert(foreign_name_seq(pre)[i as int] == name@);
            }
            es.set(i, ForeignEntry { name: name.clone(), derives });
            proof {
                assert forall|t: ForeignTrait| #[trigger] lacking(es@, t) == if allows(derives, t) {
                    lacking(pre, t).remove(name@)
                } else {
                    lacking(pre, t).insert(name@)
                } by {
                    lemma_set_entry(pre, i as int, es@[i as int], t);
                }
                lemma_set_entry(pre, i as int, es@[i as int], ForeignTrait::Debug);
                assert(foreign_keys(pre).insert(name@) =~= foreign_keys(pre));
                assert forall|k: int| #![trigger es@[k]] 0 <= k < es@.len() implies es@[k].derives == derives || exists|j: int| 0 <= j < pre.len() && pre[j] == es@[k] by {
                    if k != i {
                        assert(pre[k] == es@[k]);
                    }
                }
            }
        },
        None => {
            let ghost pre = es@;
            es.push(ForeignEntry { name: name.clone(), derives });
            proof {
                assert(es@ == pre.push(es@.last()));
                assert forall|t: ForeignTrait| #[trigger] lacking(es@, t) == if allows(derives, t) {
                    lacking(pre, t).remove(name@)
                } else {
                    lacking(pre, t).insert(name@)
                } by {
                    lemma_push_entry(pre, es@.last(), t);
                    if allows(derives, t) {
                        if lacking(pre, t).contains(name@) {
                            lemma_absent_lacking(pre, name@, t);
                        }
                        assert(lacking(pre, t).remove(name@) =~= lacking(pre, t));
                    }
                }
                lemma_push_entry(pre, es@.last(), ForeignTrait::Debug);
                assert forall|k: int| #![trigger es@[k]] 0 <= k < es@.len() implies es@[k].derives == derives || exists|j: int| 0 <= j < pre.len() && pre[j] == es@[k] by {
                    if k < pre.len() {
                        assert(pre[k] == es@[k]);
                    }
                }
            }
        },
    }
}

} // verus!

verus! {

/// What the table says of a name, read through its entry when it has one.
pub fn lookup_exec(es: &Vec<ForeignEntry>, name: &String) -> (r: ForeignDerives)
    requires
        unique_foreign(es@),
    ensures
        r == lookup(es@, name@),
{
    match find_foreign(es, name) {
        Some(i) => {
            proof {
                lemma_lookup_entry(es@, i as int);
            }
            es[i].derives
        },
        None => {
            proof {
                lemma_absent_lacking(es@, name@, ForeignTrait::Debug);
                lemma_absent_lacking(es@, name@, ForeignTrait::Clone);
                lemma_absent_lacking(es@, name@, ForeignTrait::PartialEq);
            }
            ForeignDerives::all()
        },
    }
}

/// A name reached by an edge is the name of a node.
proof fn lemma_source_named(adj: Seq<Edges>, a: Seq<char>, b: Seq<char>)
    requires
        rel_of(adj)(a, b),
    ensures
        node_names(adj).contains(a),
{
    let i = choose|i: int| 0 <= i < adj.len() && adj[i].name@ == a && #[trigger] views(adj[i].targets@).contains(b);
    assert(name_seq(adj)[i] == a);
}

/// Carrying the loss of a trait from `c` to one referrer `p`: the table after
/// the update still waits for every edge it has not carried.
proof fn lemma_carry_step(
    es: Seq<ForeignEntry>,
    es2: Seq<ForeignEntry>,
    rel: Rel,
    t: ForeignTrait,
    waiting: Seq<Seq<char>>,
    waiting2: Seq<Seq<char>>,
    c: Seq<char>,
    done: Seq<Seq<char>>,
    p: Seq<char>,
    constraint: ForeignDerives,
)
    requires
        carried_for(es, rel, t, waiting, true, c, done),
        lacking(es, t).subset_of(lacking(es2, t)),
        forall|x: Seq<char>| lacking(es2, t).contains(x) && !lacking(es, t).contains(x) ==> x == p && waiting2.contains(p),
        forall|x: Seq<char>| waiting.contains(x) ==> waiting2.contains(x),
        lacking(es2, t).contains(c) ==> lacking(es, t).contains(c),
        lacking(es, t).contains(c) == !allows(constraint, t),
        !allows(constraint, t) ==> lacking(es2, t).contains(p),
    ensures
        carried_for(es2, rel, t, waiting2, true, c, done.push(p)),
{
    assert forall|a: Seq<char>, q: Seq<char>|
        #[trigger] rel(a, q) && lacking(es2, t).contains(q) && !lacking(es2, t).contains(a) implies waiting2.contains(q) || (q == c
            && !done.push(p).contains(a)) by {
        if lacking(es, t).contains(q) {
            assert(!lacking(es, t).contains(a));
            if waiting.contains(q) {
            } else {
                assert(q == c && !done.contains(a));
                if a == p {
                    assert(lacking(es2, t).contains(c));
                    assert(false);
                }
                assert(!done.push(p).contains(a)) by {
                    if done.push(p).contains(a) {
                        let k = choose|k: int| 0 <= k < done.push(p).len() && done.push(p)[k] == a;
                        assert(k < done.len());
                        assert(done[k] == a);
                    }
                }
            }
        }
    }
}

/// The non-serde traits each model can derive, for every model a restricted
/// foreign type constrains. A model without an entry is unconstrained.
///
/// Each model starts from what its own foreign types allow; then, until nothing
/// changes, each narrowed model narrows the models naming it to what both allow.
/// A push only ever clears a flag, so the walk ends.
pub fn foreign_derives(module: &Module, adj: &Vec<Edges>) -> (resolved: Vec<ForeignEntry>)
    requires
        unique_names(adj@),
        rel_of(adj@) == model_rel(module.items@),
        same_names(module.items@, adj@),
    ensures
        unique_foreign(resolved@),
        forall|t: ForeignTrait| #[trigger] lacking(resolved@, t) == lacking_models(module.items@, t),
        foreign_keys(resolved@) == constrained_models(module.items@),
{
    let ghost items = module.items@;
    let ghost rel = model_rel(items);
    let ghost uni = item_names(items);
    let direct = direct_constraints(module);
    proof {
        seq_to_set_is_finite(crate::emit::usage::item_name_seq(items));
        lemma_direct_names(items);
        assert forall|t: ForeignTrait| #[trigger] sound_for(direct@, items, t) by {
            lemma_represents_lacking(direct@, direct_map(items), t);
            assert(direct_lacking(items, t) =~= lacking(direct@, t));
            lemma_back_closure(rel, direct_lacking(items, t));
        }
        assert(foreign_keys(direct@).subset_of(uni));
    }
    if direct.len() == 0 {
        let empty: Vec<ForeignEntry> = Vec::new();
        proof {
            lemma_back_closure_empty(rel);
            assert forall|t: ForeignTrait| #[trigger] lacking(empty@, t) == lacking_models(items, t) by {
                lemma_represents_lacking(direct@, direct_map(items), t);
                assert(lacking(empty@, t) =~= Set::<Seq<char>>::empty());
                assert(lacking(direct@, t) =~= Set::<Seq<char>>::empty());
                assert(direct_lacking(items, t) =~= Set::<Seq<char>>::empty());
            }
            assert(foreign_keys(empty@) =~= Set::<Seq<char>>::empty());
            assert(constrained_models(items) =~= Set::<Seq<char>>::empty());
        }
        return empty;
    }
    let mut stack: Vec<String> = Vec::new();
    let mut k: usize = 0;
    while k < direct.len()
        invariant
            k <= direct@.len(),
            views(stack@) == foreign_name_seq(direct@.take(k as int)),
        decreases direct@.len() - k,
    {
        proof {
            crate::graph::lemma_views_push(stack@, direct@[k as int].name);
        }
        stack.push(direct[k].name.clone());
        assert(foreign_name_seq(direct@.take(k + 1)) =~= foreign_name_seq(direct@.take(k as int)).push(direct@[k as int].name@));
        k = k + 1;
    }
    assert(direct@.take(direct@.len() as int) =~= direct@);
    let mut resolved = direct;
    proof {
        assert forall|t: ForeignTrait| #[trigger] carried_for(resolved@, rel, t, views(stack@), false, Seq::empty(), Seq::empty()) by {
            assert forall|a: Seq<char>, q: Seq<char>|
                #[trigger] rel(a, q) && lacking(resolved@, t).contains(q) && !lacking(resolved@, t).contains(a) implies views(stack@).contains(q) by {
                let i = choose|i: int| #![trigger resolved@[i]] 0 <= i < resolved@.len() && resolved@[i].name@ == q && !allows(resolved@[i].derives, t);
                assert(views(stack@)[i] == q);
            }
        }
    }
    while stack.len() > 0
        invariant
            unique_names(adj@),
            rel_of(adj@) == rel,
            rel == model_rel(items),
            items == module.items@,
            uni == item_names(items),
            node_names(adj@) == uni,
            uni.finite(),
            unique_foreign(resolved@),
            forall|i: int| #![trigger resolved@[i]] 0 <= i < resolved@.len() ==> resolved@[i].derives != all_derives(),
            foreign_keys(resolved@).subset_of(uni),
            forall|t: ForeignTrait| #[trigger] sound_for(resolved@, items, t),
            forall|t: ForeignTrait| #[trigger] carried_for(resolved@, rel, t, views(stack@), false, Seq::empty(), Seq::empty()),
        decreases allowed_count(resolved@, uni), stack@.len(),
    {
        let ghost stack0 = stack@;
        let ghost count0 = allowed_count(resolved@, uni);
        let name = stack.pop().unwrap();
        proof {
            assert(stack@ == stack0.drop_last());
            assert(views(stack@) =~= views(stack0).drop_last());
            assert(name@ == views(stack0).last());
        }
        match find_foreign(&resolved, &name) {
            None => {
                proof {
                    assert forall|t: ForeignTrait| #[trigger] carried_for(resolved@, rel, t, views(stack@), false, Seq::empty(), Seq::empty()) by {
                        lemma_absent_lacking(resolved@, name@, t);
                        assert forall|a: Seq<char>, q: Seq<char>|
                            #[trigger] rel(a, q) && lacking(resolved@, t).contains(q) && !lacking(resolved@, t).contains(a) implies views(stack@).contains(q) by {
                            assert(carried_for(resolved@, rel, t, views(stack0), false, Seq::empty(), Seq::empty()));
                            assert(views(stack0).contains(q));
                            assert(q != name@);
                            lemma_views_drop_last(stack0, q);
                        }
                    }
                }
            },
            Some(ci) => {
                let constraint = resolved[ci].derives;
                proof {
                    lemma_lookup_entry(resolved@, ci as int);
                    assert(lookup(resolved@, name@) == constraint);
                }
                let parents = referrers(adj, &name);
                proof {
                    assert forall|t: ForeignTrait| #[trigger] carried_for(resolved@, rel, t, views(stack@), true, name@, views(parents@.take(0))) by {
                        assert forall|a: Seq<char>, q: Seq<char>|
                            #[trigger] rel(a, q) && lacking(resolved@, t).contains(q) && !lacking(resolved@, t).contains(a) implies views(stack@).contains(q) || (q == name@ && !views(parents@.take(0)).contains(a)) by {
                            assert(carried_for(resolved@, rel, t, views(stack0), false, Seq::empty(), Seq::empty()));
                            if q != name@ {
                                lemma_views_drop_last(stack0, q);
                            } else {
                                assert(views(parents@.take(0)) =~= Seq::<Seq<char>>::empty());
                            }
                        }
                    }
                }
                let mut j: usize = 0;
                while j < parents.len()
                    invariant
                        unique_names(adj@),
                        rel_of(adj@) == rel,
                        rel == model_rel(items),
                        items == module.items@,
                        uni == item_names(items),
                        node_names(adj@) == uni,
                        uni.finite(),
                        unique_foreign(resolved@),
                        forall|i: int| #![trigger resolved@[i]] 0 <= i < resolved@.len() ==> resolved@[i].derives != all_derives(),
                        foreign_keys(resolved@).subset_of(uni),
                        forall|t: ForeignTrait| #[trigger] sound_for(resolved@, items, t),
                        j <= parents@.len(),
                        forall|p: Seq<char>| #[trigger] views(parents@).contains(p) <==> rel(p, name@),
                        lookup(resolved@, name@) == constraint,
                        forall|t: ForeignTrait| #[trigger] carried_for(resolved@, rel, t, views(stack@), true, name@, views(parents@.take(j as int))),
                        allowed_count(resolved@, uni) <= count0,
                        allowed_count(resolved@, uni) < count0 || stack@.len() == stack0.len() - 1,
                    decreases parents@.len() - j,
                {
                    let parent = &parents[j];
                    let ghost p = parent@;
                    proof {
                        assert(views(parents@)[j as int] == p);
                        assert(views(parents@).contains(p));
                        assert(rel(p, name@));
                        lemma_source_named(adj@, p, name@);
                        assert(views(parents@.take(j + 1)) =~= views(parents@.take(j as int)).push(p));
                    }
                    let current = lookup_exec(&resolved, parent);
                    let merged = current.intersect(constraint);
                    if merged != current {
                        let ghost es = resolved@;
                        let ghost waiting = views(stack@);
                        upsert(&mut resolved, parent, merged);
                        proof {
                            crate::graph::lemma_views_push(stack@, *parent);
                        }
                        stack.push(parent.clone());
                        proof {
                            let es2 = resolved@;
                            let waiting2 = views(stack@);
                            assert(waiting2 == waiting.push(p));
                            assert(waiting2.contains(p)) by {
                                assert(waiting2[waiting.len() as int] == p);
                            }
                            assert forall|x: Seq<char>| waiting.contains(x) implies waiting2.contains(x) by {
                                let m = choose|m: int| 0 <= m < waiting.len() && waiting[m] == x;
                                assert(waiting2[m] == x);
                            }
                            assert(p != name@) by {
                                if p == name@ {
                                    assert(current == constraint);
                                    assert(merged == current);
                                }
                            }
                            assert forall|t: ForeignTrait|
                                #![trigger sound_for(es2, items, t)]
                                #![trigger carried_for(es2, rel, t, waiting2, true, name@, views(parents@.take(j + 1)))]
                                sound_for(es2, items, t) && carried_for(es2, rel, t, waiting2, true, name@, views(parents@.take(j + 1))) by {
                                assert(sound_for(es, items, t));
                                assert(carried_for(es, rel, t, waiting, true, name@, views(parents@.take(j as int))));
                                assert(lacking(es2, t) == if allows(merged, t) {
                                    lacking(es, t).remove(p)
                                } else {
                                    lacking(es, t).insert(p)
                                });
                                if allows(merged, t) {
                                    assert(lacking(es2, t) =~= lacking(es, t));
                                } else {
                                    if !lacking(es, t).contains(p) {
                                        assert(!allows(constraint, t));
                                        assert(lacking(es, t).contains(name@));
                                        lemma_back_closure(rel, direct_lacking(items, t));
                                        assert(lacking_models(items, t).contains(name@));
                                        assert(back_closed(rel, lacking_models(items, t)));
                                        assert(lacking_models(items, t).contains(p));
                                    }
                                }
                                lemma_carry_step(es, es2, rel, t, waiting, waiting2, name@, views(parents@.take(j as int)), p, constraint);
                            }
                            assert forall|i: int| #![trigger es2[i]] 0 <= i < es2.len() implies es2[i].derives != all_derives() by {
                                if es2[i].derives != merged {
                                    let jj = choose|jj: int| 0 <= jj < es.len() && es[jj] == es2[i];
                                    assert(es[jj].derives != all_derives());
                                }
                            }
                            assert(foreign_keys(es2).subset_of(uni));
                            assert(lookup(es2, name@) == constraint) by {
                                assert(lacking(es2, ForeignTrait::Debug).contains(name@) == lacking(es, ForeignTrait::Debug).contains(name@));
                                assert(lacking(es2, ForeignTrait::Clone).contains(name@) == lacking(es, ForeignTrait::Clone).contains(name@));
                                assert(lacking(es2, ForeignTrait::PartialEq).contains(name@) == lacking(es, ForeignTrait::PartialEq).contains(name@));
                            }
                            let t0 = if current.debug != merged.debug {
                                ForeignTrait::Debug
                            } else if current.clone != merged.clone {
                                ForeignTrait::Clone
                            } else {
                                ForeignTrait::PartialEq
                            };
                            assert(allows(current, t0) && !allows(merged, t0));
                            assert forall|t: ForeignTrait| #[trigger] lacking(es, t).subset_of(lacking(es2, t)) by {
                                assert(lacking(es2, t) == if allows(merged, t) {
                                    lacking(es, t).remove(p)
                                } else {
                                    lacking(es, t).insert(p)
                                });
                                if allows(merged, t) {
                                    assert(lacking(es2, t) =~= lacking(es, t));
                                }
                            }
                            lemma_outside_shrinks(uni, lacking(es, ForeignTrait::Debug), lacking(es2, ForeignTrait::Debug));
                            lemma_outside_shrinks(uni, lacking(es, ForeignTrait::Clone), lacking(es2, ForeignTrait::Clone));
                            lemma_outside_shrinks(uni, lacking(es, ForeignTrait::PartialEq), lacking(es2, ForeignTrait::PartialEq));
                            assert(lacking(es2, t0).contains(p) && !lacking(es, t0).contains(p));
                            assert(allowed_count(es2, uni) < allowed_count(es, uni));
                        }
                    } else {
                        proof {
                            assert forall|t: ForeignTrait| #[trigger] carried_for(resolved@, rel, t, views(stack@), true, name@, views(parents@.take(j + 1))) by {
                                assert(carried_for(resolved@, rel, t, views(stack@), true, name@, views(parents@.take(j as int))));
                                lemma_carry_step(resolved@, resolved@, rel, t, views(stack@), views(stack@), name@, views(parents@.take(j as int)), p, constraint);
                            }
                        }
                    }
                    j = j + 1;
                }
                proof {
                    assert(parents@.take(parents@.len() as int) =~= parents@);
                    assert forall|t: ForeignTrait| #[trigger] carried_for(resolved@, rel, t, views(stack@), false, Seq::empty(), Seq::empty()) by {
                        assert(carried_for(resolved@, rel, t, views(stack@), true, name@, views(parents@)));
                    }
                }
            },
        }
    }
    proof {
        assert forall|t: ForeignTrait| #[trigger] lacking(resolved@, t) == lacking_models(items, t) by {
            assert(sound_for(resolved@, items, t));
            assert(carried_for(resolved@, rel, t, views(stack@), false, Seq::empty(), Seq::empty()));
            assert(back_closed(rel, lacking(resolved@, t)));
            lemma_back_closure(rel, direct_lacking(items, t));
            assert(lacking_models(items, t).subset_of(lacking(resolved@, t)));
            assert(lacking(resolved@, t) =~= lacking_models(items, t));
        }
        assert forall|n: Seq<char>| foreign_keys(resolved@).contains(n) implies constrained_models(items).contains(n) by {
            let i = choose|i: int| 0 <= i < resolved@.len() && #[trigger] foreign_name_seq(resolved@)[i] == n;
            assert(resolved@[i].name@ == n);
            lemma_entry_lacking(resolved@, i, ForeignTrait::Debug);
            lemma_entry_lacking(resolved@, i, ForeignTrait::Clone);
            lemma_entry_lacking(resolved@, i, ForeignTrait::PartialEq);
            assert(resolved@[i].derives != all_derives());
        }
        assert forall|n: Seq<char>| constrained_models(items).contains(n) implies foreign_keys(resolved@).contains(n) by {
            let t = if lacking(resolved@, ForeignTrait::Debug).contains(n) {
                ForeignTrait::Debug
            } else if lacking(resolved@, ForeignTrait::Clone).contains(n) {
                ForeignTrait::Clone
            } else {
                ForeignTrait::PartialEq
            };
            assert(lacking(resolved@, t).contains(n));
            if !foreign_keys(resolved@).contains(n) {
                lemma_absent_lacking(resolved@, n, t);
            }
        }
        assert(foreign_keys(resolved@) =~= constrained_models(items));
    }
    resolved
}

} // verus!

verus! {

/// What one type expression allows once model names resolve through a table:
/// a foreign type its own claim, a model name its table entry (everything
/// without one), a wrapper its element, anything else everything.
pub open spec fn resolve_type(es: Seq<ForeignEntry>, t: RustType) -> ForeignDerives
    decreases t,
{
    match t {
        RustType::Verbatim { derives, .. } => derives,
        RustType::Named(name) => lookup(es, ident_text(name@, Case::Pascal)),
        RustType::Vec(inner) => resolve_type(es, *inner),
        RustType::HashMap(inner) => resolve_type(es, *inner),
        RustType::Option(inner) => resolve_type(es, *inner),
        RustType::Boxed(inner) => resolve_type(es, *inner),
        _ => all_derives(),
    }
}

/// What a list of type expressions allows together.
pub open spec fn resolve_all(es: Seq<ForeignEntry>, ts: Seq<RustType>) -> ForeignDerives
    decreases ts.len(),
{
    if ts.len() == 0 {
        all_derives()
    } else {
        meet(resolve_all(es, ts.drop_last()), resolve_type(es, ts.last()))
    }
}

/// A resolved answer to "which of `Debug`, `Clone`, `PartialEq` may this type
/// carry", for any type expression the emitters build.
///
/// A per-operation type is not a component model, so it has no table entry,
/// but it holds model types, and a derive on it is only as satisfiable as they
/// are. So the per-operation emitters resolve through this as well.
#[derive(Debug)]
pub struct ForeignResolver {
    /// Per model, what it may derive. An absent model is unconstrained.
    models: Vec<ForeignEntry>,
}

impl ForeignResolver {
    /// No two table entries share a name.
    #[verifier::type_invariant]
    spec fn well_formed(self) -> bool {
        unique_foreign(self.models@)
    }

    /// The table the resolver reads.
    pub closed spec fn table(self) -> Seq<ForeignEntry> {
        self.models@
    }

    /// What one type expression allows, resolving a model reference through the
    /// table and looking through the `Vec`, `HashMap`, `Option`, and `Box` wrappers.
    pub fn of_type(&self, ty: &RustType) -> (r: ForeignDerives)
        ensures
            r == resolve_type(self.table(), *ty),
        decreases ty,
    {
        proof {
            use_type_invariant(self);
        }
        match ty {
            RustType::Verbatim { derives, .. } => *derives,
            RustType::Named(name) => {
                let canonical = to_ident(name.as_str(), Case::Pascal);
                let key = crate::text::owned(canonical.logical());
                lookup_exec(&self.models, &key)
            },
            RustType::Vec(inner) => self.of_type(inner),
            RustType::HashMap(inner) => self.of_type(inner),
            RustType::Option(inner) => self.of_type(inner),
            RustType::Boxed(inner) => self.of_type(inner),
            _ => ForeignDerives::all(),
        }
    }

    /// What a group of type expressions allows together, which is what all of
    /// them allow.
    pub fn of_types(&self, types: &Vec<RustType>) -> (r: ForeignDerives)
        ensures
            r == resolve_all(self.table(), types@),
    {
        let mut allowed = ForeignDerives::all();
        let mut k: usize = 0;
        while k < types.len()
            invariant
                k <= types@.len(),
                allowed == resolve_all(self.table(), types@.take(k as int)),
            decreases types@.len() - k,
        {
            allowed = allowed.intersect(self.of_type(&types[k]));
            assert(types@.take(k + 1).drop_last() =~= types@.take(k as int));
            k = k + 1;
        }
        assert(types@.take(types@.len() as int) =~= types@);
        allowed
    }
}

/// The resolver for a module: every model's entry is what it may derive.
pub fn foreign_resolver(module: &Module) -> (r: ForeignResolver)
    ensures
        forall|n: Seq<char>| #[trigger] lookup(r.table(), n) == allowed_for(module.items@, n),
{
    let adj = adjacency(module);
    let models = foreign_derives(module, &adj);
    ForeignResolver { models }
}

} // verus!

verus! {

/// A model may derive a trait only when every model it references may: a
/// foreign type's missing trait travels from the referenced model up to each
/// model naming it, and never the other way.
pub proof fn constraint_flows_to_referrers(items: Seq<Item>, p: Seq<char>, c: Seq<char>, t: ForeignTrait)
    requires
        (model_rel(items))(p, c),
    ensures
        allows(allowed_for(items, p), t) ==> allows(allowed_for(items, c), t),
{
    lemma_back_closure(model_rel(items), direct_lacking(items, t));
}

/// A model whose own foreign types lack a trait may not derive it.
pub proof fn own_lack_is_kept(items: Seq<Item>, n: Seq<char>, t: ForeignTrait)
    requires
        direct_map(items).dom().contains(n),
        !allows(direct_map(items)[n], t),
    ensures
        !allows(allowed_for(items, n), t),
{
    lemma_back_closure(model_rel(items), direct_lacking(items, t));
    assert(direct_lacking(items, t).contains(n));
}

} // verus!
