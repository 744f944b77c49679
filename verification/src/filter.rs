//! Which operations the configured filters drop.
//!
//! An operation is dropped when it fails any active include/exclude tag or
//! operation-id filter, the sequential exclude-then-include order of
//! `oapi-codegen`'s `output-options`. Dropping happens before pruning, so a
//! removed operation lets the prune pass drop the schemas only it referenced.

use vstd::prelude::*;

use crate::config::OutputOptions;
use crate::graph::views;

verus! {

/// What the filters read of an operation: its tags and its `operationId`.
#[derive(Debug, Clone)]
pub struct OperationInfo {
    /// The operation's tags, in document order.
    pub tags: Vec<String>,
    /// The operation's `operationId`, when it declares one.
    pub operation_id: Option<String>,
}

/// Whether any operation-level (tag or operation-id) filter is configured.
pub fn has_operation_filters(opts: &OutputOptions) -> (r: bool)
    ensures
        r == (opts.include_tags@.len() > 0 || opts.exclude_tags@.len() > 0 || opts.include_operation_ids@.len() > 0
            || opts.exclude_operation_ids@.len() > 0),
{
    opts.include_tags.len() > 0 || opts.exclude_tags.len() > 0 || opts.include_operation_ids.len() > 0
        || opts.exclude_operation_ids.len() > 0
}

/// Whether `values` contains `needle`.
pub fn contains_str(values: &Vec<String>, needle: &str) -> (r: bool)
    ensures
        r == views(values@).contains(needle@),
{
    let mut k: usize = 0;
    while k < values.len()
        invariant
            k <= values@.len(),
            forall|j: int| 0 <= j < k ==> values@[j]@ != needle@,
        decreases values@.len() - k,
    {
        if crate::text::same_text(values[k].as_str(), needle) {
            assert(views(values@)[k as int] == needle@);
            return true;
        }
        k = k + 1;
    }
    proof {
        if views(values@).contains(needle@) {
            let j = choose|j: int| 0 <= j < views(values@).len() && views(values@)[j] == needle@;
            assert(values@[j]@ == needle@);
        }
    }
    false
}

/// Whether some tag of `tags` is in `list`.
pub open spec fn shares_tag(tags: Seq<Seq<char>>, list: Seq<Seq<char>>) -> bool {
    exists|i: int| 0 <= i < tags.len() && list.contains(tags[i])
}

/// Whether the operation id is present and in `list`.
pub open spec fn id_in(id: Option<String>, list: Seq<Seq<char>>) -> bool {
    match id {
        Some(s) => list.contains(s@),
        None => false,
    }
}

/// Whether the filters drop an operation: it carries an excluded tag, lacks
/// every included tag (when tags are included), has an excluded id, or lacks an
/// included id (when ids are included).
pub open spec fn filtered_out(op: OperationInfo, opts: OutputOptions) -> bool {
    let tags = views(op.tags@);
    ||| opts.exclude_tags@.len() > 0 && shares_tag(tags, views(opts.exclude_tags@))
    ||| opts.include_tags@.len() > 0 && !shares_tag(tags, views(opts.include_tags@))
    ||| opts.exclude_operation_ids@.len() > 0 && id_in(op.operation_id, views(opts.exclude_operation_ids@))
    ||| opts.include_operation_ids@.len() > 0 && !id_in(op.operation_id, views(opts.include_operation_ids@))
}

/// Whether some tag of `tags` is in `list`.
fn any_tag_in(tags: &Vec<String>, list: &Vec<String>) -> (r: bool)
    ensures
        r == shares_tag(views(tags@), views(list@)),
{
    let mut k: usize = 0;
    while k < tags.len()
        invariant
            k <= tags@.len(),
            forall|j: int| 0 <= j < k ==> !views(list@).contains(views(tags@)[j]),
        decreases tags@.len() - k,
    {
        if contains_str(list, tags[k].as_str()) {
            assert(views(tags@)[k as int] == tags@[k as int]@);
            return true;
        }
        k = k + 1;
    }
    false
}

/// Whether `operation` should be dropped given the configured filters.
///
/// An operation is kept only when it carries none of the excluded tags,
/// carries one of the included tags (when `include-tags` is set), is not an
/// excluded operation-id, and is an included operation-id (when
/// `include-operation-ids` is set).
pub fn is_filtered_out(operation: &OperationInfo, opts: &OutputOptions) -> (r: bool)
    ensures
        r == filtered_out(*operation, *opts),
{
    if opts.exclude_tags.len() > 0 && any_tag_in(&operation.tags, &opts.exclude_tags) {
        return true;
    }
    if opts.include_tags.len() > 0 && !any_tag_in(&operation.tags, &opts.include_tags) {
        return true;
    }
    let excluded = match &operation.operation_id {
        Some(id) => contains_str(&opts.exclude_operation_ids, id.as_str()),
        None => false,
    };
    if opts.exclude_operation_ids.len() > 0 && excluded {
        return true;
    }
    let included = match &operation.operation_id {
        Some(id) => contains_str(&opts.include_operation_ids, id.as_str()),
        None => false,
    };
    if opts.include_operation_ids.len() > 0 && !included {
        return true;
    }
    false
}

/// Whether the configured filters would drop an operation at all: with no
/// tag or operation-id filter, nothing is dropped.
pub fn operation_dropped(operation: &OperationInfo, opts: &OutputOptions) -> (r: bool)
    ensures
        r == filtered_out(*operation, *opts),
{
    if !has_operation_filters(opts) {
        return false;
    }
    is_filtered_out(operation, opts)
}

/// What the operation filters leave of one operation slot: an operation the
/// active filters drop leaves the slot empty; anything else stays.
pub open spec fn kept_slot(slot: Option<OperationInfo>, opts: OutputOptions) -> Option<OperationInfo> {
    match slot {
        Some(op) => if filtered_out(op, opts) {
            None
        } else {
            Some(op)
        },
        None => None,
    }
}

/// Empty every operation slot whose operation fails an active tag or
/// operation-id filter.
///
/// The slots are those of every path item, method by method; an empty slot
/// declares no operation. With no tag or operation-id filter configured every
/// slot stays as it is.
pub fn filter_operations(slots: &mut Vec<Option<OperationInfo>>, opts: &OutputOptions)
    ensures
        final(slots)@.len() == old(slots)@.len(),
        forall|i: int|
            0 <= i < old(slots)@.len() ==> #[trigger] final(slots)@[i] == kept_slot(old(slots)@[i], *opts),
{
    if !has_operation_filters(opts) {
        assert forall|i: int| 0 <= i < old(slots)@.len() implies #[trigger] slots@[i] == kept_slot(
            old(slots)@[i],
            *opts,
        ) by {
            match old(slots)@[i] {
                Some(op) => assert(!filtered_out(op, *opts)),
                None => {},
            }
        }
        return;
    }
    let mut k: usize = 0;
    while k < slots.len()
        invariant
            k <= slots@.len(),
            slots@.len() == old(slots)@.len(),
            forall|i: int| 0 <= i < k ==> #[trigger] slots@[i] == kept_slot(old(slots)@[i], *opts),
            forall|i: int| k <= i < slots@.len() ==> #[trigger] slots@[i] == old(slots)@[i],
        decreases slots@.len() - k,
    {
        let drop = match &slots[k] {
            Some(op) => is_filtered_out(op, opts),
            None => false,
        };
        if drop {
            slots.set(k, None);
        }
        k = k + 1;
    }
}

/// The names of `names` that `exclude` does not list, in order.
pub open spec fn kept_names(names: Seq<Seq<char>>, exclude: Seq<Seq<char>>) -> Seq<Seq<char>>
    decreases names.len(),
{
    if names.len() == 0 {
        Seq::empty()
    } else {
        kept_names(names.drop_last(), exclude) + if exclude.contains(names.last()) {
            Seq::empty()
        } else {
            seq![names.last()]
        }
    }
}

/// Drop the component schema names that `exclude` lists, keeping the order of
/// the rest.
pub fn exclude_schemas(names: &mut Vec<String>, exclude: &Vec<String>)
    ensures
        views(final(names)@) == kept_names(views(old(names)@), views(exclude@)),
{
    if exclude.len() == 0 {
        proof {
            lemma_nothing_excluded(views(names@), views(exclude@));
        }
        return;
    }
    let mut kept: Vec<String> = Vec::new();
    let mut k: usize = 0;
    while k < names.len()
        invariant
            k <= names@.len(),
            views(kept@) == kept_names(views(names@).take(k as int), views(exclude@)),
        decreases names@.len() - k,
    {
        let ghost before = views(kept@);
        if !contains_str(exclude, names[k].as_str()) {
            proof {
                crate::graph::lemma_views_push(kept@, names@[k as int]);
            }
            kept.push(names[k].clone());
        }
        proof {
            let taken = views(names@).take(k + 1);
            assert(taken.drop_last() =~= views(names@).take(k as int));
            assert(taken.last() == names@[k as int]@);
            assert(views(kept@) =~= kept_names(taken, views(exclude@)));
        }
        k = k + 1;
    }
    assert(views(names@).take(names@.len() as int) =~= views(names@));
    *names = kept;
}

/// With nothing excluded every name is kept.
proof fn lemma_nothing_excluded(names: Seq<Seq<char>>, exclude: Seq<Seq<char>>)
    requires
        exclude.len() == 0,
    ensures
        kept_names(names, exclude) == names,
    decreases names.len(),
{
    if names.len() > 0 {
        lemma_nothing_excluded(names.drop_last(), exclude);
        assert(!exclude.contains(names.last()));
        assert(names.drop_last().push(names.last()) =~= names);
    }
}

} // verus!
