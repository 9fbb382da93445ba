//! Gathering containers into stacks.

use vstd::prelude::*;

use crate::app::{Group, GroupView, ViewRow};
use crate::docker::model::{or_empty, ContainerRow, ContainerView};
use crate::names::NameSet;
use crate::order::{
    key_le, sort_by_keys, sorted_by, sorting_keeps_members, sorting_maps, sorting_orders, KeyView,
    SortKey,
};
use crate::text::{owned, put, same};

verus! {

broadcast use vstd::string::group_string_axioms;

/// The stack a container is gathered under; empty for the leftovers.
pub open spec fn stack_key(c: ContainerView) -> Seq<char> {
    or_empty(c.stack)
}

/// The stack of the container that an index stands for.
pub open spec fn key_of(containers: Seq<ContainerView>, i: usize) -> Seq<char> {
    stack_key(containers[i as int])
}

/// The stacks among the first `n` items, each where it first comes up.
pub open spec fn stacks_seen(containers: Seq<ContainerView>, items: Seq<usize>, n: int) -> Seq<
    Seq<char>,
>
    decreases n,
{
    if n <= 0 {
        Seq::empty()
    } else {
        let low = stacks_seen(containers, items, n - 1);
        let key = key_of(containers, items[n - 1]);
        if low.contains(key) {
            low
        } else {
            low.push(key)
        }
    }
}

/// Stacks go in name order, with the standalone bucket last.
pub open spec fn by_stack() -> spec_fn(Seq<char>) -> KeyView {
    |key: Seq<char>|
        KeyView {
            major: if key.len() == 0 {
                1
            } else {
                0
            },
            first: key,
            second: Seq::empty(),
        }
}

/// The stacks of the items, in the order they are listed.
pub open spec fn stacks(containers: Seq<ContainerView>, items: Seq<usize>) -> Seq<Seq<char>> {
    sorted_by(stacks_seen(containers, items, items.len() as int), by_stack())
}

/// The items of one stack, in the order they came.
pub open spec fn members(
    containers: Seq<ContainerView>,
    items: Seq<usize>,
    key: Seq<char>,
) -> Seq<usize>
    decreases items.len(),
{
    if items.len() == 0 {
        items
    } else {
        let low = members(containers, items.drop_last(), key);
        if key_of(containers, items.last()) == key {
            low.push(items.last())
        } else {
            low
        }
    }
}

/// How many of the items are running.
pub open spec fn running_among(containers: Seq<ContainerView>, items: Seq<usize>) -> nat
    decreases items.len(),
{
    if items.len() == 0 {
        0
    } else {
        running_among(containers, items.drop_last()) + (if containers[items.last() as int].state.running() {
            1nat
        } else {
            0
        })
    }
}

/// The header of one stack.
pub open spec fn header(
    containers: Seq<ContainerView>,
    items: Seq<usize>,
    collapsed: Set<Seq<char>>,
    key: Seq<char>,
) -> GroupView {
    let own = members(containers, items, key);
    GroupView {
        key,
        items: own.len(),
        running: running_among(containers, own),
        collapsed: collapsed.contains(key),
    }
}

/// The rows of some items.
pub open spec fn item_rows(items: Seq<usize>) -> Seq<ViewRow> {
    items.map_values(|i: usize| ViewRow::Item(i))
}

/// The rows of the first `n` stacks: each header, and under it what is not
/// folded away.
pub open spec fn rows_of(
    containers: Seq<ContainerView>,
    items: Seq<usize>,
    collapsed: Set<Seq<char>>,
    n: int,
) -> Seq<ViewRow>
    decreases n,
{
    if n <= 0 {
        Seq::empty()
    } else {
        let key = stacks(containers, items)[n - 1];
        rows_of(containers, items, collapsed, n - 1) + seq![ViewRow::Group((n - 1) as usize)] + (
        if collapsed.contains(key) {
            Seq::empty()
        } else {
            item_rows(members(containers, items, key))
        })
    }
}

/// The rows of the grouped list.
pub open spec fn grouped_rows(
    containers: Seq<ContainerView>,
    items: Seq<usize>,
    collapsed: Set<Seq<char>>,
) -> Seq<ViewRow> {
    rows_of(containers, items, collapsed, stacks(containers, items).len() as int)
}

/// The headers of the grouped list.
pub open spec fn headers(
    containers: Seq<ContainerView>,
    items: Seq<usize>,
    collapsed: Set<Seq<char>>,
) -> Seq<GroupView> {
    stacks(containers, items).map_values(
        |key: Seq<char>| header(containers, items, collapsed, key),
    )
}

/// Whether every item is the index of a container.
pub open spec fn in_range(containers: Seq<ContainerView>, items: Seq<usize>) -> bool {
    forall|k: int| 0 <= k < items.len() ==> #[trigger] items[k] < containers.len()
}

fn stack_text(c: &ContainerRow) -> (out: String)
    ensures
        out@ == stack_key(c.deep_view()),
{
    match &c.stack {
        Some(s) => owned(s),
        None => {
            let out = String::new();
            assert(out@ =~= Seq::<char>::empty());
            out
        },
    }
}

fn mentions(keys: &Vec<String>, key: &str) -> (out: bool)
    ensures
        out == keys.deep_view().contains(key@),
{
    let mut i: usize = 0;
    while i < keys.len()
        invariant
            i <= keys.len(),
            forall|k: int| 0 <= k < i ==> #[trigger] keys.deep_view()[k] != key@,
        decreases keys.len() - i,
    {
        assert(keys.deep_view()[i as int] == keys@[i as int]@);
        if same(&keys[i], key) {
            return true;
        }
        i += 1;
    }
    false
}

fn collect_stacks(containers: &Vec<ContainerRow>, items: &Vec<usize>) -> (out: Vec<String>)
    requires
        in_range(containers.deep_view(), items@),
    ensures
        out.deep_view() == stacks(containers.deep_view(), items@),
{
    let ghost all = containers.deep_view();
    let ghost view = |s: String| s@;
    let ghost key = |s: String| by_stack()(s@);
    let mut seen: Vec<String> = Vec::new();
    let mut order: Vec<SortKey> = Vec::new();
    let mut n: usize = 0;
    assert(seen.deep_view() =~= stacks_seen(all, items@, 0));
    while n < items.len()
        invariant
            n <= items.len(),
            all == containers.deep_view(),
            in_range(all, items@),
            key == (|s: String| by_stack()(s@)),
            seen.deep_view() == stacks_seen(all, items@, n as int),
            order.len() == seen.len(),
            forall|k: int| 0 <= k < seen.len() ==> #[trigger] order@[k]@ == key(seen@[k]),
        decreases items.len() - n,
    {
        assert(items@[n as int] < all.len());
        let text = stack_text(&containers[items[n]]);
        assert(text@ == key_of(all, items@[n as int]));
        if !mentions(&seen, &text) {
            let major: i128 = if text.as_str().is_empty() {
                1
            } else {
                0
            };
            order.push(SortKey { major, first: owned(&text), second: String::new() });
            put(&mut seen, text);
        }
        n += 1;
    }
    proof {
        sorting_maps(seen@, view, key, by_stack());
        assert(seen.deep_view() =~= seen@.map_values(view));
    }
    let out = sort_by_keys(seen, order, Ghost(key));
    assert(out.deep_view() =~= out@.map_values(view));
    out
}

fn collect_members(containers: &Vec<ContainerRow>, items: &Vec<usize>, key: &str) -> (out: (
    Vec<usize>,
    usize,
))
    requires
        in_range(containers.deep_view(), items@),
    ensures
        out.0@ == members(containers.deep_view(), items@, key@),
        out.1 == running_among(containers.deep_view(), out.0@),
{
    let ghost all = containers.deep_view();
    let mut own: Vec<usize> = Vec::new();
    let mut running: usize = 0;
    let mut n: usize = 0;
    assert(own@ =~= members(all, items@.take(0), key@));
    while n < items.len()
        invariant
            n <= items.len(),
            all == containers.deep_view(),
            in_range(all, items@),
            own@ == members(all, items@.take(n as int), key@),
            running == running_among(all, own@),
            running <= own.len() <= n,
        decreases items.len() - n,
    {
        assert(items@.take(n + 1).drop_last() =~= items@.take(n as int));
        assert(items@[n as int] < all.len());
        let i: usize = items[n];
        assert(all[i as int] == containers@[i as int].deep_view());
        if same(&stack_text(&containers[i]), key) {
            let ghost before = own@;
            own.push(i);
            assert(own@.drop_last() =~= before);
            if containers[i].state.is_running() {
                running += 1;
            }
        }
        n += 1;
    }
    assert(items@.take(items@.len() as int) =~= items@);
    (own, running)
}

/// Fold a flat run of container indices into stacks.
///
/// The order *within* each stack is whatever the caller established, so the
/// active sort and the fuzzy ranking both survive grouping — filtering by
/// `postgres` with grouping on shows one `postgres` under `argilla` and another
/// under `lakefs`, which is the whole point of grouping by the label rather than
/// by the name.
///
/// The stacks themselves go in name order, with the standalone bucket last. Not
/// in the active sort's order: a stack has no single cpu figure, and headers that
/// reshuffled as usage drifted would make the list impossible to keep your place
/// in.
pub fn group_rows(containers: &Vec<ContainerRow>, items: Vec<usize>, collapsed: &NameSet) -> (out: (
    Vec<ViewRow>,
    Vec<Group>,
))
    requires
        in_range(containers.deep_view(), items@),
    ensures
        out.0@ == grouped_rows(containers.deep_view(), items@, collapsed@),
        out.1.deep_view() == headers(containers.deep_view(), items@, collapsed@),
{
    let ghost all = containers.deep_view();
    let ghost make = |key: Seq<char>| header(all, items@, collapsed@, key);
    let keys = collect_stacks(containers, &items);
    let ghost names = keys.deep_view();
    let mut groups: Vec<Group> = Vec::new();
    let mut rows: Vec<ViewRow> = Vec::new();
    let mut n: usize = 0;
    assert(groups.deep_view() =~= names.take(0).map_values(make));
    while n < keys.len()
        invariant
            n <= keys.len(),
            all == containers.deep_view(),
            in_range(all, items@),
            names == keys.deep_view(),
            names == stacks(all, items@),
            make == (|key: Seq<char>| header(all, items@, collapsed@, key)),
            groups.deep_view() == names.take(n as int).map_values(make),
            groups.len() == n,
            rows@ == rows_of(all, items@, collapsed@, n as int),
        decreases keys.len() - n,
    {
        assert(names[n as int] == keys@[n as int]@);
        let (own, running) = collect_members(containers, &items, &keys[n]);
        let folded = collapsed.contains(&keys[n]);
        let ghost before = rows@;
        rows.push(ViewRow::Group(n));
        put(
            &mut groups,
            Group { key: owned(&keys[n]), items: own.len(), running, collapsed: folded },
        );
        assert(names.take(n + 1).map_values(make) =~= names.take(n as int).map_values(make).push(
            make(names[n as int]),
        ));
        // A folded stack keeps its counts — the header still has to say how much
        // it's hiding.
        let ghost top = before + seq![ViewRow::Group(n)];
        if !folded {
            let mut k: usize = 0;
            assert(rows@ =~= top + item_rows(own@.take(0)));
            while k < own.len()
                invariant
                    k <= own.len(),
                    rows@ == top + item_rows(own@.take(k as int)),
                decreases own.len() - k,
            {
                rows.push(ViewRow::Item(own[k]));
                assert(item_rows(own@.take(k + 1)) =~= item_rows(own@.take(k as int)).push(
                    ViewRow::Item(own@[k as int]),
                ));
                k += 1;
            }
            assert(own@.take(own@.len() as int) =~= own@);
        }
        n += 1;
        assert(rows@ =~= rows_of(all, items@, collapsed@, n as int));
    }
    assert(names.take(names.len() as int) =~= names);
    (rows, groups)
}

// ---------------------------------------------------------------------------
// What grouping promises
// ---------------------------------------------------------------------------

proof fn seen_once(containers: Seq<ContainerView>, items: Seq<usize>, n: int)
    ensures
        stacks_seen(containers, items, n).no_duplicates(),
    decreases n,
{
    if n > 0 {
        seen_once(containers, items, n - 1);
    }
}

proof fn seen_keys(containers: Seq<ContainerView>, items: Seq<usize>, n: int, key: Seq<char>)
    requires
        0 <= n <= items.len(),
    ensures
        stacks_seen(containers, items, n).contains(key) <==> exists|k: int|
            0 <= k < n && key_of(containers, #[trigger] items[k]) == key,
    decreases n,
{
    if n > 0 {
        seen_keys(containers, items, n - 1, key);
        let low = stacks_seen(containers, items, n - 1);
        let all = stacks_seen(containers, items, n);
        if low.contains(key) {
            let i = choose|i: int| 0 <= i < low.len() && low[i] == key;
            assert(all[i] == key);
        }
        if key_of(containers, items[n - 1]) == key && !low.contains(key) {
            assert(all[all.len() - 1] == key);
        }
        if all.contains(key) && !low.contains(key) {
            let i = choose|i: int| 0 <= i < all.len() && all[i] == key;
            if i < low.len() {
                assert(low[i] == key);
            }
            assert(key_of(containers, items[n - 1]) == key);
        }
    }
}

/// A stack is listed exactly when one of the items belongs to it.
pub proof fn stacks_are_those_of_the_items(
    containers: Seq<ContainerView>,
    items: Seq<usize>,
    key: Seq<char>,
)
    ensures
        stacks(containers, items).contains(key) <==> exists|k: int|
            0 <= k < items.len() && key_of(containers, #[trigger] items[k]) == key,
{
    let seen = stacks_seen(containers, items, items.len() as int);
    sorting_keeps_members(seen, by_stack(), key);
    seen_keys(containers, items, items.len() as int, key);
}

/// No stack is listed twice, the stacks go in name order, and the standalone
/// bucket, when there is one, comes last.
pub proof fn stacks_are_in_name_order(
    containers: Seq<ContainerView>,
    items: Seq<usize>,
    i: int,
    j: int,
)
    requires
        0 <= i < j < stacks(containers, items).len(),
    ensures
        stacks(containers, items)[i] != stacks(containers, items)[j],
        key_le(by_stack()(stacks(containers, items)[i]), by_stack()(stacks(containers, items)[j])),
        stacks(containers, items)[i].len() > 0,
{
    let seen = stacks_seen(containers, items, items.len() as int);
    let all = stacks(containers, items);
    seen_once(containers, items, items.len() as int);
    sorting_orders(seen, by_stack());
    seen.lemma_multiset_has_no_duplicates();
    all.lemma_multiset_has_no_duplicates_conv();
    assert(key_le(by_stack()(all[i]), by_stack()(all[j])));
    if all[i].len() == 0 {
        assert(by_stack()(all[i]).major == 1);
        assert(all[j].len() == 0);
        assert(all[i] =~= all[j]);
    }
}

/// The members of a stack are the items that belong to it.
pub proof fn members_belong(
    containers: Seq<ContainerView>,
    items: Seq<usize>,
    key: Seq<char>,
    i: usize,
)
    ensures
        members(containers, items, key).contains(i) <==> items.contains(i) && key_of(containers, i)
            == key,
    decreases items.len(),
{
    if items.len() > 0 {
        let low = members(containers, items.drop_last(), key);
        let all = members(containers, items, key);
        members_belong(containers, items.drop_last(), key, i);
        if items.drop_last().contains(i) {
            let k = choose|k: int| 0 <= k < items.drop_last().len() && items.drop_last()[k] == i;
            assert(items[k] == i);
        }
        if items.contains(i) && !items.drop_last().contains(i) {
            let k = choose|k: int| 0 <= k < items.len() && items[k] == i;
            if k < items.len() - 1 {
                assert(items.drop_last()[k] == i);
            }
            assert(items.last() == i);
        }
        if low.contains(i) {
            let k = choose|k: int| 0 <= k < low.len() && low[k] == i;
            assert(all[k] == i);
        }
        if items.last() == i {
            assert(items[items.len() - 1] == i);
            if key_of(containers, i) == key {
                assert(all[all.len() - 1] == i);
            }
        }
        if all.contains(i) && !low.contains(i) {
            let k = choose|k: int| 0 <= k < all.len() && all[k] == i;
            if k < low.len() {
                assert(low[k] == i);
            }
        }
    }
}

/// The order within a stack is the order the items came in: listing one run of
/// items after another lists their members one after the other.
pub proof fn order_within_a_stack_is_kept(
    containers: Seq<ContainerView>,
    a: Seq<usize>,
    b: Seq<usize>,
    key: Seq<char>,
)
    ensures
        members(containers, a + b, key) == members(containers, a, key) + members(
            containers,
            b,
            key,
        ),
    decreases b.len(),
{
    if b.len() == 0 {
        assert(a + b =~= a);
        assert(members(containers, a, key) + b =~= members(containers, a, key));
    } else {
        order_within_a_stack_is_kept(containers, a, b.drop_last(), key);
        assert((a + b).drop_last() =~= a + b.drop_last());
        assert((a + b).last() == b.last());
        assert(members(containers, a + b, key) =~= members(containers, a, key) + members(
            containers,
            b,
            key,
        ));
    }
}

proof fn rows_hold(
    containers: Seq<ContainerView>,
    items: Seq<usize>,
    collapsed: Set<Seq<char>>,
    n: int,
    i: usize,
)
    requires
        0 <= n <= stacks(containers, items).len(),
    ensures
        rows_of(containers, items, collapsed, n).contains(ViewRow::Item(i)) <==> exists|g: int|
            0 <= g < n && #[trigger] stacks(containers, items)[g] == key_of(containers, i)
                && items.contains(i) && !collapsed.contains(key_of(containers, i)),
    decreases n,
{
    if n > 0 {
        rows_hold(containers, items, collapsed, n - 1, i);
        let low = rows_of(containers, items, collapsed, n - 1);
        let all = rows_of(containers, items, collapsed, n);
        let key = stacks(containers, items)[n - 1];
        let own = members(containers, items, key);
        members_belong(containers, items, key, i);
        let row = ViewRow::Item(i);
        if low.contains(row) {
            let k = choose|k: int| 0 <= k < low.len() && low[k] == row;
            assert(all[k] == row);
        }
        if !collapsed.contains(key) && own.contains(i) {
            let k = choose|k: int| 0 <= k < own.len() && own[k] == i;
            assert(all[low.len() + 1 + k] == row);
        }
        if all.contains(row) && !low.contains(row) {
            let k = choose|k: int| 0 <= k < all.len() && all[k] == row;
            if k < low.len() {
                assert(low[k] == row);
            } else {
                assert(k > low.len());
                assert(item_rows(own)[k - low.len() - 1] == row);
                assert(own[k - low.len() - 1] == i);
            }
            assert(stacks(containers, items)[n - 1] == key_of(containers, i));
        }
    }
}

/// A container is listed exactly when it is one of the items and its stack is
/// not folded.
pub proof fn rows_are_the_unfolded_items(
    containers: Seq<ContainerView>,
    items: Seq<usize>,
    collapsed: Set<Seq<char>>,
    i: usize,
)
    ensures
        grouped_rows(containers, items, collapsed).contains(ViewRow::Item(i)) <==> items.contains(i)
            && !collapsed.contains(key_of(containers, i)),
{
    let all = stacks(containers, items);
    rows_hold(containers, items, collapsed, all.len() as int, i);
    if items.contains(i) {
        let k = choose|k: int| 0 <= k < items.len() && items[k] == i;
        assert(key_of(containers, items[k]) == key_of(containers, i));
        stacks_are_those_of_the_items(containers, items, key_of(containers, i));
        let g = choose|g: int| 0 <= g < all.len() && all[g] == key_of(containers, i);
        assert(all[g] == key_of(containers, i));
    }
}

/// Every row is a header that exists or a container that was asked for.
pub proof fn rows_point_at_something(
    containers: Seq<ContainerView>,
    items: Seq<usize>,
    collapsed: Set<Seq<char>>,
    n: int,
    k: int,
)
    requires
        0 <= n <= stacks(containers, items).len() <= usize::MAX,
        0 <= k < rows_of(containers, items, collapsed, n).len(),
    ensures
        match rows_of(containers, items, collapsed, n)[k] {
            ViewRow::Group(g) => g < n,
            ViewRow::Item(i) => items.contains(i),
        },
    decreases n,
{
    let low = rows_of(containers, items, collapsed, n - 1);
    let key = stacks(containers, items)[n - 1];
    let own = members(containers, items, key);
    if k < low.len() {
        rows_point_at_something(containers, items, collapsed, n - 1, k);
    } else if k > low.len() {
        let i = own[k - low.len() - 1];
        assert(own.contains(i));
        members_belong(containers, items, key, i);
    }
}

/// A header counts at least one container, and never more running than it has.
pub proof fn headers_count_their_stack(
    containers: Seq<ContainerView>,
    items: Seq<usize>,
    collapsed: Set<Seq<char>>,
    g: int,
)
    requires
        0 <= g < headers(containers, items, collapsed).len(),
    ensures
        headers(containers, items, collapsed)[g].items > 0,
        headers(containers, items, collapsed)[g].running <= headers(
            containers,
            items,
            collapsed,
        )[g].items,
{
    let key = stacks(containers, items)[g];
    assert(stacks(containers, items).contains(key));
    stacks_are_those_of_the_items(containers, items, key);
    let k = choose|k: int| 0 <= k < items.len() && key_of(containers, #[trigger] items[k]) == key;
    assert(items.contains(items[k]));
    members_belong(containers, items, key, items[k]);
    running_is_bounded(containers, members(containers, items, key));
}

proof fn running_is_bounded(containers: Seq<ContainerView>, items: Seq<usize>)
    ensures
        running_among(containers, items) <= items.len(),
    decreases items.len(),
{
    if items.len() > 0 {
        running_is_bounded(containers, items.drop_last());
    }
}

/// Stacks with a name come in the order of their names, and containers without a stack
/// come last, together.
pub proof fn stacks_come_by_name(
    containers: Seq<ContainerView>,
    items: Seq<usize>,
    i: int,
    j: int,
)
    requires
        0 <= i < j < stacks(containers, items).len(),
    ensures
        stacks(containers, items)[j].len() > 0 ==> crate::text::text_le(
            stacks(containers, items)[i],
            stacks(containers, items)[j],
        ),
        stacks(containers, items)[i].len() > 0,
{
    stacks_are_in_name_order(containers, items, i, j);
    crate::text::text_le_total(stacks(containers, items)[i], stacks(containers, items)[i]);
}

} // verus!
