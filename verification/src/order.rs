//! Stable sorting by a key.
//!
//! Every list the UI shows is ordered by at most one number and two pieces of
//! text, compared in that order. Rows whose keys agree keep the order they
//! came in.

use vstd::prelude::*;

use crate::text::{owned, same, str_le, text_le, text_le_total, text_le_transitive};

verus! {

/// What a row is sorted by.
pub struct SortKey {
    pub major: i128,
    pub first: String,
    pub second: String,
}

/// The mathematical value of a [`SortKey`].
pub struct KeyView {
    pub major: int,
    pub first: Seq<char>,
    pub second: Seq<char>,
}

impl View for SortKey {
    type V = KeyView;

    open spec fn view(&self) -> KeyView {
        KeyView { major: self.major as int, first: self.first@, second: self.second@ }
    }
}

/// Number first, then the two texts in dictionary order.
pub open spec fn key_le(a: KeyView, b: KeyView) -> bool {
    if a.major != b.major {
        a.major < b.major
    } else if a.first != b.first {
        text_le(a.first, b.first)
    } else {
        text_le(a.second, b.second)
    }
}

/// A key that is only a number.
pub open spec fn number_key(n: int) -> KeyView {
    KeyView { major: n, first: Seq::empty(), second: Seq::empty() }
}

/// A key that is only a piece of text.
pub open spec fn text_key(s: Seq<char>) -> KeyView {
    KeyView { major: 0, first: s, second: Seq::empty() }
}

impl SortKey {
    /// A key that is only a number.
    pub fn number(n: i128) -> (out: SortKey)
        ensures
            out@ == number_key(n as int),
    {
        SortKey { major: n, first: String::new(), second: String::new() }
    }

    /// A key that is only a piece of text.
    pub fn text(s: String) -> (out: SortKey)
        ensures
            out@ == text_key(s@),
    {
        SortKey { major: 0, first: s, second: String::new() }
    }

    /// Whether this key sorts no later than `other`.
    pub fn le(&self, other: &SortKey) -> (out: bool)
        ensures
            out == key_le(self@, other@),
    {
        if self.major != other.major {
            self.major < other.major
        } else if !same(&self.first, &other.first) {
            str_le(&self.first, &other.first)
        } else {
            str_le(&self.second, &other.second)
        }
    }
}

/// Put `x` in front of the first element of `s` that it sorts no later than.
pub open spec fn insert<T>(x: T, s: Seq<T>, key: spec_fn(T) -> KeyView) -> Seq<T>
    decreases s.len(),
{
    if s.len() == 0 {
        seq![x]
    } else if key_le(key(x), key(s[0])) {
        seq![x] + s
    } else {
        seq![s[0]] + insert(x, s.drop_first(), key)
    }
}

/// `s` sorted by `key`, ties in their original order.
pub open spec fn sorted_by<T>(s: Seq<T>, key: spec_fn(T) -> KeyView) -> Seq<T>
    decreases s.len(),
{
    if s.len() == 0 {
        s
    } else {
        insert(s[0], sorted_by(s.drop_first(), key), key)
    }
}

proof fn insert_at<T>(x: T, s: Seq<T>, key: spec_fn(T) -> KeyView, p: int)
    requires
        0 <= p <= s.len(),
        forall|i: int| 0 <= i < p ==> !key_le(key(x), key(#[trigger] s[i])),
        p < s.len() ==> key_le(key(x), key(s[p])),
    ensures
        insert(x, s, key) == s.insert(p, x),
    decreases s.len(),
{
    if s.len() == 0 {
        assert(s.insert(p, x) =~= seq![x]);
    } else if p == 0 {
        assert(s.insert(0, x) =~= seq![x] + s);
    } else {
        let rest = s.drop_first();
        assert forall|i: int| 0 <= i < p - 1 implies !key_le(key(x), key(#[trigger] rest[i])) by {
            assert(rest[i] == s[i + 1]);
        }
        insert_at(x, rest, key, p - 1);
        assert(!key_le(key(x), key(s[0])));
        assert(seq![s[0]] + rest.insert(p - 1, x) =~= s.insert(p, x));
    }
}

/// Sort `items` by `keys`, where `keys[i]` belongs to `items[i]`.
pub fn sort_by_keys<T>(
    items: Vec<T>,
    keys: Vec<SortKey>,
    Ghost(key): Ghost<spec_fn(T) -> KeyView>,
) -> (out: Vec<T>)
    requires
        items.len() == keys.len(),
        forall|i: int| 0 <= i < items.len() ==> #[trigger] keys@[i]@ == key(items@[i]),
    ensures
        out@ == sorted_by(items@, key),
{
    let mut items = items;
    let mut keys = keys;
    let ghost all = items@;
    let mut out: Vec<T> = Vec::new();
    let mut out_keys: Vec<SortKey> = Vec::new();
    assert(all.skip(all.len() as int) =~= Seq::<T>::empty());
    assert(all.take(all.len() as int) =~= all);
    while items.len() > 0
        invariant
            items.len() == keys.len(),
            items.len() <= all.len(),
            items@ == all.take(items.len() as int),
            forall|i: int| 0 <= i < items.len() ==> #[trigger] keys@[i]@ == key(all[i]),
            out@ == sorted_by(all.skip(items.len() as int), key),
            out.len() == out_keys.len(),
            forall|i: int| 0 <= i < out.len() ==> #[trigger] out_keys@[i]@ == key(out@[i]),
        decreases items.len(),
    {
        let ghost n = items.len();
        let ghost before = out@;
        let k = keys.pop().unwrap();
        let x = items.pop().unwrap();
        assert(items@ =~= all.take(n - 1));
        assert(x == all[n - 1]);
        let mut p: usize = 0;
        while p < out.len() && !k.le(&out_keys[p])
            invariant
                p <= out.len(),
                out.len() == out_keys.len(),
                out@ == before,
                forall|i: int| 0 <= i < out.len() ==> #[trigger] out_keys@[i]@ == key(out@[i]),
                forall|i: int| 0 <= i < p ==> !key_le(k@, key(#[trigger] out@[i])),
            decreases out.len() - p,
        {
            assert(out_keys@[p as int]@ == key(out@[p as int]));
            p += 1;
        }
        proof {
            if p < out.len() {
                assert(out_keys@[p as int]@ == key(out@[p as int]));
            }
            insert_at(x, before, key, p as int);
            assert(all.skip(n - 1).drop_first() =~= all.skip(n as int));
            assert(all.skip(n - 1)[0] == x);
        }
        let ghost old_keys = out_keys@;
        out.insert(p, x);
        out_keys.insert(p, k);
        assert forall|i: int| 0 <= i < out.len() implies #[trigger] out_keys@[i]@ == key(out@[i]) by {
            if i < p {
                assert(old_keys[i]@ == key(before[i]));
            } else if i > p {
                assert(old_keys[i - 1]@ == key(before[i - 1]));
            }
        }
    }
    assert(all.skip(0) =~= all);
    out
}

/// Dictionary order.
pub open spec fn by_text() -> spec_fn(Seq<char>) -> KeyView {
    |s: Seq<char>| text_key(s)
}

/// Sort strings in dictionary order.
pub fn sort_texts(items: Vec<String>) -> (out: Vec<String>)
    ensures
        out.deep_view() == sorted_by(items.deep_view(), by_text()),
{
    let ghost key = |s: String| text_key(s@);
    let ghost view = |s: String| s@;
    let mut keys: Vec<SortKey> = Vec::new();
    let mut i: usize = 0;
    while i < items.len()
        invariant
            i <= items.len(),
            keys.len() == i,
            key == (|s: String| text_key(s@)),
            forall|k: int| 0 <= k < i ==> #[trigger] keys@[k]@ == key(items@[k]),
        decreases items.len() - i,
    {
        keys.push(SortKey::text(owned(&items[i])));
        i += 1;
    }
    proof {
        sorting_maps(items@, view, key, by_text());
        assert(items.deep_view() =~= items@.map_values(view));
    }
    let out = sort_by_keys(items, keys, Ghost(key));
    assert(out.deep_view() =~= out@.map_values(view));
    out
}

// ---------------------------------------------------------------------------
// What sorting keeps
// ---------------------------------------------------------------------------

/// The order of keys is total, and two keys that sort no later than each other
/// are equal.
pub proof fn key_order_is_total(a: KeyView, b: KeyView)
    ensures
        key_le(a, a),
        key_le(a, b) || key_le(b, a),
        key_le(a, b) && key_le(b, a) ==> a == b,
{
    text_le_total(a.first, a.first);
    text_le_total(a.second, a.second);
    text_le_total(a.first, b.first);
    text_le_total(a.second, b.second);
}

/// The order of keys is transitive.
pub proof fn key_order_is_transitive(a: KeyView, b: KeyView, c: KeyView)
    requires
        key_le(a, b),
        key_le(b, c),
    ensures
        key_le(a, c),
{
    text_le_total(a.first, b.first);
    text_le_total(b.first, c.first);
    text_le_total(a.first, c.first);
    if a.major == b.major && b.major == c.major {
        if a.first == b.first && b.first == c.first {
            text_le_transitive(a.second, b.second, c.second);
        } else if text_le(a.first, b.first) && text_le(b.first, c.first) {
            text_le_transitive(a.first, b.first, c.first);
        }
    }
}

/// Each element sorts no later than the ones after it.
pub open spec fn is_sorted<T>(s: Seq<T>, key: spec_fn(T) -> KeyView) -> bool {
    forall|i: int, j: int| 0 <= i <= j < s.len() ==> key_le(key(#[trigger] s[i]), key(#[trigger] s[j]))
}

proof fn insert_keeps<T>(x: T, s: Seq<T>, key: spec_fn(T) -> KeyView)
    ensures
        insert(x, s, key).len() == s.len() + 1,
        insert(x, s, key).to_multiset() == s.to_multiset().insert(x),
        is_sorted(s, key) ==> is_sorted(insert(x, s, key), key),
    decreases s.len(),
{
    broadcast use vstd::seq_lib::group_to_multiset_ensures;

    if s.len() == 0 {
        assert(seq![x] =~= Seq::<T>::empty().push(x));
        assert(s =~= Seq::<T>::empty());
        key_order_is_total(key(x), key(x));
    } else if key_le(key(x), key(s[0])) {
        assert(seq![x] + s =~= s.insert(0, x));
        if is_sorted(s, key) {
            let r = seq![x] + s;
            assert forall|i: int, j: int| 0 <= i <= j < r.len() implies key_le(
                key(#[trigger] r[i]),
                key(#[trigger] r[j]),
            ) by {
                key_order_is_total(key(x), key(x));
                if i == 0 && j > 0 {
                    assert(r[j] == s[j - 1]);
                    assert(key_le(key(s[0]), key(s[j - 1])));
                    key_order_is_transitive(key(x), key(s[0]), key(s[j - 1]));
                } else if i > 0 {
                    assert(r[i] == s[i - 1] && r[j] == s[j - 1]);
                }
            }
        }
    } else {
        let rest = s.drop_first();
        let below = insert(x, rest, key);
        insert_keeps(x, rest, key);
        assert(s =~= rest.insert(0, s[0]));
        assert(seq![s[0]] + below =~= below.insert(0, s[0]));
        if is_sorted(s, key) {
            assert forall|i: int, j: int| 0 <= i <= j < rest.len() implies key_le(
                key(#[trigger] rest[i]),
                key(#[trigger] rest[j]),
            ) by {
                assert(rest[i] == s[i + 1] && rest[j] == s[j + 1]);
            }
            key_order_is_total(key(x), key(s[0]));
            let r = seq![s[0]] + below;
            assert forall|i: int, j: int| 0 <= i <= j < r.len() implies key_le(
                key(#[trigger] r[i]),
                key(#[trigger] r[j]),
            ) by {
                if i == 0 {
                    if j > 0 {
                        assert(r[j] == below[j - 1]);
                        assert(below.to_multiset().count(below[j - 1]) > 0) by {
                            assert(below.contains(below[j - 1]));
                        }
                        if below[j - 1] != x {
                            assert(rest.to_multiset().count(below[j - 1]) > 0);
                            assert(rest.contains(below[j - 1]));
                            let m = rest.index_of(below[j - 1]);
                            assert(rest[m] == s[m + 1]);
                        }
                    } else {
                        key_order_is_total(key(s[0]), key(s[0]));
                    }
                } else {
                    assert(r[i] == below[i - 1] && r[j] == below[j - 1]);
                }
            }
        }
    }
}

/// Sorting loses nothing, adds nothing, and leaves the elements in order.
pub proof fn sorting_orders<T>(s: Seq<T>, key: spec_fn(T) -> KeyView)
    ensures
        sorted_by(s, key).to_multiset() == s.to_multiset(),
        sorted_by(s, key).len() == s.len(),
        is_sorted(sorted_by(s, key), key),
    decreases s.len(),
{
    broadcast use vstd::seq_lib::group_to_multiset_ensures;

    if s.len() > 0 {
        sorting_orders(s.drop_first(), key);
        insert_keeps(s[0], sorted_by(s.drop_first(), key), key);
        assert(s =~= s.drop_first().insert(0, s[0]));
    }
}

/// The elements whose key is `k`, in order.
pub open spec fn with_key<T>(s: Seq<T>, key: spec_fn(T) -> KeyView, k: KeyView) -> Seq<T>
    decreases s.len(),
{
    if s.len() == 0 {
        s
    } else if key(s[0]) == k {
        seq![s[0]] + with_key(s.drop_first(), key, k)
    } else {
        with_key(s.drop_first(), key, k)
    }
}

proof fn insert_is_stable<T>(x: T, s: Seq<T>, key: spec_fn(T) -> KeyView, k: KeyView)
    requires
        is_sorted(s, key),
    ensures
        with_key(insert(x, s, key), key, k) == (if key(x) == k {
            seq![x] + with_key(s, key, k)
        } else {
            with_key(s, key, k)
        }),
    decreases s.len(),
{
    let r = insert(x, s, key);
    if s.len() == 0 {
        assert(r.drop_first() =~= s);
    } else if key_le(key(x), key(s[0])) {
        assert(r.drop_first() =~= s);
    } else {
        let rest = s.drop_first();
        assert forall|i: int, j: int| 0 <= i <= j < rest.len() implies key_le(
            key(#[trigger] rest[i]),
            key(#[trigger] rest[j]),
        ) by {
            assert(rest[i] == s[i + 1] && rest[j] == s[j + 1]);
        }
        insert_is_stable(x, rest, key, k);
        assert(r.drop_first() =~= insert(x, rest, key));
        assert(r[0] == s[0]);
        key_order_is_total(key(x), key(s[0]));
    }
}

/// Sorting is stable: the elements that share a key keep their order.
pub proof fn sorting_is_stable<T>(s: Seq<T>, key: spec_fn(T) -> KeyView, k: KeyView)
    ensures
        with_key(sorted_by(s, key), key, k) == with_key(s, key, k),
    decreases s.len(),
{
    if s.len() > 0 {
        sorting_is_stable(s.drop_first(), key, k);
        sorting_orders(s.drop_first(), key);
        insert_is_stable(s[0], sorted_by(s.drop_first(), key), key, k);
    }
}

/// Every element of the sorted sequence was there before, and the other way
/// round.
pub proof fn sorting_keeps_members<T>(s: Seq<T>, key: spec_fn(T) -> KeyView, x: T)
    ensures
        sorted_by(s, key).contains(x) == s.contains(x),
{
    broadcast use vstd::seq_lib::group_to_multiset_ensures;

    sorting_orders(s, key);
    assert(s.contains(x) == (s.to_multiset().count(x) > 0));
    assert(sorted_by(s, key).contains(x) == (sorted_by(s, key).to_multiset().count(x) > 0));
}

/// Each element has a place behind those of the elements before it.
pub open spec fn climbs<T>(s: Seq<T>, place: spec_fn(T) -> int) -> bool {
    forall|i: int, j: int| 0 <= i < j < s.len() ==> place(#[trigger] s[i]) < place(#[trigger] s[j])
}

/// Elements that share a key have places that climb.
pub open spec fn climbs_where_tied<T>(
    s: Seq<T>,
    key: spec_fn(T) -> KeyView,
    place: spec_fn(T) -> int,
) -> bool {
    forall|i: int, j: int|
        0 <= i < j < s.len() && key(#[trigger] s[i]) == key(#[trigger] s[j]) ==> place(s[i])
            < place(s[j])
}

proof fn place_to_insert<T>(x: T, s: Seq<T>, key: spec_fn(T) -> KeyView, from: int) -> (p: int)
    requires
        0 <= from <= s.len(),
        forall|i: int| 0 <= i < from ==> !key_le(key(x), key(#[trigger] s[i])),
    ensures
        0 <= p <= s.len(),
        forall|i: int| 0 <= i < p ==> !key_le(key(x), key(#[trigger] s[i])),
        insert(x, s, key) == s.insert(p, x),
    decreases s.len() - from,
{
    if from < s.len() && !key_le(key(x), key(s[from])) {
        place_to_insert(x, s, key, from + 1)
    } else {
        insert_at(x, s, key, from);
        from
    }
}

proof fn ties_climb<T>(s: Seq<T>, key: spec_fn(T) -> KeyView, place: spec_fn(T) -> int)
    requires
        climbs(s, place),
    ensures
        climbs_where_tied(sorted_by(s, key), key, place),
    decreases s.len(),
{
    if s.len() > 0 {
        let rest = s.drop_first();
        let low = sorted_by(rest, key);
        let x = s[0];
        assert(climbs(rest, place)) by {
            assert forall|i: int, j: int| 0 <= i < j < rest.len() implies place(
                #[trigger] rest[i],
            ) < place(#[trigger] rest[j]) by {
                assert(rest[i] == s[i + 1] && rest[j] == s[j + 1]);
            }
        }
        ties_climb(rest, key, place);
        assert forall|i: int| 0 <= i < low.len() implies place(x) < place(#[trigger] low[i]) by {
            assert(low.contains(low[i]));
            sorting_keeps_members(rest, key, low[i]);
            let j = choose|j: int| 0 <= j < rest.len() && rest[j] == low[i];
            assert(rest[j] == s[j + 1]);
        }
        let p = place_to_insert(x, low, key, 0);
        let r = low.insert(p, x);
        assert forall|i: int, j: int|
            0 <= i < j < r.len() && key(#[trigger] r[i]) == key(#[trigger] r[j]) implies place(r[i])
            < place(r[j]) by {
            if j == p {
                assert(r[i] == low[i]);
                key_order_is_total(key(x), key(x));
            } else if i == p {
                assert(r[j] == low[j - 1]);
            } else {
                let a: int = if i < p {
                    i
                } else {
                    i - 1
                };
                let b: int = if j < p {
                    j
                } else {
                    j - 1
                };
                assert(r[i] == low[a] && r[j] == low[b]);
            }
        }
    }
}

/// Elements in ascending places that share a key come out of a sort with their
/// places still ascending, and none comes out twice.
pub proof fn sorting_keeps_ties_in_order<T>(
    s: Seq<T>,
    key: spec_fn(T) -> KeyView,
    place: spec_fn(T) -> int,
    i: int,
    j: int,
)
    requires
        climbs(s, place),
        0 <= i < j < sorted_by(s, key).len(),
    ensures
        key(sorted_by(s, key)[i]) == key(sorted_by(s, key)[j]) ==> place(sorted_by(s, key)[i])
            < place(sorted_by(s, key)[j]),
        place(sorted_by(s, key)[i]) != place(sorted_by(s, key)[j]),
{
    ties_climb(s, key, place);
    let r = sorted_by(s, key);
    if place(r[i]) == place(r[j]) {
        assert(r.contains(r[i]) && r.contains(r[j]));
        sorting_keeps_members(s, key, r[i]);
        sorting_keeps_members(s, key, r[j]);
        let a = choose|a: int| 0 <= a < s.len() && s[a] == r[i];
        let b = choose|b: int| 0 <= b < s.len() && s[b] == r[j];
        assert(a == b);
    }
}

/// Sorting commutes with a renaming of the elements that leaves their keys
/// alone.
pub proof fn sorting_maps<A, B>(
    s: Seq<A>,
    f: spec_fn(A) -> B,
    ka: spec_fn(A) -> KeyView,
    kb: spec_fn(B) -> KeyView,
)
    requires
        forall|i: int| 0 <= i < s.len() ==> #[trigger] ka(s[i]) == kb(f(s[i])),
    ensures
        sorted_by(s, ka).map_values(f) == sorted_by(s.map_values(f), kb),
    decreases s.len(),
{
    if s.len() > 0 {
        let rest = s.drop_first();
        assert forall|i: int| 0 <= i < rest.len() implies #[trigger] ka(rest[i]) == kb(f(rest[i])) by {
            assert(rest[i] == s[i + 1]);
            assert(ka(s[i + 1]) == kb(f(s[i + 1])));
        }
        sorting_maps(rest, f, ka, kb);
        assert(s.map_values(f).drop_first() =~= rest.map_values(f));
        let low = sorted_by(rest, ka);
        assert forall|i: int| 0 <= i < low.len() implies #[trigger] ka(low[i]) == kb(f(low[i])) by {
            assert(low.contains(low[i]));
            sorting_keeps_members(rest, ka, low[i]);
            let j = choose|j: int| 0 <= j < rest.len() && rest[j] == low[i];
            assert(ka(rest[j]) == kb(f(rest[j])));
        }
        assert(ka(s[0]) == kb(f(s[0])));
        insert_maps(s[0], low, f, ka, kb);
    } else {
        assert(s.map_values(f) =~= Seq::<B>::empty());
        assert(sorted_by(s, ka).map_values(f) =~= Seq::<B>::empty());
    }
}

proof fn insert_maps<A, B>(
    x: A,
    s: Seq<A>,
    f: spec_fn(A) -> B,
    ka: spec_fn(A) -> KeyView,
    kb: spec_fn(B) -> KeyView,
)
    requires
        ka(x) == kb(f(x)),
        forall|i: int| 0 <= i < s.len() ==> #[trigger] ka(s[i]) == kb(f(s[i])),
    ensures
        insert(x, s, ka).map_values(f) == insert(f(x), s.map_values(f), kb),
    decreases s.len(),
{
    if s.len() == 0 {
        assert(seq![x].map_values(f) =~= seq![f(x)]);
    } else {
        assert(ka(s[0]) == kb(f(s[0])));
        assert(s.map_values(f)[0] == f(s[0]));
        if key_le(ka(x), ka(s[0])) {
            assert((seq![x] + s).map_values(f) =~= seq![f(x)] + s.map_values(f));
        } else {
            let rest = s.drop_first();
            assert forall|i: int| 0 <= i < rest.len() implies #[trigger] ka(rest[i]) == kb(
                f(rest[i]),
            ) by {
                assert(rest[i] == s[i + 1]);
                assert(ka(s[i + 1]) == kb(f(s[i + 1])));
            }
            insert_maps(x, rest, f, ka, kb);
            assert(s.map_values(f).drop_first() =~= rest.map_values(f));
            assert((seq![s[0]] + insert(x, rest, ka)).map_values(f) =~= seq![f(s[0])] + insert(
                x,
                rest,
                ka,
            ).map_values(f));
        }
    }
}

} // verus!
