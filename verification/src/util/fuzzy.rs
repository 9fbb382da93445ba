//! A small subsequence fuzzy matcher.
//!
//! Deliberately not a full fzf clone: it scores contiguous runs, word-boundary
//! hits and prefix matches, which is enough to rank a few hundred container and
//! image names sensibly. It also returns the matched character positions so the
//! UI can highlight them.

use vstd::prelude::*;

use crate::order::{
    climbs, number_key, sort_by_keys, sorted_by, sorting_keeps_ties_in_order, sorting_orders,
    KeyView, SortKey,
};
use crate::text::{chars_of, lower, lowered};

verus! {

/// Score plus the positions (in characters of the haystack) that matched.
pub struct Match {
    pub score: i32,
    pub indices: Vec<usize>,
}

/// The mathematical value of a [`Match`].
#[verifier::ext_equal]
pub struct MatchView {
    pub score: int,
    pub indices: Seq<int>,
}

impl View for Match {
    type V = MatchView;

    open spec fn view(&self) -> MatchView {
        MatchView {
            score: self.score as int,
            indices: Seq::new(self.indices@.len(), |i: int| self.indices@[i] as int),
        }
    }
}

/// Scores at or above this came from an exact substring hit. Keeping the two
/// kinds of match in separate bands means a literal hit always wins, which is
/// what people expect when they type a whole word.
pub const SUBSTRING_BAND: i32 = 1_000;

// ---------------------------------------------------------------------------
// What a match is
// ---------------------------------------------------------------------------

/// Characters that end a word.
pub open spec fn boundary(c: char) -> bool {
    c == '-' || c == '_' || c == '/' || c == '.' || c == ':' || c == ' ' || c == '@'
}

/// `hay` holds `nee` at position `at`, ASCII case aside.
pub open spec fn holds_folded(hay: Seq<char>, nee: Seq<char>, at: int) -> bool {
    &&& 0 <= at
    &&& at + nee.len() <= hay.len()
    &&& forall|i: int| 0 <= i < nee.len() ==> lower(#[trigger] hay[at + i]) == lower(nee[i])
}

/// The first position at or after `from` where `hay` holds `nee`.
pub open spec fn substring_at(hay: Seq<char>, nee: Seq<char>, from: int) -> Option<int>
    decreases hay.len() - nee.len() - from + 1,
{
    if from + nee.len() > hay.len() {
        None
    } else if holds_folded(hay, nee, from) {
        Some(from)
    } else {
        substring_at(hay, nee, from + 1)
    }
}

/// The first position at or after `from` whose character is `c`, case aside.
pub open spec fn next_hit(hay: Seq<char>, c: char, from: int) -> Option<int>
    decreases hay.len() - from,
{
    if from >= hay.len() {
        None
    } else if lower(hay[from]) == lower(c) {
        Some(from)
    } else {
        next_hit(hay, c, from + 1)
    }
}

/// Where the characters of `nee` are found when each is taken at the first
/// opportunity.
pub open spec fn leftmost(hay: Seq<char>, nee: Seq<char>) -> Option<Seq<int>>
    decreases nee.len(),
{
    if nee.len() == 0 {
        Some(Seq::empty())
    } else {
        match leftmost(hay, nee.drop_last()) {
            None => None,
            Some(pos) => match next_hit(hay, nee.last(), after(pos)) {
                None => None,
                Some(at) => Some(pos.push(at)),
            },
        }
    }
}

/// The position a scan that has matched at `pos` goes on from.
pub open spec fn after(pos: Seq<int>) -> int {
    if pos.len() == 0 {
        0
    } else {
        pos.last() + 1
    }
}

/// How many adjacent characters end at the `k`-th matched position.
pub open spec fn run_at(pos: Seq<int>, k: int) -> int
    decreases k,
{
    if k > 0 && pos[k] == pos[k - 1] + 1 {
        run_at(pos, k - 1) + 1
    } else {
        1
    }
}

/// What the `k`-th matched position is worth: contiguity is the strongest
/// signal, then the start of the text, then the start of a word.
pub open spec fn worth(hay: Seq<char>, pos: Seq<int>, k: int) -> int {
    4 + run_at(pos, k) * 4 + (if pos[k] == 0 {
        12int
    } else if boundary(hay[pos[k] - 1]) {
        8
    } else {
        0
    })
}

/// The worth of the first `n` matched positions together.
pub open spec fn total_worth(hay: Seq<char>, pos: Seq<int>, n: int) -> int
    decreases n,
{
    if n <= 0 {
        0
    } else {
        total_worth(hay, pos, n - 1) + worth(hay, pos, n - 1)
    }
}

/// `x` brought into the range of an `i32`.
pub open spec fn as_score(x: int) -> int {
    if x > i32::MAX {
        i32::MAX as int
    } else if x < i32::MIN {
        i32::MIN as int
    } else {
        x
    }
}

/// The score of a literal hit at `at`, kept in the literal band however long the
/// haystack is.
pub open spec fn literal_score(hay: Seq<char>, nee: Seq<char>, at: int) -> int {
    let score = SUBSTRING_BAND + nee.len() * 4 + (if at == 0 {
        20int
    } else if boundary(hay[at - 1]) {
        10
    } else {
        0
    }) - hay.len() / 8;
    if score < SUBSTRING_BAND {
        SUBSTRING_BAND as int
    } else {
        score
    }
}

/// The score of a scattered hit at `pos`, kept out of the literal band.
pub open spec fn scattered_score(hay: Seq<char>, pos: Seq<int>) -> int {
    let score = total_worth(hay, pos, pos.len() as int) - hay.len() / 8;
    if score < SUBSTRING_BAND {
        score
    } else {
        SUBSTRING_BAND - 1
    }
}

/// The match of `nee` in `hay`: everything matches nothing, a literal hit is
/// preferred, and otherwise each character is taken at the first opportunity.
pub open spec fn match_of(hay: Seq<char>, nee: Seq<char>) -> Option<MatchView> {
    if nee.len() == 0 {
        Some(MatchView { score: 0, indices: Seq::empty() })
    } else {
        match substring_at(hay, nee, 0) {
            Some(at) => Some(
                MatchView {
                    score: as_score(literal_score(hay, nee, at)),
                    indices: Seq::new(nee.len(), |i: int| at + i),
                },
            ),
            None => match leftmost(hay, nee) {
                Some(pos) => Some(
                    MatchView { score: as_score(scattered_score(hay, pos)), indices: pos },
                ),
                None => None,
            },
        }
    }
}

// ---------------------------------------------------------------------------
// Matching
// ---------------------------------------------------------------------------

fn is_boundary(c: char) -> (out: bool)
    ensures
        out == boundary(c),
{
    c == '-' || c == '_' || c == '/' || c == '.' || c == ':' || c == ' ' || c == '@'
}

fn holds(hay: &[char], needle: &[char], at: usize) -> (out: bool)
    requires
        at + needle.len() <= hay.len(),
    ensures
        out == holds_folded(hay@, needle@, at as int),
{
    let mut i: usize = 0;
    while i < needle.len()
        invariant
            i <= needle.len(),
            at + needle.len() <= hay.len(),
            forall|k: int| 0 <= k < i ==> lower(#[trigger] hay@[at + k]) == lower(needle@[k]),
        decreases needle.len() - i,
    {
        if lowered(hay[at + i]) != lowered(needle[i]) {
            assert(lower(hay@[at + i]) != lower(needle@[i as int]));
            return false;
        }
        i += 1;
    }
    true
}

/// Case-insensitive contiguous search, so the returned offset is in characters
/// and lines up with everything else here.
fn find_substring(hay: &[char], needle: &[char]) -> (out: Option<usize>)
    ensures
        match out {
            Some(at) => substring_at(hay@, needle@, 0) == Some(at as int),
            None => substring_at(hay@, needle@, 0) == None::<int>,
        },
        out matches Some(at) ==> at + needle.len() <= hay.len(),
{
    if needle.len() > hay.len() {
        return None;
    }
    let last: usize = hay.len() - needle.len();
    let mut start: usize = 0;
    while start < last
        invariant
            start <= last,
            last + needle.len() == hay.len(),
            substring_at(hay@, needle@, 0) == substring_at(hay@, needle@, start as int),
        decreases last - start,
    {
        if holds(hay, needle, start) {
            return Some(start);
        }
        start += 1;
    }
    if holds(hay, needle, last) {
        Some(last)
    } else {
        assert(substring_at(hay@, needle@, last + 1) == None::<int>);
        None
    }
}

fn clamp_score(x: i128) -> (out: i32)
    ensures
        out == as_score(x as int),
{
    if x > i32::MAX as i128 {
        i32::MAX
    } else if x < i32::MIN as i128 {
        i32::MIN
    } else {
        x as i32
    }
}

/// Enough to stay above the literal band however long the haystack is.
const ENOUGH: i128 = 0x4000_0000_0000_0000;

fn scan(hay: &[char], nee: &[char]) -> (out: Option<Match>)
    ensures
        match out {
            Some(m) => leftmost(hay@, nee@) is Some && m@ == (MatchView {
                score: as_score(scattered_score(hay@, leftmost(hay@, nee@)->0)),
                indices: leftmost(hay@, nee@)->0,
            }),
            None => leftmost(hay@, nee@) is None,
        },
{
    let mut indices: Vec<usize> = Vec::new();
    let ghost mut pos: Seq<int> = Seq::empty();
    let mut score: i128 = 0;
    let mut hi: usize = 0;
    let mut run: i128 = 0;
    let mut k: usize = 0;
    assert(nee@.take(0) =~= Seq::<char>::empty());
    while k < nee.len()
        invariant
            k <= nee.len(),
            leftmost(hay@, nee@.take(k as int)) == Some(pos),
            pos.len() == k,
            indices.len() == k,
            forall|i: int| 0 <= i < k ==> #[trigger] indices@[i] == pos[i],
            forall|i: int| 0 <= i < k ==> 0 <= #[trigger] pos[i] < hay.len(),
            hi == after(pos),
            hi <= hay.len(),
            0 <= run <= k,
            k > 0 ==> run == run_at(pos, k - 1),
            k == 0 ==> run == 0,
            0 <= score <= ENOUGH,
            score == (if total_worth(hay@, pos, k as int) > ENOUGH {
                ENOUGH as int
            } else {
                total_worth(hay@, pos, k as int)
            }),
        decreases nee.len() - k,
    {
        let ghost upto = nee@.take(k + 1);
        assert(upto.drop_last() =~= nee@.take(k as int));
        assert(upto.last() == nee@[k as int]);
        let target = lowered(nee[k]);
        let ghost from = hi as int;
        let ghost run0 = run;
        while hi < hay.len() && lowered(hay[hi]) != target
            invariant
                from <= hi <= hay.len(),
                target == lower(nee@[k as int]),
                k < nee.len(),
                next_hit(hay@, nee@[k as int], from) == next_hit(hay@, nee@[k as int], hi as int),
                run == (if hi == from {
                    run0
                } else {
                    0
                }),
            decreases hay.len() - hi,
        {
            // A miss breaks the contiguous run.
            run = 0;
            hi += 1;
        }
        if hi >= hay.len() {
            proof {
                assert(leftmost(hay@, upto) is None);
                none_sticks(hay@, nee@, k + 1);
            }
            return None;
        }
        let at: usize = hi;
        hi += 1;
        run += 1;
        let mut gain: i128 = 4 + run * 4;
        if at == 0 {
            gain += 12;  // prefix match
        } else if is_boundary(hay[at - 1]) {
            gain += 8;  // word boundary
        }
        let ghost before = pos;
        indices.push(at);
        proof {
            pos = pos.push(at as int);
            assert(pos.take(k as int) =~= before);
            runs_keep(before, pos, k as int);
            worths_keep(hay@, before, pos, k as int);
            assert(run == run_at(pos, k as int));
            assert(gain == worth(hay@, pos, k as int));
        }
        score = if score + gain > ENOUGH {
            ENOUGH
        } else {
            score + gain
        };
        k += 1;
    }
    assert(nee@.take(nee@.len() as int) =~= nee@);
    let long: i128 = (hay.len() / 8) as i128;
    let rest: i128 = score - long;
    let capped: i128 = if rest < SUBSTRING_BAND as i128 {
        rest
    } else {
        SUBSTRING_BAND as i128 - 1
    };
    let out = Match { score: clamp_score(capped), indices };
    assert(out@.indices =~= pos);
    Some(out)
}

proof fn none_sticks(hay: Seq<char>, nee: Seq<char>, n: int)
    requires
        0 <= n <= nee.len(),
        leftmost(hay, nee.take(n)) is None,
    ensures
        leftmost(hay, nee) is None,
    decreases nee.len() - n,
{
    if n < nee.len() {
        assert(nee.take(n + 1).drop_last() =~= nee.take(n));
        none_sticks(hay, nee, n + 1);
    } else {
        assert(nee.take(n) =~= nee);
    }
}

proof fn runs_keep(a: Seq<int>, b: Seq<int>, n: int)
    requires
        a.len() == n,
        b.len() > n,
        b.take(n) == a,
    ensures
        forall|k: int| 0 <= k < n ==> #[trigger] run_at(a, k) == run_at(b, k),
{
    assert forall|k: int| 0 <= k < n implies #[trigger] run_at(a, k) == run_at(b, k) by {
        run_keeps(a, b, n, k);
    }
}

proof fn run_keeps(a: Seq<int>, b: Seq<int>, n: int, k: int)
    requires
        a.len() == n,
        b.len() > n,
        b.take(n) == a,
        0 <= k < n,
    ensures
        run_at(a, k) == run_at(b, k),
    decreases k,
{
    assert(forall|i: int| 0 <= i < n ==> b.take(n)[i] == b[i]);
    if k > 0 {
        run_keeps(a, b, n, k - 1);
        assert(a[k] == b[k] && a[k - 1] == b[k - 1]);
    }
}

proof fn worths_keep(hay: Seq<char>, a: Seq<int>, b: Seq<int>, n: int)
    requires
        a.len() >= n,
        b.len() > n,
        n >= 0,
        forall|i: int| 0 <= i < n ==> a[i] == b[i],
        forall|k: int| 0 <= k < n ==> #[trigger] run_at(a, k) == run_at(b, k),
    ensures
        total_worth(hay, a, n) == total_worth(hay, b, n),
    decreases n,
{
    if n > 0 {
        worths_keep(hay, a, b, n - 1);
        assert(run_at(a, n - 1) == run_at(b, n - 1));
    }
}

/// Case-insensitive subsequence match. Returns `None` when `needle` is not a
/// subsequence of `haystack`. An empty needle matches everything with score 0.
///
/// An exact substring is found first, because taking the first candidate for
/// each character can miss the obvious alignment: searching `rest` in
/// `container: restart` would otherwise latch onto the `r` in `container`.
pub fn match_str(haystack: &str, needle: &str) -> (out: Option<Match>)
    ensures
        match out {
            Some(m) => match_of(haystack@, needle@) == Some(m@),
            None => match_of(haystack@, needle@) is None,
        },
{
    let hay = chars_of(haystack);
    let nee = chars_of(needle);
    if nee.len() == 0 {
        let out = Match { score: 0, indices: Vec::new() };
        assert(out@.indices =~= Seq::<int>::empty());
        return Some(out);
    }
    if let Some(at) = find_substring(&hay, &nee) {
        let mut score: i128 = SUBSTRING_BAND as i128 + nee.len() as i128 * 4;
        if at == 0 {
            score += 20;
        } else if is_boundary(hay[at - 1]) {
            score += 10;
        }
        score -= (hay.len() / 8) as i128;
        // A long text costs points, but never so many that a scattered hit
        // could outrank a literal one.
        if score < SUBSTRING_BAND as i128 {
            score = SUBSTRING_BAND as i128;
        }
        let mut indices: Vec<usize> = Vec::new();
        let mut i: usize = 0;
        while i < nee.len()
            invariant
                i <= nee.len(),
                at + nee.len() <= hay.len(),
                indices.len() == i,
                forall|k: int| 0 <= k < i ==> #[trigger] indices@[k] == at + k,
            decreases nee.len() - i,
        {
            indices.push(at + i);
            i += 1;
        }
        let out = Match { score: clamp_score(score), indices };
        assert(out@.indices =~= Seq::new(needle@.len(), |k: int| at + k));
        return Some(out);
    }
    scan(&hay, &nee)
}

// ---------------------------------------------------------------------------
// Ranking
// ---------------------------------------------------------------------------

/// The first `n` keys that match, each with its position and score.
pub open spec fn scored(keys: Seq<Seq<char>>, nee: Seq<char>, n: int) -> Seq<(usize, i32)>
    decreases n,
{
    if n <= 0 {
        Seq::empty()
    } else {
        match match_of(keys[n - 1], nee) {
            Some(m) => scored(keys, nee, n - 1).push(((n - 1) as usize, m.score as i32)),
            None => scored(keys, nee, n - 1),
        }
    }
}

/// Best score first.
pub open spec fn by_score() -> spec_fn((usize, i32)) -> KeyView {
    |p: (usize, i32)| number_key(-(p.1 as int))
}

/// The positions of the keys that match, best first; every position in order
/// when there is nothing to match against.
pub open spec fn ranking(keys: Seq<Seq<char>>, nee: Seq<char>) -> Seq<usize> {
    if nee.len() == 0 {
        Seq::new(keys.len(), |i: int| i as usize)
    } else {
        sorted_by(scored(keys, nee, keys.len() as int), by_score()).map_values(
            |p: (usize, i32)| p.0,
        )
    }
}

/// Rank `keys` against `needle`, returning the surviving positions best-first.
/// With an empty needle the original order is preserved.
pub fn rank_keys(keys: &Vec<String>, needle: &str) -> (out: Vec<usize>)
    ensures
        out@ == ranking(keys.deep_view(), needle@),
{
    let ghost all = keys.deep_view();
    let mut out: Vec<usize> = Vec::new();
    if chars_of(needle).len() == 0 {
        let mut i: usize = 0;
        while i < keys.len()
            invariant
                i <= keys.len(),
                out@ == Seq::new(i as nat, |k: int| k as usize),
            decreases keys.len() - i,
        {
            out.push(i);
            i += 1;
            assert(out@ =~= Seq::new(i as nat, |k: int| k as usize));
        }
        return out;
    }
    let mut hits: Vec<(usize, i32)> = Vec::new();
    let mut order: Vec<SortKey> = Vec::new();
    let mut i: usize = 0;
    while i < keys.len()
        invariant
            i <= keys.len(),
            all == keys.deep_view(),
            all.len() == keys.len(),
            hits@ == scored(all, needle@, i as int),
            hits.len() == order.len(),
            forall|k: int| 0 <= k < hits.len() ==> #[trigger] order@[k]@ == by_score()(hits@[k]),
        decreases keys.len() - i,
    {
        assert(all[i as int] == keys@[i as int]@);
        if let Some(m) = match_str(&keys[i], needle) {
            hits.push((i, m.score));
            order.push(SortKey::number(-(m.score as i128)));
        }
        i += 1;
    }
    let sorted = sort_by_keys(hits, order, Ghost(by_score()));
    let mut j: usize = 0;
    while j < sorted.len()
        invariant
            j <= sorted.len(),
            out@ == sorted@.take(j as int).map_values(|p: (usize, i32)| p.0),
        decreases sorted.len() - j,
    {
        out.push(sorted[j].0);
        assert(sorted@.take(j + 1) =~= sorted@.take(j as int).push(sorted@[j as int]));
        assert(out@ =~= sorted@.take(j + 1).map_values(|p: (usize, i32)| p.0));
        j += 1;
    }
    assert(sorted@.take(sorted@.len() as int) =~= sorted@);
    out
}

/// Whether `texts` is what `key` may have made of `items`.
pub open spec fn keyed<T, F: Fn(&T) -> String>(items: Seq<T>, key: F, texts: Seq<String>) -> bool {
    &&& texts.len() == items.len()
    &&& forall|i: int| 0 <= i < items.len() ==> call_ensures(key, (&items[i],), #[trigger] texts[i])
}

/// Rank `items` against `needle` by the text that `key` makes of each.
pub fn rank<T, F: Fn(&T) -> String>(items: &[T], needle: &str, key: F) -> (out: Vec<usize>)
    requires
        forall|i: int| 0 <= i < items.len() ==> call_requires(key, (&#[trigger] items@[i],)),
    ensures
        exists|texts: Seq<String>| #[trigger]
            keyed(items@, key, texts) && out@ == ranking(texts.map_values(|s: String| s@), needle@),
{
    let mut keys: Vec<String> = Vec::new();
    let mut i: usize = 0;
    while i < items.len()
        invariant
            i <= items.len(),
            keys.len() == i,
            forall|k: int| 0 <= k < items.len() ==> call_requires(key, (&#[trigger] items@[k],)),
            forall|k: int|
                0 <= k < i ==> call_ensures(key, (&items@[k],), #[trigger] keys@[k]),
        decreases items.len() - i,
    {
        let text = key(&items[i]);
        keys.push(text);
        i += 1;
    }
    assert(keyed(items@, key, keys@));
    assert(keys.deep_view() =~= keys@.map_values(|s: String| s@));
    rank_keys(&keys, needle)
}

// ---------------------------------------------------------------------------
// What matching promises
// ---------------------------------------------------------------------------

/// `pos` picks the characters of `nee` out of `hay` in order, case aside.
pub open spec fn embeds(hay: Seq<char>, nee: Seq<char>, pos: Seq<int>) -> bool {
    &&& pos.len() == nee.len()
    &&& forall|i: int| 0 <= i < pos.len() ==> 0 <= #[trigger] pos[i] < hay.len()
    &&& forall|i: int, j: int| 0 <= i < j < pos.len() ==> #[trigger] pos[i] < #[trigger] pos[j]
    &&& forall|i: int| 0 <= i < pos.len() ==> lower(hay[#[trigger] pos[i]]) == lower(nee[i])
}

proof fn next_hit_is_first(hay: Seq<char>, c: char, from: int)
    requires
        0 <= from,
    ensures
        match next_hit(hay, c, from) {
            Some(at) => from <= at < hay.len() && lower(hay[at]) == lower(c) && forall|i: int|
                from <= i < at ==> lower(#[trigger] hay[i]) != lower(c),
            None => forall|i: int| from <= i < hay.len() ==> lower(#[trigger] hay[i]) != lower(c),
        },
    decreases hay.len() - from,
{
    if from < hay.len() && lower(hay[from]) != lower(c) {
        next_hit_is_first(hay, c, from + 1);
    }
}

proof fn leftmost_embeds(hay: Seq<char>, nee: Seq<char>)
    ensures
        leftmost(hay, nee) matches Some(pos) ==> embeds(hay, nee, pos),
    decreases nee.len(),
{
    if nee.len() > 0 {
        leftmost_embeds(hay, nee.drop_last());
        if let Some(pos) = leftmost(hay, nee.drop_last()) {
            next_hit_is_first(hay, nee.last(), after(pos));
        }
    }
}

proof fn leftmost_is_leftmost(hay: Seq<char>, nee: Seq<char>, pos: Seq<int>)
    requires
        embeds(hay, nee, pos),
    ensures
        leftmost(hay, nee) is Some,
        forall|i: int| 0 <= i < pos.len() ==> (leftmost(hay, nee)->0)[i] <= #[trigger] pos[i],
    decreases nee.len(),
{
    if nee.len() > 0 {
        let low = pos.drop_last();
        assert(embeds(hay, nee.drop_last(), low)) by {
            assert forall|i: int| 0 <= i < low.len() implies lower(hay[#[trigger] low[i]]) == lower(
                nee.drop_last()[i],
            ) by {
                assert(low[i] == pos[i]);
            }
        }
        leftmost_is_leftmost(hay, nee.drop_last(), low);
        leftmost_embeds(hay, nee.drop_last());
        let found = leftmost(hay, nee.drop_last())->0;
        next_hit_is_first(hay, nee.last(), after(found));
        let last = pos[pos.len() - 1];
        if found.len() > 0 {
            assert(found[found.len() - 1] <= low[found.len() - 1]);
            assert(pos[found.len() - 1] < pos[pos.len() - 1]);
        }
        assert(after(found) <= last);
        assert(lower(hay[last]) == lower(nee.last()));
        let whole = leftmost(hay, nee)->0;
        assert forall|i: int| 0 <= i < pos.len() implies whole[i] <= #[trigger] pos[i] by {
            if i < pos.len() - 1 {
                assert(found[i] <= low[i]);
            }
        }
    }
}

proof fn substring_is_first(hay: Seq<char>, nee: Seq<char>, from: int)
    requires
        0 <= from,
    ensures
        match substring_at(hay, nee, from) {
            Some(at) => from <= at && holds_folded(hay, nee, at) && forall|i: int|
                from <= i < at ==> !#[trigger] holds_folded(hay, nee, i),
            None => forall|i: int| from <= i ==> !#[trigger] holds_folded(hay, nee, i),
        },
    decreases hay.len() - nee.len() - from + 1,
{
    if from + nee.len() <= hay.len() && !holds_folded(hay, nee, from) {
        substring_is_first(hay, nee, from + 1);
    }
}

/// A needle matches exactly when its characters occur in the haystack in
/// order, case aside; and the positions handed back are such an occurrence.
pub proof fn matches_are_subsequences(hay: Seq<char>, nee: Seq<char>)
    ensures
        match_of(hay, nee) is Some <==> exists|pos: Seq<int>| embeds(hay, nee, pos),
        match_of(hay, nee) matches Some(m) ==> embeds(hay, nee, m.indices),
{
    substring_is_first(hay, nee, 0);
    leftmost_embeds(hay, nee);
    if nee.len() == 0 {
        assert(embeds(hay, nee, Seq::empty()));
    } else if let Some(at) = substring_at(hay, nee, 0) {
        let pos = Seq::new(nee.len(), |i: int| at + i);
        assert forall|i: int| 0 <= i < pos.len() implies lower(hay[#[trigger] pos[i]]) == lower(
            nee[i],
        ) by {
            assert(lower(hay[at + i]) == lower(nee[i]));
        }
        assert(embeds(hay, nee, pos));
    } else if exists|pos: Seq<int>| embeds(hay, nee, pos) {
        let pos = choose|pos: Seq<int>| embeds(hay, nee, pos);
        leftmost_is_leftmost(hay, nee, pos);
    }
}

/// A needle that occurs literally is matched at its first literal occurrence,
/// and the matched positions are adjacent.
pub proof fn literal_hits_are_contiguous(hay: Seq<char>, nee: Seq<char>, at: int)
    requires
        nee.len() > 0,
        holds_folded(hay, nee, at),
    ensures
        match_of(hay, nee) is Some,
        match_of(hay, nee)->0.indices.len() == nee.len(),
        match_of(hay, nee)->0.indices[0] <= at,
        holds_folded(hay, nee, match_of(hay, nee)->0.indices[0]),
        forall|i: int|
            0 <= i < nee.len() ==> #[trigger] match_of(hay, nee)->0.indices[i] == match_of(
                hay,
                nee,
            )->0.indices[0] + i,
{
    substring_is_first(hay, nee, 0);
}

/// A scattered match never reaches the literal band.
pub proof fn scattered_hits_stay_below_the_band(hay: Seq<char>, nee: Seq<char>)
    requires
        forall|at: int| !#[trigger] holds_folded(hay, nee, at),
        match_of(hay, nee) is Some,
    ensures
        match_of(hay, nee)->0.score < SUBSTRING_BAND,
{
    substring_is_first(hay, nee, 0);
    if nee.len() == 0 {
        assert(holds_folded(hay, nee, 0));
    }
}

/// A literal hit is found, and its score lies in the literal band.
pub proof fn literal_hits_win_the_band(hay: Seq<char>, nee: Seq<char>, at: int)
    requires
        nee.len() > 0,
        holds_folded(hay, nee, at),
    ensures
        match_of(hay, nee) is Some,
        match_of(hay, nee)->0.score >= SUBSTRING_BAND,
{
    substring_is_first(hay, nee, 0);
}

/// A literal hit always outranks a scattered one.
pub proof fn literal_hits_win(hay: Seq<char>, other: Seq<char>, nee: Seq<char>, at: int)
    requires
        nee.len() > 0,
        holds_folded(hay, nee, at),
        forall|i: int| !#[trigger] holds_folded(other, nee, i),
        match_of(other, nee) is Some,
    ensures
        match_of(hay, nee) is Some,
        match_of(hay, nee)->0.score >= SUBSTRING_BAND > match_of(other, nee)->0.score,
{
    substring_is_first(hay, nee, 0);
    scattered_hits_stay_below_the_band(other, nee);
}

/// Every position ranked is one whose key matches, and no matching key is left
/// out.
pub proof fn ranking_is_exact(keys: Seq<Seq<char>>, nee: Seq<char>, i: usize)
    requires
        keys.len() <= usize::MAX,
    ensures
        ranking(keys, nee).contains(i) <==> i < keys.len() && match_of(keys[i as int], nee) is Some,
{
    let n = keys.len() as int;
    if nee.len() == 0 {
        if i < keys.len() {
            assert(ranking(keys, nee)[i as int] == i);
        }
    } else {
        let hits = scored(keys, nee, n);
        let sorted = sorted_by(hits, by_score());
        scored_members(keys, nee, n);
        if i < keys.len() && match_of(keys[i as int], nee) is Some {
            let p = (i, (match_of(keys[i as int], nee)->0).score as i32);
            assert(hits.contains(p));
            crate::order::sorting_keeps_members(hits, by_score(), p);
            let j = choose|j: int| 0 <= j < sorted.len() && sorted[j] == p;
            assert(ranking(keys, nee)[j] == i);
        }
        if ranking(keys, nee).contains(i) {
            let j = choose|j: int| 0 <= j < ranking(keys, nee).len() && ranking(keys, nee)[j] == i;
            let p = sorted[j];
            assert(sorted.contains(p));
            crate::order::sorting_keeps_members(hits, by_score(), p);
        }
    }
}

proof fn scored_members(keys: Seq<Seq<char>>, nee: Seq<char>, n: int)
    requires
        0 <= n <= keys.len() <= usize::MAX,
    ensures
        forall|p: (usize, i32)| #[trigger]
            scored(keys, nee, n).contains(p) <==> p.0 < n && match_of(keys[p.0 as int], nee) is Some
                && p.1 == (match_of(keys[p.0 as int], nee)->0).score as i32,
    decreases n,
{
    if n > 0 {
        scored_members(keys, nee, n - 1);
        let low = scored(keys, nee, n - 1);
        let all = scored(keys, nee, n);
        assert forall|p: (usize, i32)| #[trigger]
            all.contains(p) <==> p.0 < n && match_of(keys[p.0 as int], nee) is Some && p.1 == (
            match_of(keys[p.0 as int], nee)->0).score as i32 by {
            if let Some(m) = match_of(keys[n - 1], nee) {
                let q = ((n - 1) as usize, m.score as i32);
                if low.contains(p) {
                    let i = choose|i: int| 0 <= i < low.len() && low[i] == p;
                    assert(all[i] == p);
                }
                assert(all[all.len() - 1] == q);
                if all.contains(p) && p != q {
                    let i = choose|i: int| 0 <= i < all.len() && all[i] == p;
                    assert(low[i] == p);
                }
            }
        }
    } else {
        assert(forall|p: (usize, i32)| !scored(keys, nee, n).contains(p));
    }
}

/// The ranking runs from the best score to the worst.
pub proof fn ranking_is_best_first(keys: Seq<Seq<char>>, nee: Seq<char>, i: int, j: int)
    requires
        nee.len() > 0,
        keys.len() <= usize::MAX,
        0 <= i <= j < ranking(keys, nee).len(),
    ensures
        match_of(keys[ranking(keys, nee)[i] as int], nee)->0.score >= match_of(
            keys[ranking(keys, nee)[j] as int],
            nee,
        )->0.score,
{
    let n = keys.len() as int;
    let hits = scored(keys, nee, n);
    let sorted = sorted_by(hits, by_score());
    sorting_orders(hits, by_score());
    scored_members(keys, nee, n);
    let (p, q) = (sorted[i], sorted[j]);
    assert(sorted.contains(p) && sorted.contains(q));
    crate::order::sorting_keeps_members(hits, by_score(), p);
    crate::order::sorting_keeps_members(hits, by_score(), q);
    assert(crate::order::key_le(by_score()(p), by_score()(q)));
}

proof fn scored_climbs(keys: Seq<Seq<char>>, nee: Seq<char>, n: int)
    requires
        0 <= n <= keys.len() <= usize::MAX,
    ensures
        climbs(scored(keys, nee, n), by_position()),
        forall|k: int|
            0 <= k < scored(keys, nee, n).len() ==> (#[trigger] scored(keys, nee, n)[k]).0 < n,
    decreases n,
{
    if n > 0 {
        scored_climbs(keys, nee, n - 1);
    }
}

/// Where a key stood.
pub open spec fn by_position() -> spec_fn((usize, i32)) -> int {
    |p: (usize, i32)| p.0 as int
}

/// No position is ranked twice, and keys that match equally well stay in the order
/// they came in.
pub proof fn ranking_keeps_ties_in_order(keys: Seq<Seq<char>>, nee: Seq<char>, i: int, j: int)
    requires
        keys.len() <= usize::MAX,
        0 <= i < j < ranking(keys, nee).len(),
    ensures
        ranking(keys, nee)[i] != ranking(keys, nee)[j],
        match_of(keys[ranking(keys, nee)[i] as int], nee)->0.score == match_of(
            keys[ranking(keys, nee)[j] as int],
            nee,
        )->0.score ==> ranking(keys, nee)[i] < ranking(keys, nee)[j],
{
    if nee.len() > 0 {
        let n = keys.len() as int;
        let hits = scored(keys, nee, n);
        let sorted = sorted_by(hits, by_score());
        scored_climbs(keys, nee, n);
        scored_members(keys, nee, n);
        sorting_keeps_ties_in_order(hits, by_score(), by_position(), i, j);
        let (p, q) = (sorted[i], sorted[j]);
        assert(sorted.contains(p) && sorted.contains(q));
        crate::order::sorting_keeps_members(hits, by_score(), p);
        crate::order::sorting_keeps_members(hits, by_score(), q);
    }
}

/// With nothing to match against, every position is ranked, in order.
pub proof fn ranking_by_nothing_keeps_the_order(keys: Seq<Seq<char>>, i: int)
    requires
        0 <= i < keys.len() <= usize::MAX,
    ensures
        ranking(keys, Seq::empty()).len() == keys.len(),
        ranking(keys, Seq::empty())[i] == i,
{
}

proof fn worths_add_up(hay: Seq<char>, pos: Seq<int>, n: int)
    requires
        0 <= n <= pos.len(),
    ensures
        0 <= total_worth(hay, pos, n),
    decreases n,
{
    if n > 0 {
        worths_add_up(hay, pos, n - 1);
        runs_are_counts(pos, n - 1);
    }
}

proof fn runs_are_counts(pos: Seq<int>, k: int)
    requires
        0 <= k,
    ensures
        0 <= run_at(pos, k),
    decreases k,
{
    if k > 0 {
        runs_are_counts(pos, k - 1);
    }
}

/// A score stays within a band that the lengths set.
pub proof fn scores_are_bounded(hay: Seq<char>, nee: Seq<char>)
    ensures
        match_of(hay, nee) matches Some(m) ==> i32::MIN <= m.score <= i32::MAX,
        match_of(hay, nee) matches Some(m) ==> hay.len() <= i32::MAX ==> -(hay.len() / 8)
            <= m.score <= SUBSTRING_BAND + hay.len() * 4 + 20,
{
    substring_is_first(hay, nee, 0);
    leftmost_embeds(hay, nee);
    if nee.len() > 0 && substring_at(hay, nee, 0) is None {
        let pos = leftmost(hay, nee)->0;
        worths_add_up(hay, pos, pos.len() as int);
    }
}

/// Whether two texts are the same, case aside.
pub open spec fn same_folded(a: Seq<char>, b: Seq<char>) -> bool {
    a.len() == b.len() && forall|i: int|
        0 <= i < a.len() ==> lower(#[trigger] a[i]) == lower(b[i])
}

proof fn substrings_ignore_case(
    h: Seq<char>,
    g: Seq<char>,
    n: Seq<char>,
    m: Seq<char>,
    from: int,
)
    requires
        same_folded(h, g),
        same_folded(n, m),
        0 <= from,
    ensures
        substring_at(h, n, from) == substring_at(g, m, from),
    decreases h.len() - n.len() - from + 1,
{
    if from + n.len() <= h.len() {
        assert(holds_folded(h, n, from) == holds_folded(g, m, from)) by {
            if holds_folded(h, n, from) {
                assert forall|i: int| 0 <= i < m.len() implies lower(#[trigger] g[from + i])
                    == lower(m[i]) by {
                    assert(lower(h[from + i]) == lower(n[i]));
                }
            }
            if holds_folded(g, m, from) {
                assert forall|i: int| 0 <= i < n.len() implies lower(#[trigger] h[from + i])
                    == lower(n[i]) by {
                    assert(lower(g[from + i]) == lower(m[i]));
                }
            }
        }
        substrings_ignore_case(h, g, n, m, from + 1);
    }
}

proof fn hits_ignore_case(h: Seq<char>, g: Seq<char>, c: char, d: char, from: int)
    requires
        same_folded(h, g),
        lower(c) == lower(d),
        0 <= from,
    ensures
        next_hit(h, c, from) == next_hit(g, d, from),
        next_hit(h, c, from) matches Some(at) ==> from <= at < h.len(),
    decreases h.len() - from,
{
    if from < h.len() {
        assert(lower(h[from]) == lower(g[from]));
        hits_ignore_case(h, g, c, d, from + 1);
    }
}

proof fn leftmost_ignores_case(h: Seq<char>, g: Seq<char>, n: Seq<char>, m: Seq<char>)
    requires
        same_folded(h, g),
        same_folded(n, m),
    ensures
        leftmost(h, n) == leftmost(g, m),
        leftmost(h, n) matches Some(pos) ==> pos.len() == n.len() && after(pos) >= 0 && forall|
            k: int,
        |
            0 <= k < pos.len() ==> 0 <= #[trigger] pos[k] < h.len(),
    decreases n.len(),
{
    if n.len() > 0 {
        assert(same_folded(n.drop_last(), m.drop_last()));
        leftmost_ignores_case(h, g, n.drop_last(), m.drop_last());
        if let Some(pos) = leftmost(h, n.drop_last()) {
            assert(lower(n[n.len() - 1]) == lower(m[n.len() - 1]));
            hits_ignore_case(h, g, n.last(), m.last(), after(pos));
        }
    }
}

proof fn worths_ignore_case(h: Seq<char>, g: Seq<char>, pos: Seq<int>, n: int)
    requires
        same_folded(h, g),
        n <= pos.len(),
        forall|k: int| 0 <= k < pos.len() ==> 0 <= #[trigger] pos[k] < h.len(),
    ensures
        total_worth(h, pos, n) == total_worth(g, pos, n),
    decreases n,
{
    if n > 0 {
        worths_ignore_case(h, g, pos, n - 1);
        assert(0 <= pos[n - 1] < h.len());
        if pos[n - 1] > 0 {
            assert(lower(h[pos[n - 1] - 1]) == lower(g[pos[n - 1] - 1]));
        }
    }
}

/// Matching ignores case, in the text as in what is looked for.
pub proof fn matching_ignores_case(h: Seq<char>, g: Seq<char>, n: Seq<char>, m: Seq<char>)
    requires
        same_folded(h, g),
        same_folded(n, m),
    ensures
        match_of(h, n) == match_of(g, m),
{
    substrings_ignore_case(h, g, n, m, 0);
    leftmost_ignores_case(h, g, n, m);
    if n.len() > 0 {
        match substring_at(h, n, 0) {
            Some(at) => {
                substring_is_first(h, n, 0);
                if at > 0 {
                    assert(lower(h[at - 1]) == lower(g[at - 1]));
                    assert(boundary(h[at - 1]) == boundary(g[at - 1]));
                }
                assert(literal_score(h, n, at) == literal_score(g, m, at));
                assert((match_of(h, n)->0).indices =~= (match_of(g, m)->0).indices);
            },
            None => {
                if let Some(pos) = leftmost(h, n) {
                    worths_ignore_case(h, g, pos, pos.len() as int);
                }
            },
        }
    }
}

/// A literal hit at the very start of a text is worth more than one at the start of a
/// word, and that more than one inside a word, as long as the text is not so long that
/// none of this counts; and the longer of two texts is worth no more for the same hit.
pub proof fn literal_hits_at_the_start_win(
    hay: Seq<char>,
    other: Seq<char>,
    nee: Seq<char>,
    at: int,
    inside: int,
)
    requires
        hay.len() < 160,
        other.len() == hay.len(),
        nee.len() >= 5,
        0 < at < hay.len(),
        0 < inside < other.len(),
        boundary(hay[at - 1]),
        !boundary(other[inside - 1]),
    ensures
        literal_score(hay, nee, 0) > literal_score(hay, nee, at),
        literal_score(hay, nee, at) > literal_score(other, nee, inside),
        forall|longer: Seq<char>|
            longer.len() >= hay.len() ==> #[trigger] literal_score(longer, nee, 0)
                <= literal_score(hay, nee, 0),
{
}

/// Words end at these characters.
pub proof fn words_end_at_punctuation(c: char)
    ensures
        boundary(c) <==> seq!['-', '_', '/', '.', ':', ' ', '@'].contains(c),
{
    let all = seq!['-', '_', '/', '.', ':', ' ', '@'];
    if boundary(c) {
        assert(all[0] == '-' && all[1] == '_' && all[2] == '/' && all[3] == '.' && all[4] == ':'
            && all[5] == ' ' && all[6] == '@');
    }
}

/// In a scattered match a character next to the last one is worth more than one that is
/// not, the longer the run the more; and one at the start of a word more than one inside.
pub proof fn runs_are_worth_more(hay: Seq<char>, pos: Seq<int>, k: int)
    requires
        0 < k < pos.len(),
        0 < pos[k - 1] < pos[k] < hay.len(),
    ensures
        pos[k] == pos[k - 1] + 1 && !boundary(hay[pos[k - 1] - 1]) ==> worth(hay, pos, k) > worth(
            hay,
            pos,
            k - 1,
        ),
        pos[k] != pos[k - 1] + 1 && boundary(hay[pos[k] - 1]) ==> worth(hay, pos, k) == 16,
        pos[k] != pos[k - 1] + 1 && !boundary(hay[pos[k] - 1]) ==> worth(hay, pos, k) == 8,
{
}

} // verus!
