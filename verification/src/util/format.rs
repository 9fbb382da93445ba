//! Human-friendly formatting helpers shared by every view.

use unicode_width::UnicodeWidthChar;
use vstd::prelude::*;
use vstd::utf8::{encode_scalar, encode_utf8};

use crate::text::{
    begins, begins_with, cat2, chars_of, dec, decimal, digit_char, owned, string_between,
};

verus! {

broadcast use vstd::string::group_string_axioms;

// ---------------------------------------------------------------------------
// Byte counts
// ---------------------------------------------------------------------------

/// The quotient rounded to the nearest whole number, halves to the even one.
pub open spec fn half_even(n: nat, d: nat) -> nat {
    let q = n / d;
    let r = n % d;
    if 2 * r < d || (2 * r == d && q % 2 == 0) {
        q
    } else {
        q + 1
    }
}

/// The gap between neighbouring double-precision numbers around `n`.
pub open spec fn gap(n: nat) -> nat
    decreases n,
{
    if n < 0x20_0000_0000_0000 {
        1
    } else {
        2 * gap(n / 2)
    }
}

/// `n` rounded to the 53 bits a double-precision number carries.
pub open spec fn to_double(n: nat) -> nat {
    half_even(n, gap(n)) * gap(n)
}

/// 1024 to the power `k`.
pub open spec fn kilo(k: nat) -> nat
    decreases k,
{
    if k == 0 {
        1
    } else {
        1024 * kilo((k - 1) as nat)
    }
}

/// The unit `d` bytes are written in: the first, from `k` on, that leaves
/// fewer than a thousand, or the largest there is.
pub open spec fn unit_from(d: nat, k: nat) -> nat
    decreases 5 - k,
{
    if k >= 5 || d < 1000 * kilo(k) {
        k
    } else {
        unit_from(d, k + 1)
    }
}

/// The suffix of unit `k`.
pub open spec fn unit_name(k: nat) -> Seq<char> {
    if k == 0 {
        "B"@
    } else if k == 1 {
        "kB"@
    } else if k == 2 {
        "MB"@
    } else if k == 3 {
        "GB"@
    } else if k == 4 {
        "TB"@
    } else {
        "PB"@
    }
}

/// `d / u` in decimal with three significant digits or so.
pub open spec fn three_digits(d: nat, u: nat) -> Seq<char> {
    if d >= 100 * u {
        dec(half_even(d, u))
    } else if d >= 10 * u {
        let t = half_even(d * 10, u);
        dec(t / 10).push('.').push(digit_char((t % 10) as int))
    } else {
        let h = half_even(d * 100, u);
        dec(h / 100).push('.').push(digit_char((h / 10 % 10) as int)).push(
            digit_char((h % 10) as int),
        )
    }
}

/// A byte count as the UI writes it. The figure is worked out in double
/// precision, so a count too large for that is rounded first.
pub open spec fn bytes_text(n: nat) -> Seq<char> {
    if n < 1000 {
        dec(n) + "B"@
    } else {
        let d = to_double(n);
        let k = unit_from(d, 0);
        three_digits(d, kilo(k)) + unit_name(k)
    }
}

fn nearest(n: u128, d: u128) -> (out: u128)
    requires
        d > 0,
        n < 0x1_0000_0000_0000_0000_0000,
        d < 0x1_0000_0000_0000_0000_0000,
    ensures
        out == half_even(n as nat, d as nat),
{
    let q: u128 = n / d;
    let r: u128 = n % d;
    if 2 * r < d || (2 * r == d && q % 2 == 0) {
        q
    } else {
        q + 1
    }
}

fn double_of(n: u64) -> (out: u128)
    ensures
        out == to_double(n as nat),
        out <= 0x2_0000_0000_0000_0000,
{
    let mut m: u64 = n;
    let mut u: u128 = 1;
    while m >= 0x20_0000_0000_0000
        invariant
            gap(n as nat) == u * gap(m as nat),
            1 <= u,
            u * m <= n,
            u <= n || u == 1,
        decreases m,
    {
        let ghost (m0, u0) = (m as nat, u as nat);
        proof {
            assert(u0 * gap(m0) == u0 * (2 * gap(m0 / 2)));
            assert(u0 * (2 * gap(m0 / 2)) == (2 * u0) * gap(m0 / 2)) by (nonlinear_arith);
            assert((2 * u0) * (m0 / 2) <= u0 * m0) by (nonlinear_arith);
            assert(2 * u0 <= u0 * m0) by (nonlinear_arith)
                requires
                    m0 >= 2,
            ;
        }
        m = m / 2;
        u = u * 2;
    }
    assert(gap(n as nat) == u) by {
        assert(gap(m as nat) == 1);
        assert(u * gap(m as nat) == u) by (nonlinear_arith)
            requires
                gap(m as nat) == 1,
        ;
    }
    let q = nearest(n as u128, u);
    proof {
        let (nn, uu) = (n as nat, u as nat);
        vstd::arithmetic::div_mod::lemma_fundamental_div_mod(nn as int, uu as int);
        assert((nn / uu) * uu <= nn) by (nonlinear_arith)
            requires
                nn == uu * (nn / uu) + nn % uu,
                uu > 0,
        ;
        assert(q * uu <= nn + uu) by (nonlinear_arith)
            requires
                q <= nn / uu + 1,
                (nn / uu) * uu <= nn,
        ;
    }
    q * u
}

fn kilo_of(k: u32) -> (out: u128)
    requires
        k <= 5,
    ensures
        out == kilo(k as nat),
        1 <= out <= 0x4_0000_0000_0000,
{
    reveal_with_fuel(kilo, 6);
    if k == 0 {
        1
    } else if k == 1 {
        1024
    } else if k == 2 {
        1_048_576
    } else if k == 3 {
        1_073_741_824
    } else if k == 4 {
        1_099_511_627_776
    } else {
        1_125_899_906_842_624
    }
}

fn digit_of(d: u128) -> (out: char)
    requires
        d < 10,
    ensures
        out == digit_char(d as int),
{
    (48u8 + d as u8) as char
}

/// Format a byte count the way the Docker CLI does: 3 significant-ish digits
/// with a binary-ish suffix (`1.2GB`, `812MB`, `4.0kB`).
pub fn bytes(n: u64) -> (out: String)
    ensures
        out@ == bytes_text(n as nat),
{
    if n < 1000 {
        return cat2(&decimal(n), "B");
    }
    let d = double_of(n);
    let mut unit: u32 = 0;
    while unit < 5 && d >= 1000 * kilo_of(unit)
        invariant
            unit <= 5,
            unit_from(d as nat, 0) == unit_from(d as nat, unit as nat),
        decreases 5 - unit,
    {
        unit += 1;
    }
    let u = kilo_of(unit);
    proof {
        reveal_with_fuel(kilo, 6);
        assert(unit_from(d as nat, unit as nat) == unit);
    }
    let mut out: String;
    if d >= 100 * u {
        let w = nearest(d, u);
        proof {
            whole_part_fits(d as nat, u as nat, unit as nat);
        }
        out = decimal(w as u64);
    } else if d >= 10 * u {
        let t = nearest(d * 10, u);
        proof {
            small_part_fits(d as nat, u as nat, 10);
        }
        out = decimal((t / 10) as u64);
        out.push('.');
        out.push(digit_of(t % 10));
    } else {
        let h = nearest(d * 100, u);
        proof {
            small_part_fits(d as nat, u as nat, 100);
        }
        out = decimal((h / 100) as u64);
        out.push('.');
        out.push(digit_of(h / 10 % 10));
        out.push(digit_of(h % 10));
    }
    let name = if unit == 0 {
        "B"
    } else if unit == 1 {
        "kB"
    } else if unit == 2 {
        "MB"
    } else if unit == 3 {
        "GB"
    } else if unit == 4 {
        "TB"
    } else {
        "PB"
    };
    cat2(&out, name)
}

proof fn quotient_fits(n: nat, d: nat, bound: nat)
    by (nonlinear_arith)
    requires
        d > 0,
        n <= bound * d,
    ensures
        n / d <= bound,
{
}

proof fn whole_part_fits(d: nat, u: nat, unit: nat)
    requires
        d <= 0x2_0000_0000_0000_0000,
        unit <= 5,
        u == kilo(unit),
        unit == unit_from(d, 0),
    ensures
        half_even(d, u) < 0x1_0000_0000_0000_0000,
{
    reveal_with_fuel(kilo, 6);
    reveal_with_fuel(unit_from, 7);
    if unit < 5 {
        assert(d < 1000 * u);
        quotient_fits(d, u, 1000);
    } else {
        quotient_fits(d, u, 0x2_0000_0000_0000_0000);
        assert(d / u <= d / 1_125_899_906_842_624);
    }
}

proof fn small_part_fits(d: nat, u: nat, m: nat)
    requires
        u > 0,
        d < 100 * u,
        m <= 100,
    ensures
        half_even(d * m, u) <= 10001,
{
    assert(d * m <= 10000 * u) by (nonlinear_arith)
        requires
            d < 100 * u,
            m <= 100,
    ;
    quotient_fits(d * m, u, 10000);
}

/// A count that may be unknown.
pub open spec fn bytes_or_dash(n: int) -> Seq<char> {
    if n <= 0 {
        "-"@
    } else {
        bytes_text(n as nat)
    }
}

/// Same as [`bytes`] but tolerant of the signed counts Docker hands back.
pub fn bytes_i64(n: i64) -> (out: String)
    ensures
        out@ == bytes_or_dash(n as int),
{
    if n <= 0 {
        owned("-")
    } else {
        bytes(n as u64)
    }
}

// ---------------------------------------------------------------------------
// Durations
// ---------------------------------------------------------------------------

/// A number of seconds in its largest whole unit.
pub open spec fn duration_text(secs: int) -> Seq<char> {
    if secs <= 0 {
        dec(0) + "s"@
    } else if secs < 60 {
        dec(secs as nat) + "s"@
    } else if secs < 3_600 {
        dec((secs / 60) as nat) + "m"@
    } else if secs < 86_400 {
        dec((secs / 3_600) as nat) + "h"@
    } else if secs < 2_592_000 {
        dec((secs / 86_400) as nat) + "d"@
    } else if secs < 31_536_000 {
        dec((secs / 2_592_000) as nat) + "mo"@
    } else {
        dec((secs / 31_536_000) as nat) + "y"@
    }
}

/// A short, chatty duration: `3s`, `12m`, `4h`, `9d`, `2mo`, `3y`.
pub fn duration_short(secs: i64) -> (out: String)
    ensures
        out@ == duration_text(secs as int),
{
    let s: u64 = if secs < 0 {
        0
    } else {
        secs as u64
    };
    if s < 60 {
        cat2(&decimal(s), "s")
    } else if s < 3_600 {
        cat2(&decimal(s / 60), "m")
    } else if s < 86_400 {
        cat2(&decimal(s / 3_600), "h")
    } else if s < 2_592_000 {
        cat2(&decimal(s / 86_400), "d")
    } else if s < 31_536_000 {
        cat2(&decimal(s / 2_592_000), "mo")
    } else {
        cat2(&decimal(s / 31_536_000), "y")
    }
}

/// The seconds from `then` to `now`, as far as an `i64` can say.
pub open spec fn elapsed(now: int, then: int) -> int {
    if now - then > i64::MAX {
        i64::MAX as int
    } else if now - then < i64::MIN {
        i64::MIN as int
    } else {
        now - then
    }
}

/// The seconds from `then` to `now`, as far as an `i64` can say.
pub fn seconds_between(now: i64, then: i64) -> (out: i64)
    ensures
        out == elapsed(now as int, then as int),
{
    let d: i128 = now as i128 - then as i128;
    if d > i64::MAX as i128 {
        i64::MAX
    } else if d < i64::MIN as i128 {
        i64::MIN
    } else {
        d as i64
    }
}

/// `"4d ago"`-style text for a unix timestamp, seen from `now`.
pub open spec fn age_text(now: int, epoch_secs: int) -> Seq<char> {
    if epoch_secs <= 0 {
        "-"@
    } else {
        duration_text(elapsed(now, epoch_secs)) + " ago"@
    }
}

/// `"4d ago"`-style text for a unix timestamp, seen from `now`.
pub fn age_at(now: i64, epoch_secs: i64) -> (out: String)
    ensures
        out@ == age_text(now as int, epoch_secs as int),
{
    if epoch_secs <= 0 {
        return owned("-");
    }
    cat2(&duration_short(seconds_between(now, epoch_secs)), " ago")
}

/// `chrono::Utc::now` read as whole seconds since the Unix epoch. The reading
/// is the machine's; all that is said of it is that it is not negative.
#[verifier::external_body]
pub(crate) fn unix_now() -> (out: i64)
    ensures
        out >= 0,
{
    chrono::Utc::now().timestamp()
}

/// `"4d ago"`-style text for a unix timestamp, used in detail panes.
pub fn age_from_epoch(epoch_secs: i64) -> (out: String)
    ensures
        exists|now: i64| now >= 0 && out@ == #[trigger] age_text(now as int, epoch_secs as int),
{
    let now = unix_now();
    age_at(now, epoch_secs)
}

// ---------------------------------------------------------------------------
// Ids
// ---------------------------------------------------------------------------

/// `id` without the name of its digest.
pub open spec fn bare_id(id: Seq<char>) -> Seq<char> {
    if begins(id, "sha256:"@) {
        id.skip(7)
    } else {
        id
    }
}

/// The 12-character prefix Docker shows everywhere.
pub open spec fn short(id: Seq<char>) -> Seq<char> {
    if bare_id(id).len() <= 12 {
        bare_id(id)
    } else {
        bare_id(id).take(12)
    }
}

/// The 12-character prefix Docker shows everywhere. Strips a `sha256:` prefix.
pub fn short_id(id: &str) -> (out: String)
    ensures
        out@ == short(id@),
{
    let v = chars_of(id);
    proof {
        reveal_strlit("sha256:");
    }
    let from: usize = if begins_with(&v, "sha256:") {
        7
    } else {
        0
    };
    let to: usize = if v.len() - from <= 12 {
        v.len()
    } else {
        from + 12
    };
    assert(v@.subrange(from as int, to as int) =~= short(id@));
    string_between(&v, from, to)
}

// ---------------------------------------------------------------------------
// Display width
// ---------------------------------------------------------------------------

/// What `unicode_width` says a character occupies, in terminal cells; `None`
/// for a control character.
pub uninterp spec fn cells(c: char) -> Option<usize>;

/// `unicode_width::UnicodeWidthChar::width`. Control characters, and only
/// they, have no width; printable ASCII and the ellipsis take one cell; nothing
/// takes more than three, or more than one if it precedes U+0800.
#[verifier::external_body]
fn char_cells(c: char) -> (out: Option<usize>)
    ensures
        out == cells(c),
        out is None <==> (c as u32) < 0x20 || 0x7F <= (c as u32) < 0xA0,
        0x20 <= (c as u32) < 0x7F ==> out == Some(1usize),
        c == '…' ==> out == Some(1usize),
        out matches Some(w) ==> w <= 3 && ((c as u32) < 0x800 ==> w <= 1),
{
    c.width()
}

/// How many cells a character takes up on screen.
pub open spec fn cell_of(c: char) -> nat {
    match cells(c) {
        Some(w) => w as nat,
        None => 0,
    }
}

fn cell(c: char) -> (out: usize)
    ensures
        out == cell_of(c),
        out <= 3,
        out <= encode_scalar(c as u32).len(),
        c == '…' ==> out == 1,
        0x20 <= (c as u32) < 0x7F ==> out == 1,
{
    match char_cells(c) {
        Some(w) => w,
        None => 0,
    }
}

/// Display width of a string in terminal cells.
pub open spec fn text_width(s: Seq<char>) -> nat
    decreases s.len(),
{
    if s.len() == 0 {
        0
    } else {
        text_width(s.drop_last()) + cell_of(s.last())
    }
}

/// Text that a typewriter could have written.
pub open spec fn printable_ascii(s: Seq<char>) -> bool {
    forall|i: int| 0 <= i < s.len() ==> 0x20 <= (#[trigger] s[i]) as u32 && (s[i] as u32) < 0x7F
}

/// Display width of a string in terminal cells: in plain ASCII, as many as there
/// are characters.
pub fn width(s: &str) -> (out: usize)
    ensures
        out == text_width(s@),
        printable_ascii(s@) ==> out == s@.len(),
{
    let v = chars_of(s);
    let total: usize = s.as_bytes().len();
    let mut used: usize = 0;
    let mut i: usize = 0;
    let ghost bytes = encode_utf8(s@);
    proof {
        assert(v@.skip(0) =~= v@);
        assert(v@.take(0) =~= Seq::<char>::empty());
    }
    while i < v.len()
        invariant
            i <= v.len(),
            used == text_width(v@.take(i as int)),
            v@ == s@,
            printable_ascii(s@) ==> used == i,
            used + encode_utf8(v@.skip(i as int)).len() <= bytes.len(),
            bytes.len() == total,
        decreases v.len() - i,
    {
        assert(v@.skip(i as int)[0] == v@[i as int]);
        assert(v@.skip(i as int).drop_first() =~= v@.skip(i + 1));
        assert(v@.take(i + 1).drop_last() =~= v@.take(i as int));
        used += cell(v[i]);
        i += 1;
    }
    assert(v@.take(v@.len() as int) =~= v@);
    used
}

// ---------------------------------------------------------------------------
// Truncation
// ---------------------------------------------------------------------------

/// How many leading characters of `s` fit in `budget` cells.
pub open spec fn fitting(s: Seq<char>, budget: int) -> nat
    decreases s.len(),
{
    if s.len() == 0 || cell_of(s[0]) > budget {
        0
    } else {
        1 + fitting(s.drop_first(), budget - cell_of(s[0]))
    }
}

/// How many trailing characters of `s` fit in `budget` cells.
pub open spec fn fitting_back(s: Seq<char>, budget: int) -> nat
    decreases s.len(),
{
    if s.len() == 0 || cell_of(s.last()) > budget {
        0
    } else {
        1 + fitting_back(s.drop_last(), budget - cell_of(s.last()))
    }
}

/// What marks the place where a text was cut: an ellipsis, or what stands for one
/// on a screen that has only ASCII.
pub open spec fn cut_mark(ascii: bool) -> char {
    if ascii {
        '~'
    } else {
        '…'
    }
}

/// `s` cut to `max` cells from the right, the cut being marked.
pub open spec fn cut_end_in(ascii: bool, s: Seq<char>, max: nat) -> Seq<char> {
    if max == 0 {
        Seq::empty()
    } else if text_width(s) <= max {
        s
    } else {
        s.take(fitting(s, max - 1) as int).push(cut_mark(ascii))
    }
}

/// `s` cut to `max` cells from the left, the cut being marked.
pub open spec fn cut_start_in(ascii: bool, s: Seq<char>, max: nat) -> Seq<char> {
    if max == 0 {
        Seq::empty()
    } else if text_width(s) <= max {
        s
    } else {
        seq![cut_mark(ascii)] + s.skip(s.len() - fitting_back(s, max - 1))
    }
}

/// `s` cut to `max` cells from the right, an ellipsis marking the cut.
pub open spec fn cut_end(s: Seq<char>, max: nat) -> Seq<char> {
    cut_end_in(false, s, max)
}

/// `s` cut to `max` cells from the left, an ellipsis marking the cut.
pub open spec fn cut_start(s: Seq<char>, max: nat) -> Seq<char> {
    cut_start_in(false, s, max)
}

fn mark(ascii: bool) -> (out: char)
    ensures
        out == cut_mark(ascii),
{
    if ascii {
        '~'
    } else {
        '…'
    }
}

/// Truncate to `max` display columns, appending `…` when anything was cut.
/// Operates on display width rather than bytes so CJK and emoji don't overflow
/// their column.
pub fn truncate(s: &str, max: usize) -> (out: String)
    ensures
        out@ == cut_end(s@, max as nat),
        text_width(out@) <= max,
        cut_end(out@, max as nat) == out@,
        printable_ascii(s@) && s@.len() <= max ==> out@ == s@,
{
    truncate_in(false, s, max)
}

/// Truncate from the left instead, keeping the tail (useful for long paths and
/// registry-qualified image names where the interesting part is at the end).
pub fn truncate_start(s: &str, max: usize) -> (out: String)
    ensures
        out@ == cut_start(s@, max as nat),
        text_width(out@) <= max,
        cut_start(out@, max as nat) == out@,
        printable_ascii(s@) && s@.len() <= max ==> out@ == s@,
{
    truncate_start_in(false, s, max)
}

/// Truncate to `max` display columns for a screen that may have only ASCII.
pub fn truncate_in(ascii: bool, s: &str, max: usize) -> (out: String)
    ensures
        out@ == cut_end_in(ascii, s@, max as nat),
        text_width(out@) <= max,
        cut_end_in(ascii, out@, max as nat) == out@,
        printable_ascii(s@) && s@.len() <= max ==> out@ == s@,
{
    if max == 0 {
        assert(s@.len() == 0 ==> Seq::<char>::empty() =~= s@);
        return String::new();
    }
    if width(s) <= max {
        return owned(s);
    }
    let v = chars_of(s);
    let budget: usize = max - 1;
    let mut out = String::new();
    let mut used: usize = 0;
    let mut i: usize = 0;
    assert(v@.skip(0) =~= v@);
    assert(v@.take(0) =~= Seq::<char>::empty());
    while i < v.len() && cell(v[i]) <= budget - used
        invariant
            i <= v.len(),
            used <= budget,
            out@ == v@.take(i as int),
            fitting(v@, budget as int) == i + fitting(v@.skip(i as int), budget - used),
        decreases v.len() - i,
    {
        assert(v@.skip(i as int)[0] == v@[i as int]);
        assert(v@.skip(i as int).drop_first() =~= v@.skip(i + 1));
        assert(v@.take(i + 1) =~= v@.take(i as int).push(v@[i as int]));
        used += cell(v[i]);
        out.push(v[i]);
        i += 1;
    }
    proof {
        if i < v.len() {
            assert(v@.skip(i as int)[0] == v@[i as int]);
        }
        assert(fitting(v@.skip(i as int), budget - used) == 0);
        fitting_fits(v@, budget as int);
    }
    let sign = mark(ascii);
    let wide: usize = cell(sign);
    let ghost head = out@;
    out.push(sign);
    assert(out@.drop_last() =~= head);
    assert(text_width(out@) == text_width(head) + wide);
    out
}

/// Truncate from the left for a screen that may have only ASCII.
pub fn truncate_start_in(ascii: bool, s: &str, max: usize) -> (out: String)
    ensures
        out@ == cut_start_in(ascii, s@, max as nat),
        text_width(out@) <= max,
        cut_start_in(ascii, out@, max as nat) == out@,
        printable_ascii(s@) && s@.len() <= max ==> out@ == s@,
{
    if max == 0 {
        assert(s@.len() == 0 ==> Seq::<char>::empty() =~= s@);
        return String::new();
    }
    if width(s) <= max {
        return owned(s);
    }
    let v = chars_of(s);
    let budget: usize = max - 1;
    let mut used: usize = 0;
    let mut i: usize = v.len();
    assert(v@.take(i as int) =~= v@);
    while i > 0 && cell(v[i - 1]) <= budget - used
        invariant
            i <= v.len(),
            used <= budget,
            fitting_back(v@, budget as int) == (v.len() - i) + fitting_back(
                v@.take(i as int),
                budget - used,
            ),
        decreases i,
    {
        assert(v@.take(i as int).last() == v@[i - 1]);
        assert(v@.take(i as int).drop_last() =~= v@.take(i - 1));
        used += cell(v[i - 1]);
        i -= 1;
    }
    let sign = mark(ascii);
    let wide: usize = cell(sign);
    proof {
        if i > 0 {
            assert(v@.take(i as int).last() == v@[i - 1]);
        }
        assert(fitting_back(v@.take(i as int), budget - used) == 0);
        assert(v@.skip(i as int) =~= v@.subrange(i as int, v@.len() as int));
        fitting_back_fits(v@, budget as int);
        widths_add(seq![sign], v@.skip(i as int));
        width_of_one(sign);
    }
    assert(text_width(seq![sign] + v@.skip(i as int)) == wide + text_width(v@.skip(i as int)));
    let mut head = String::new();
    head.push(sign);
    assert(head@ =~= seq![sign]);
    cat2(&head, &string_between(&v, i, v.len()))
}

// ---------------------------------------------------------------------------
// What truncation promises
// ---------------------------------------------------------------------------

/// Widths add up.
pub proof fn widths_add(a: Seq<char>, b: Seq<char>)
    ensures
        text_width(a + b) == text_width(a) + text_width(b),
    decreases b.len(),
{
    if b.len() == 0 {
        assert(a + b =~= a);
    } else {
        widths_add(a, b.drop_last());
        assert((a + b).drop_last() =~= a + b.drop_last());
        assert((a + b).last() == b.last());
    }
}

proof fn width_of_one(c: char)
    ensures
        text_width(seq![c]) == cell_of(c),
{
    assert(seq![c].drop_last() =~= Seq::<char>::empty());
    assert(text_width(Seq::<char>::empty()) == 0);
}

proof fn fitting_fits(s: Seq<char>, budget: int)
    requires
        budget >= 0,
    ensures
        fitting(s, budget) <= s.len(),
        text_width(s.take(fitting(s, budget) as int)) <= budget,
    decreases s.len(),
{
    let n = fitting(s, budget) as int;
    if n > 0 {
        fitting_fits(s.drop_first(), budget - cell_of(s[0]));
        assert(s.take(n) =~= seq![s[0]] + s.drop_first().take(n - 1));
        widths_add(seq![s[0]], s.drop_first().take(n - 1));
        width_of_one(s[0]);
    } else {
        assert(s.take(0) =~= Seq::<char>::empty());
    }
}

proof fn fitting_back_fits(s: Seq<char>, budget: int)
    requires
        budget >= 0,
    ensures
        fitting_back(s, budget) <= s.len(),
        text_width(s.skip(s.len() - fitting_back(s, budget))) <= budget,
    decreases s.len(),
{
    let n = fitting_back(s, budget) as int;
    if n > 0 {
        let low = s.drop_last();
        fitting_back_fits(low, budget - cell_of(s.last()));
        assert(s.skip(s.len() - n) =~= low.skip(low.len() - (n - 1)).push(s.last()));
        assert(s.skip(s.len() - n).drop_last() =~= low.skip(low.len() - (n - 1)));
    } else {
        assert(s.skip(s.len() as int) =~= Seq::<char>::empty());
    }
}

} // verus!
