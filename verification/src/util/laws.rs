//! What a figure on screen says can be read back, and what is cut off is marked.

use vstd::prelude::*;

use crate::text::{dec, digit_char};
use crate::util::clipboard::osc52_text;
use crate::util::format::{
    age_text, bytes_text, cell_of, cut_end_in, cut_mark, cut_start_in, duration_text, elapsed,
    fitting, fitting_back, gap, half_even, kilo, short, text_width, three_digits, to_double,
    unit_from, widths_add,
};

verus! {

broadcast use vstd::string::group_string_axioms;

// ---------------------------------------------------------------------------
// Numbers
// ---------------------------------------------------------------------------

/// The number that some digits stand for.
pub open spec fn number(digits: Seq<char>) -> int
    decreases digits.len(),
{
    if digits.len() == 0 {
        0
    } else {
        10 * number(digits.drop_last()) + (digits.last() as int - '0' as int)
    }
}

/// A number in decimal reads back as that number, is digits only, and has no zero in
/// front that it could do without.
pub proof fn numbers_read_back(n: nat)
    ensures
        number(dec(n)) == n,
        dec(n).len() > 0,
        forall|i: int| 0 <= i < dec(n).len() ==> '0' <= #[trigger] dec(n)[i] <= '9',
        n > 0 ==> dec(n)[0] != '0',
    decreases n,
{
    if n < 10 {
        let s = seq![digit_char(n as int)];
        assert(s.drop_last() =~= Seq::<char>::empty());
        assert(number(Seq::<char>::empty()) == 0);
        assert(s.last() as int == 48 + n);
    } else {
        numbers_read_back(n / 10);
        let low = dec(n / 10);
        let s = low.push(digit_char((n % 10) as int));
        assert(s.drop_last() =~= low);
        assert(s.last() as int == 48 + n % 10);
        assert(s[0] == low[0]);
        assert forall|i: int| 0 <= i < s.len() implies '0' <= #[trigger] s[i] <= '9' by {
            if i < low.len() {
                assert(s[i] == low[i]);
            }
        }
    }
}

// ---------------------------------------------------------------------------
// Durations
// ---------------------------------------------------------------------------

/// The seconds that a unit of time stands for.
pub open spec fn worth(unit: Seq<char>) -> int {
    if unit == "m"@ {
        60
    } else if unit == "h"@ {
        3_600
    } else if unit == "d"@ {
        24 * 3_600int
    } else if unit == "mo"@ {
        30 * 24 * 3_600int
    } else if unit == "y"@ {
        365 * 24 * 3_600int
    } else {
        1
    }
}

/// Whether a text says that `n` whole units of a kind have gone by after `secs` seconds.
pub open spec fn says(text: Seq<char>, n: nat, unit: Seq<char>, secs: int) -> bool {
    text == dec(n) + unit && n * worth(unit) <= secs < (n + 1) * worth(unit)
}

proof fn units_are_told_apart()
    ensures
        worth("s"@) == 1,
        worth("m"@) == 60,
        worth("h"@) == 3_600,
        worth("d"@) == 86_400,
        worth("mo"@) == 2_592_000,
        worth("y"@) == 31_536_000,
{
    reveal_strlit("s");
    reveal_strlit("m");
    reveal_strlit("h");
    reveal_strlit("d");
    reveal_strlit("mo");
    reveal_strlit("y");
    assert("s"@[0] == 's' && "m"@[0] == 'm' && "h"@[0] == 'h' && "d"@[0] == 'd' && "y"@[0] == 'y');
    assert("mo"@.len() == 2 && "s"@.len() == 1 && "m"@.len() == 1);
    assert("mo"@[0] == 'm');
}

proof fn whole_units(secs: int, unit: int)
    by (nonlinear_arith)
    requires
        secs >= 0,
        unit > 0,
    ensures
        (secs / unit) * unit <= secs < (secs / unit + 1) * unit,
        secs / unit >= 0,
{
}

/// A duration is written in whole units of one kind, rounded down, the largest kind of
/// which at least one has gone by.
pub proof fn durations_are_in_whole_units(secs: int)
    requires
        secs >= 1,
    ensures
        secs < 60 ==> exists|n: nat| n >= 1 && says(duration_text(secs), n, "s"@, secs),
        60 <= secs < 3_600 ==> exists|n: nat| n >= 1 && says(duration_text(secs), n, "m"@, secs),
        3_600 <= secs < 86_400 ==> exists|n: nat|
            n >= 1 && says(duration_text(secs), n, "h"@, secs),
        86_400 <= secs < 30 * 86_400 ==> exists|n: nat|
            n >= 1 && says(duration_text(secs), n, "d"@, secs),
        30 * 86_400 <= secs < 365 * 86_400 ==> exists|n: nat|
            n >= 1 && says(duration_text(secs), n, "mo"@, secs),
        365 * 86_400 <= secs ==> exists|n: nat| n >= 1 && says(duration_text(secs), n, "y"@, secs),
{
    units_are_told_apart();
    whole_units(secs, 60);
    whole_units(secs, 3_600);
    whole_units(secs, 86_400);
    whole_units(secs, 2_592_000);
    whole_units(secs, 31_536_000);
    if secs < 60 {
        assert(says(duration_text(secs), secs as nat, "s"@, secs));
    } else if secs < 3_600 {
        assert(says(duration_text(secs), (secs / 60) as nat, "m"@, secs));
    } else if secs < 86_400 {
        assert(says(duration_text(secs), (secs / 3_600) as nat, "h"@, secs));
    } else if secs < 2_592_000 {
        assert(says(duration_text(secs), (secs / 86_400) as nat, "d"@, secs));
    } else if secs < 31_536_000 {
        assert(says(duration_text(secs), (secs / 2_592_000) as nat, "mo"@, secs));
    } else {
        assert(says(duration_text(secs), (secs / 31_536_000) as nat, "y"@, secs));
    }
}

/// An age is the time from then to now; what never was has none, and what is yet to come
/// is new.
pub proof fn ages_run_from_then_to_now(then: i64, ago: int)
    requires
        then + ago <= i64::MAX,
        0 <= ago,
    ensures
        then > 0 ==> age_text(then + ago, then as int) == duration_text(ago) + " ago"@,
        then <= 0 ==> age_text(then + ago, then as int) == "-"@,
        ago > 0 ==> duration_text(-ago) == duration_text(0),
{
    assert(then > 0 ==> elapsed(then + ago, then as int) == ago);
}

// ---------------------------------------------------------------------------
// Sizes
// ---------------------------------------------------------------------------

/// Rounding to a whole number of units is off by half a unit at most.
pub proof fn rounding_is_to_the_nearest(n: nat, d: nat)
    requires
        d > 0,
    ensures
        2 * (half_even(n, d) * d) <= 2 * n + d,
        2 * n <= 2 * (half_even(n, d) * d) + d,
{
    let q = n / d;
    let r = n % d;
    assert(n == q * d + r && r < d) by (nonlinear_arith)
        requires
            d > 0,
            q == n / d,
            r == n % d,
    ;
    assert((q + 1) * d == q * d + d) by (nonlinear_arith);
}

/// A size below a thousand bytes is exact. A larger one is written in the unit, a power
/// of 1024, that leaves fewer than a thousand of it, as far as the units go.
pub proof fn sizes_are_in_the_fitting_unit(n: nat)
    requires
        n < 0x20_0000_0000_0000,
    ensures
        n < 1_000 ==> bytes_text(n) == dec(n) + "B"@,
        1_000 <= n < 1_000 * 1_024 ==> bytes_text(n) == three_digits(n, 1_024) + "kB"@,
        1_000 * 1_024 <= n < 1_000 * 1_048_576 ==> bytes_text(n) == three_digits(n, 1_048_576)
            + "MB"@,
        1_000 * 1_048_576 <= n < 1_000 * 1_073_741_824 ==> bytes_text(n) == three_digits(
            n,
            1_073_741_824,
        ) + "GB"@,
        1_000 * 1_073_741_824 <= n < 1_000 * 1_099_511_627_776 ==> bytes_text(n) == three_digits(
            n,
            1_099_511_627_776,
        ) + "TB"@,
        1_000 * 1_099_511_627_776 <= n ==> bytes_text(n) == three_digits(n, 1_125_899_906_842_624)
            + "PB"@,
{
    reveal_with_fuel(kilo, 6);
    reveal_with_fuel(unit_from, 7);
    assert(gap(n) == 1);
    assert(n / 1 == n && n % 1 == 0) by (nonlinear_arith);
    assert(to_double(n) == n);
}

/// The figure of a size has three digits: as many after the point as leaves room for
/// those before it. Read as a whole number, without its point, it is the nearest to the
/// size in that part of the unit.
pub proof fn sizes_are_rounded_to_three_digits(d: nat, u: nat)
    requires
        u > 0,
        d < 1_000 * u,
    ensures
        d >= 100 * u ==> exists|q: nat|
            three_digits(d, u) == #[trigger] dec(q) && 2 * (q * u) <= 2 * d + u && 2 * d <= 2 * (q
                * u) + u,
        10 * u <= d < 100 * u ==> exists|q: nat|
            three_digits(d, u) == #[trigger] dec(q / 10) + seq!['.', digit_char((q % 10) as int)]
                && 2 * (q * u) <= 20 * d + u && 20 * d <= 2 * (q * u) + u,
        d < 10 * u ==> exists|q: nat|
            three_digits(d, u) == #[trigger] dec(q / 100) + seq![
                '.',
                digit_char((q / 10 % 10) as int),
                digit_char((q % 10) as int),
            ] && 2 * (q * u) <= 200 * d + u && 200 * d <= 2 * (q * u) + u,
{
    rounding_is_to_the_nearest(d, u);
    rounding_is_to_the_nearest(d * 10, u);
    rounding_is_to_the_nearest(d * 100, u);
    if d >= 100 * u {
        assert(three_digits(d, u) == dec(half_even(d, u)));
    } else if d >= 10 * u {
        let q = half_even(d * 10, u);
        assert(three_digits(d, u) =~= dec(q / 10) + seq!['.', digit_char((q % 10) as int)]);
    } else {
        let q = half_even(d * 100, u);
        assert(three_digits(d, u) =~= dec(q / 100) + seq![
            '.',
            digit_char((q / 10 % 10) as int),
            digit_char((q % 10) as int),
        ]);
    }
}

// ---------------------------------------------------------------------------
// Identifiers
// ---------------------------------------------------------------------------

/// An identifier is shown by its first twelve characters, the name of its digest left
/// out; a shorter one is shown whole.
pub proof fn identifiers_are_shown_by_their_beginning(id: Seq<char>)
    requires
        id.len() == 0 || id[0] != 's',
    ensures
        id.len() >= 12 ==> short(id) == id.take(12),
        id.len() <= 12 ==> short(id) == id,
        short("sha256:"@ + id) == short(id),
{
    reveal_strlit("sha256:");
    let long = "sha256:"@ + id;
    assert(long.skip(7) =~= id);
    assert(long.subrange(0, 7) =~= "sha256:"@);
    if id.len() >= 7 {
        assert(id.subrange(0, 7)[0] == id[0]);
        assert("sha256:"@[0] == 's');
    }
    assert(id.take(id.len() as int) =~= id);
}

// ---------------------------------------------------------------------------
// Cutting
// ---------------------------------------------------------------------------

proof fn as_many_as_fit(s: Seq<char>, budget: int)
    requires
        budget >= 0,
        text_width(s) > budget,
    ensures
        fitting(s, budget) < s.len(),
        text_width(s.take(fitting(s, budget) as int)) <= budget,
        text_width(s.take(fitting(s, budget) as int + 1)) > budget,
    decreases s.len(),
{
    let n = fitting(s, budget) as int;
    let first = seq![s[0]];
    assert(first.drop_last() =~= Seq::<char>::empty());
    assert(text_width(Seq::<char>::empty()) == 0);
    assert(text_width(first) == cell_of(s[0]));
    if n == 0 {
        assert(s.take(0) =~= Seq::<char>::empty());
        assert(s.take(1) =~= first);
    } else {
        let rest = s.drop_first();
        assert(s =~= first + rest);
        widths_add(first, rest);
        as_many_as_fit(rest, budget - cell_of(s[0]));
        assert(s.take(n) =~= first + rest.take(n - 1));
        widths_add(first, rest.take(n - 1));
        assert(s.take(n + 1) =~= first + rest.take(n));
        widths_add(first, rest.take(n));
    }
}

proof fn as_many_as_fit_behind(s: Seq<char>, budget: int)
    requires
        budget >= 0,
        text_width(s) > budget,
    ensures
        fitting_back(s, budget) < s.len(),
        text_width(s.skip(s.len() - fitting_back(s, budget))) <= budget,
        text_width(s.skip(s.len() - fitting_back(s, budget) - 1)) > budget,
    decreases s.len(),
{
    let n = fitting_back(s, budget) as int;
    let m = s.len() as int;
    let last = seq![s.last()];
    assert(last.drop_last() =~= Seq::<char>::empty());
    assert(text_width(Seq::<char>::empty()) == 0);
    assert(text_width(last) == cell_of(s.last()));
    if n == 0 {
        assert(s.skip(m) =~= Seq::<char>::empty());
        assert(s.skip(m - 1) =~= last);
    } else {
        let low = s.drop_last();
        assert(s =~= low + last);
        widths_add(low, last);
        as_many_as_fit_behind(low, budget - cell_of(s.last()));
        assert(s.skip(m - n) =~= low.skip(m - n) + last);
        widths_add(low.skip(m - n), last);
        assert(s.skip(m - n - 1) =~= low.skip(m - n - 1) + last);
        widths_add(low.skip(m - n - 1), last);
    }
}

/// A text that fits is left alone. One that does not keeps as much of its beginning as
/// fits beside the mark that stands for the rest; where there is no room, nothing is
/// left.
pub proof fn cuts_keep_the_beginning(ascii: bool, s: Seq<char>, max: nat)
    ensures
        max > 0 && text_width(s) <= max ==> cut_end_in(ascii, s, max) == s,
        max == 0 ==> cut_end_in(ascii, s, max).len() == 0,
        max > 0 && text_width(s) > max ==> exists|n: int|
            0 <= n < s.len() && cut_end_in(ascii, s, max) == #[trigger] s.take(n).push(
                cut_mark(ascii),
            ) && text_width(s.take(n)) < max <= text_width(s.take(n + 1)),
{
    if max > 0 && text_width(s) > max {
        as_many_as_fit(s, max - 1);
        let n = fitting(s, max - 1) as int;
        assert(cut_end_in(ascii, s, max) == s.take(n).push(cut_mark(ascii)));
    }
}

/// The same from the other side: what is kept is the end.
pub proof fn cuts_from_the_front_keep_the_end(ascii: bool, s: Seq<char>, max: nat)
    ensures
        max > 0 && text_width(s) <= max ==> cut_start_in(ascii, s, max) == s,
        max == 0 ==> cut_start_in(ascii, s, max).len() == 0,
        max > 0 && text_width(s) > max ==> exists|n: int|
            0 < n <= s.len() && cut_start_in(ascii, s, max) == seq![cut_mark(ascii)]
                + #[trigger] s.skip(n) && text_width(s.skip(n)) < max <= text_width(s.skip(n - 1)),
{
    if max > 0 && text_width(s) > max {
        as_many_as_fit_behind(s, max - 1);
        let n = s.len() - fitting_back(s, max - 1);
        assert(cut_start_in(ascii, s, max) == seq![cut_mark(ascii)] + s.skip(n));
    }
}

/// The mark is an ellipsis, or a tilde where there is ASCII only.
pub proof fn cuts_are_marked(ascii: bool)
    ensures
        cut_mark(ascii) == '…' <==> !ascii,
        cut_mark(ascii) == '~' <==> ascii,
{
}

// ---------------------------------------------------------------------------
// The clipboard
// ---------------------------------------------------------------------------

/// A text with every escape character doubled.
pub open spec fn doubled(s: Seq<char>) -> Seq<char>
    decreases s.len(),
{
    if s.len() == 0 {
        s
    } else if s.last() == '\x1b' {
        doubled(s.drop_last()).push('\x1b').push('\x1b')
    } else {
        doubled(s.drop_last()).push(s.last())
    }
}

proof fn doubling_leaves_the_rest(a: Seq<char>, b: Seq<char>)
    requires
        !b.contains('\x1b'),
    ensures
        doubled(a + b) == doubled(a) + b,
    decreases b.len(),
{
    if b.len() == 0 {
        assert(a + b =~= a);
        assert(doubled(a) + b =~= doubled(a));
    } else {
        let low = b.drop_last();
        assert(!low.contains('\x1b')) by {
            if low.contains('\x1b') {
                let i = choose|i: int| 0 <= i < low.len() && low[i] == '\x1b';
                assert(b[i] == '\x1b');
            }
        }
        assert(b.contains(b[b.len() - 1]));
        doubling_leaves_the_rest(a, low);
        assert((a + b).drop_last() =~= a + low);
        assert((doubled(a) + low).push(b.last()) =~= doubled(a) + b);
    }
}

/// The escape is the terminal's own for the clipboard, with the payload in it as it is;
/// and what is handed to tmux is that very escape, its escape characters doubled, inside
/// the passthrough.
pub proof fn the_escape_carries_the_payload(payload: Seq<char>)
    requires
        !payload.contains('\x1b'),
    ensures
        osc52_text(payload, false) == seq!['\x1b', ']', '5', '2', ';', 'c', ';'] + payload
            + seq!['\x07'],
        osc52_text(payload, true) == seq!['\x1b', 'P', 't', 'm', 'u', 'x', ';'] + doubled(
            osc52_text(payload, false),
        ) + seq!['\x1b', '\\'],
{
    reveal_strlit("\x1b]52;c;");
    reveal_strlit("\x07");
    reveal_strlit("\x1bPtmux;\x1b\x1b]52;c;");
    reveal_strlit("\x07\x1b\\");
    let bell = seq!['\x07'];
    let tail = seq![']', '5', '2', ';', 'c', ';'];
    let esc = seq!['\x1b'];
    let plain = osc52_text(payload, false);
    assert("\x1b]52;c;"@ =~= seq!['\x1b', ']', '5', '2', ';', 'c', ';']);
    assert("\x07"@ =~= bell);
    let rest = tail + payload + bell;
    assert(plain =~= esc + rest);
    assert(!rest.contains('\x1b')) by {
        if rest.contains('\x1b') {
            let i = choose|i: int| 0 <= i < rest.len() && rest[i] == '\x1b';
            if 6 <= i < 6 + payload.len() {
                assert(payload[i - 6] == '\x1b');
            }
        }
    }
    doubling_leaves_the_rest(esc, rest);
    assert(esc.drop_last() =~= Seq::<char>::empty());
    assert(doubled(Seq::<char>::empty()) =~= Seq::<char>::empty());
    assert(doubled(esc) =~= seq!['\x1b', '\x1b']);
    assert(osc52_text(payload, true) =~= seq!['\x1b', 'P', 't', 'm', 'u', 'x', ';'] + doubled(
        plain,
    ) + seq!['\x1b', '\\']);
}

} // verus!
