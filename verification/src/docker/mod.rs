//! What the daemon says, and what is asked of it.

pub mod actions;
pub mod exec;
pub mod laws;
pub mod logs;
pub mod model;
pub mod refresh;
pub mod stats;
pub mod usage;

use vstd::prelude::*;

use crate::text::{
    cat2, chars_of, dec, decimal, hex_digit, is_hex_digit, string_of, trim, trimmed,
};

verus! {

broadcast use vstd::string::group_string_axioms;

/// A failure of a call to the daemon.
#[derive(Debug, Clone)]
pub enum ApiError {
    /// The daemon answered, and refused.
    Server { status_code: u16, message: String },
    /// Anything else, as it describes itself.
    Other(String),
}

/// The mathematical value of an [`ApiError`].
#[verifier::ext_equal]
pub enum ApiErrorView {
    Server { status_code: u16, message: Seq<char> },
    Other(Seq<char>),
}

impl DeepView for ApiError {
    type V = ApiErrorView;

    open spec fn deep_view(&self) -> ApiErrorView {
        match self {
            ApiError::Server { status_code, message } => ApiErrorView::Server {
                status_code: *status_code,
                message: message@,
            },
            ApiError::Other(text) => ApiErrorView::Other(text@),
        }
    }
}

/// The part of a failure a user can act on.
pub open spec fn friendly(err: ApiErrorView) -> Seq<char> {
    match err {
        ApiErrorView::Server { status_code, message } => if trim(message).len() == 0 {
            "docker returned HTTP "@ + dec(status_code as nat)
        } else {
            shortened(trim(message))
        },
        ApiErrorView::Other(text) => shortened(text),
    }
}

/// Errors from the daemon are verbose and often wrap a JSON body. Pull out the
/// part a user can act on for toasts.
pub fn friendly_error(err: &ApiError) -> (out: String)
    ensures
        out@ == friendly(err.deep_view()),
{
    match err {
        ApiError::Server { status_code, message } => {
            let msg = trimmed(&chars_of(message));
            if msg.len() == 0 {
                return cat2("docker returned HTTP ", &decimal(*status_code as u64));
            }
            shorten_ids(&string_of(&msg))
        },
        ApiError::Other(text) => shorten_ids(text),
    }
}

/// A run of hex digits as it is shown: in full, or clipped when it is an id.
pub open spec fn clipped(run: Seq<char>) -> Seq<char> {
    if run.len() >= 32 {
        run.take(12)
    } else {
        run
    }
}

/// `text`, read on after the hex digits `run`, with every run of hex digits
/// clipped.
pub open spec fn shortened_after(text: Seq<char>, run: Seq<char>) -> Seq<char>
    decreases text.len(),
{
    if text.len() == 0 {
        clipped(run)
    } else if hex_digit(text[0]) {
        shortened_after(text.drop_first(), run.push(text[0]))
    } else {
        clipped(run) + seq![text[0]] + shortened_after(text.drop_first(), Seq::empty())
    }
}

/// `text` with every run of hex digits that is long enough to be an id clipped.
pub open spec fn shortened(text: Seq<char>) -> Seq<char> {
    shortened_after(text, Seq::empty())
}

fn push_run(out: &mut Vec<char>, run: &Vec<char>)
    ensures
        final(out)@ == old(out)@ + clipped(run@),
{
    let n: usize = if run.len() >= 32 {
        12
    } else {
        run.len()
    };
    let ghost before = out@;
    let mut i: usize = 0;
    assert(run@.take(0) =~= Seq::<char>::empty());
    while i < n
        invariant
            i <= n <= run.len(),
            out@ == before + run@.take(i as int),
        decreases n - i,
    {
        out.push(run[i]);
        assert(run@.take(i + 1) =~= run@.take(i as int).push(run@[i as int]));
        i += 1;
    }
    assert(run@.take(n as int) =~= clipped(run@));
}

/// Docker spells out full 64-character ids in its error text, which crowds out
/// the part of the message that actually says what went wrong. Clip them to the
/// 12-character prefix everyone recognises.
pub fn shorten_ids(text: &str) -> (out: String)
    ensures
        out@ == shortened(text@),
        no_long_run(out@),
{
    let v = chars_of(text);
    let mut out: Vec<char> = Vec::new();
    let mut run: Vec<char> = Vec::new();
    let mut i: usize = 0;
    assert(v@.skip(0) =~= v@);
    assert(out@ + shortened_after(v@, run@) =~= shortened(v@));
    while i < v.len()
        invariant
            i <= v.len(),
            out@ + shortened_after(v@.skip(i as int), run@) == shortened(v@),
        decreases v.len() - i,
    {
        assert(v@.skip(i as int)[0] == v@[i as int]);
        assert(v@.skip(i as int).drop_first() =~= v@.skip(i + 1));
        if is_hex_digit(v[i]) {
            run.push(v[i]);
        } else {
            let ghost (out0, run0) = (out@, run@);
            push_run(&mut out, &run);
            out.push(v[i]);
            run = Vec::new();
            assert(out@ + shortened_after(v@.skip(i + 1), run@) =~= out0 + (clipped(run0) + seq![
                v@[i as int],
            ] + shortened_after(v@.skip(i + 1), Seq::empty())));
        }
        i += 1;
    }
    push_run(&mut out, &run);
    proof {
        ids_are_clipped(text@);
    }
    string_of(&out)
}

// ---------------------------------------------------------------------------
// What shortening promises
// ---------------------------------------------------------------------------

/// Whether the 32 characters from `i` on are all hex digits.
pub open spec fn hex_window(s: Seq<char>, i: int) -> bool {
    forall|j: int| i <= j < i + 32 ==> hex_digit(#[trigger] s[j])
}

/// Whether no 32 characters in a row are all hex digits.
pub open spec fn no_long_run(s: Seq<char>) -> bool {
    forall|i: int| 0 <= i && i + 32 <= s.len() ==> !#[trigger] hex_window(s, i)
}

proof fn runs_are_clipped(text: Seq<char>, run: Seq<char>)
    ensures
        no_long_run(shortened_after(text, run)),
    decreases text.len(),
{
    if text.len() > 0 {
        if hex_digit(text[0]) {
            runs_are_clipped(text.drop_first(), run.push(text[0]));
        } else {
            let a = clipped(run);
            let b = shortened_after(text.drop_first(), Seq::empty());
            runs_are_clipped(text.drop_first(), Seq::empty());
            let whole = shortened_after(text, run);
            assert(whole =~= a + seq![text[0]] + b);
            assert forall|i: int| 0 <= i && i + 32 <= whole.len() implies !#[trigger] hex_window(
                whole,
                i,
            ) by {
                if i <= a.len() {
                    assert(!hex_digit(whole[a.len() as int]));
                } else if hex_window(whole, i) {
                    let k = i - a.len() - 1;
                    assert forall|j: int| k <= j < k + 32 implies hex_digit(#[trigger] b[j]) by {
                        assert(whole[j + a.len() + 1] == b[j]);
                    }
                    assert(hex_window(b, k));
                }
            }
        }
    }
}

/// Shortened text spells out no id.
pub proof fn ids_are_clipped(text: Seq<char>)
    ensures
        no_long_run(shortened(text)),
{
    runs_are_clipped(text, Seq::empty());
}

proof fn short_runs_survive(text: Seq<char>, run: Seq<char>)
    requires
        no_long_run(run + text),
        forall|i: int| 0 <= i < run.len() ==> hex_digit(#[trigger] run[i]),
    ensures
        shortened_after(text, run) == run + text,
    decreases text.len(),
{
    let whole = run + text;
    if run.len() >= 32 {
        assert forall|j: int| 0 <= j < 32 implies hex_digit(#[trigger] whole[j]) by {
            assert(whole[j] == run[j]);
        }
        assert(hex_window(whole, 0));
    }
    if text.len() == 0 {
        assert(whole =~= run);
    } else {
        let rest = text.drop_first();
        if hex_digit(text[0]) {
            assert(run.push(text[0]) + rest =~= whole);
            short_runs_survive(rest, run.push(text[0]));
        } else {
            assert forall|i: int| 0 <= i && i + 32 <= rest.len() implies !#[trigger] hex_window(
                rest,
                i,
            ) by {
                if hex_window(rest, i) {
                    let k = i + run.len() + 1;
                    assert forall|j: int| k <= j < k + 32 implies hex_digit(#[trigger] whole[j]) by {
                        assert(whole[j] == rest[j - run.len() - 1]);
                    }
                    assert(hex_window(whole, k));
                }
            }
            assert(Seq::<char>::empty() + rest =~= rest);
            short_runs_survive(rest, Seq::empty());
            assert(run + seq![text[0]] + rest =~= whole);
        }
    }
}

/// Text that spells out no id is left exactly as it is; in particular,
/// shortening twice is shortening once.
pub proof fn ordinary_words_survive(text: Seq<char>)
    ensures
        no_long_run(text) ==> shortened(text) == text,
        shortened(shortened(text)) == shortened(text),
{
    assert(Seq::<char>::empty() + text =~= text);
    if no_long_run(text) {
        short_runs_survive(text, Seq::empty());
    }
    ids_are_clipped(text);
    assert(Seq::<char>::empty() + shortened(text) =~= shortened(text));
    short_runs_survive(shortened(text), Seq::empty());
}

} // verus!
