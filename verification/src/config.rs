//! The optional config file.
//!
//! `~/.config/dockmate.toml` (or `$XDG_CONFIG_HOME/dockmate.toml`) holds the
//! defaults a user would otherwise retype on every invocation. Command-line
//! flags always win over it, and the environment sits between the two — the
//! ordinary CLI > env > file precedence.
//!
//! The file is a flat list of `key = value` pairs, which is a small enough
//! subset of TOML to parse here rather than take on a parser and serde. What is
//! supported is exactly what the keys below need: booleans, integers, basic
//! (`"…"`) and literal (`'…'`) strings, `#` comments, and blank lines. Anything
//! else — a table header, an array, a float — is rejected by name so the error
//! says what the file can't do instead of quietly ignoring a line.

use vstd::prelude::*;

use crate::text::{
    cat3, cat4, chars_of, dec, decimal, digit, digit_char, find, find_char, has_char, is_digit, owned,
    put, same, slice_to_chars, string_of, trim, trimmed,
};
use crate::ui::theme::{Glyphs, Palette};

verus! {

broadcast use vstd::string::group_string_axioms;

/// Every field is optional: absent means "no opinion", and the caller falls
/// back to the flag, the environment, or the built-in default in that order.
#[derive(Debug, Clone, PartialEq, Eq)]
pub struct Config {
    pub host: Option<String>,
    pub interval: Option<u64>,
    pub glyphs: Option<Glyphs>,
    pub palette: Option<Palette>,
    pub mouse: Option<bool>,
    pub group_by_stack: Option<bool>,
}

/// The mathematical value of a [`Config`].
pub struct ConfigView {
    pub host: Option<Seq<char>>,
    pub interval: Option<u64>,
    pub glyphs: Option<Glyphs>,
    pub palette: Option<Palette>,
    pub mouse: Option<bool>,
    pub group_by_stack: Option<bool>,
}

impl DeepView for Config {
    type V = ConfigView;

    open spec fn deep_view(&self) -> ConfigView {
        ConfigView {
            host: self.host.deep_view(),
            interval: self.interval,
            glyphs: self.glyphs,
            palette: self.palette,
            mouse: self.mouse,
            group_by_stack: self.group_by_stack,
        }
    }
}

/// No opinions at all.
pub open spec fn no_opinions() -> ConfigView {
    ConfigView {
        host: None,
        interval: None,
        glyphs: None,
        palette: None,
        mouse: None,
        group_by_stack: None,
    }
}

impl Default for Config {
    fn default() -> (out: Config)
        ensures
            out.deep_view() == no_opinions(),
    {
        Config {
            host: None,
            interval: None,
            glyphs: None,
            palette: None,
            mouse: None,
            group_by_stack: None,
        }
    }
}

/// What is wrong with a line.
#[derive(Debug, Clone, PartialEq, Eq)]
pub enum Fault {
    NoTables,
    NotAPair(String),
    MissingKey,
    SetTwice(String),
    ZeroInterval,
    BadGlyphs(String),
    BadPalette(String),
    NotBoolean(String),
    NotInteger(String),
    NotQuoted(String),
    Unterminated(String),
    UnknownEscape(char),
    TrailingBackslash,
}

/// The mathematical value of a [`Fault`].
pub enum FaultView {
    NoTables,
    NotAPair(Seq<char>),
    MissingKey,
    SetTwice(Seq<char>),
    ZeroInterval,
    BadGlyphs(Seq<char>),
    BadPalette(Seq<char>),
    NotBoolean(Seq<char>),
    NotInteger(Seq<char>),
    NotQuoted(Seq<char>),
    Unterminated(Seq<char>),
    UnknownEscape(char),
    TrailingBackslash,
}

impl DeepView for Fault {
    type V = FaultView;

    open spec fn deep_view(&self) -> FaultView {
        match self {
            Fault::NoTables => FaultView::NoTables,
            Fault::NotAPair(s) => FaultView::NotAPair(s@),
            Fault::MissingKey => FaultView::MissingKey,
            Fault::SetTwice(s) => FaultView::SetTwice(s@),
            Fault::ZeroInterval => FaultView::ZeroInterval,
            Fault::BadGlyphs(s) => FaultView::BadGlyphs(s@),
            Fault::BadPalette(s) => FaultView::BadPalette(s@),
            Fault::NotBoolean(s) => FaultView::NotBoolean(s@),
            Fault::NotInteger(s) => FaultView::NotInteger(s@),
            Fault::NotQuoted(s) => FaultView::NotQuoted(s@),
            Fault::Unterminated(s) => FaultView::Unterminated(s@),
            Fault::UnknownEscape(c) => FaultView::UnknownEscape(*c),
            Fault::TrailingBackslash => FaultView::TrailingBackslash,
        }
    }
}

/// What a fault is called.
pub open spec fn fault_text(fault: FaultView) -> Seq<char> {
    match fault {
        FaultView::NoTables =>
            "dockmate.toml is a flat file of `key = value` lines; it has no tables"@,
        FaultView::NotAPair(s) => "expected `key = value`, found `"@ + s + "`"@,
        FaultView::MissingKey => "missing a key before `=`"@,
        FaultView::SetTwice(s) => "`"@ + s + "` is set twice"@,
        FaultView::ZeroInterval => "`interval` must be at least 1 millisecond"@,
        FaultView::BadGlyphs(s) =>
            "`glyphs` must be \"unicode\", \"nerd\" or \"ascii\", not \""@ + s + "\""@,
        FaultView::BadPalette(s) =>
            "`palette` must be \"truecolor\", \"ansi\" or \"none\", not \""@ + s + "\""@,
        FaultView::NotBoolean(s) => "expected `true` or `false`, found `"@ + s + "`"@,
        FaultView::NotInteger(s) => "expected a whole number, found `"@ + s + "`"@,
        FaultView::NotQuoted(s) => "expected a quoted string, found `"@ + s + "`"@,
        FaultView::Unterminated(s) => "unterminated string `"@ + s + "`"@,
        FaultView::UnknownEscape(c) => "unknown escape `\\"@ + seq![c] + "`"@,
        FaultView::TrailingBackslash => "string ends in a backslash"@,
    }
}

impl Fault {
    fn text(&self) -> (out: String)
        ensures
            out@ == fault_text(self.deep_view()),
    {
        match self {
            Fault::NoTables => owned(
                "dockmate.toml is a flat file of `key = value` lines; it has no tables",
            ),
            Fault::NotAPair(s) => cat3("expected `key = value`, found `", s, "`"),
            Fault::MissingKey => owned("missing a key before `=`"),
            Fault::SetTwice(s) => cat3("`", s, "` is set twice"),
            Fault::ZeroInterval => owned("`interval` must be at least 1 millisecond"),
            Fault::BadGlyphs(s) => cat3(
                "`glyphs` must be \"unicode\", \"nerd\" or \"ascii\", not \"",
                s,
                "\"",
            ),
            Fault::BadPalette(s) => cat3(
                "`palette` must be \"truecolor\", \"ansi\" or \"none\", not \"",
                s,
                "\"",
            ),
            Fault::NotBoolean(s) => cat3("expected `true` or `false`, found `", s, "`"),
            Fault::NotInteger(s) => cat3("expected a whole number, found `", s, "`"),
            Fault::NotQuoted(s) => cat3("expected a quoted string, found `", s, "`"),
            Fault::Unterminated(s) => cat3("unterminated string `", s, "`"),
            Fault::UnknownEscape(c) => {
                let mut escape: Vec<char> = Vec::new();
                escape.push(*c);
                let escape = string_of(&escape);
                assert(escape@ =~= seq![*c]);
                cat3("unknown escape `\\", &escape, "`")
            },
            Fault::TrailingBackslash => owned("string ends in a backslash"),
        }
    }
}

/// A line the file shouldn't have.
#[derive(Debug, Clone, PartialEq, Eq)]
pub struct ConfigError {
    /// The line, counted from one.
    pub line: usize,
    pub fault: Fault,
}

/// The mathematical value of a [`ConfigError`].
pub struct ConfigErrorView {
    pub line: nat,
    pub fault: FaultView,
}

impl DeepView for ConfigError {
    type V = ConfigErrorView;

    open spec fn deep_view(&self) -> ConfigErrorView {
        ConfigErrorView { line: self.line as nat, fault: self.fault.deep_view() }
    }
}

/// What an error says.
pub open spec fn error_text(e: ConfigErrorView) -> Seq<char> {
    "line "@ + dec(e.line) + ": "@ + fault_text(e.fault)
}

impl ConfigError {
    /// What the error says.
    pub fn message(&self) -> (out: String)
        ensures
            out@ == error_text(self.deep_view()),
    {
        let line = decimal(self.line as u64);
        let text = self.fault.text();
        cat4("line ", &line, ": ", &text)
    }
}

// ---------------------------------------------------------------------------
// Lines
// ---------------------------------------------------------------------------

/// A line without the carriage return that may precede its end.
pub open spec fn without_return(line: Seq<char>) -> Seq<char> {
    if line.len() > 0 && line.last() == '\r' {
        line.drop_last()
    } else {
        line
    }
}

/// The lines of a text. The last one need not be ended.
pub open spec fn lines_of(text: Seq<char>) -> Seq<Seq<char>>
    decreases text.len(),
{
    if text.len() == 0 {
        Seq::empty()
    } else {
        let end = find(text, '\n', 0);
        if 0 <= end < text.len() {
            seq![without_return(text.take(end))] + lines_of(text.skip(end + 1))
        } else {
            seq![text]
        }
    }
}

/// Where the comment of a line starts, from `i` on; its end if it has none. A
/// `#` inside a quoted value is left alone, and escapes only exist inside a
/// basic string, so a lone backslash in a literal string can't hide the closing
/// quote.
pub open spec fn comment_at(line: Seq<char>, i: int, quote: Option<char>, escaped: bool) -> int
    decreases line.len() - i,
{
    if i >= line.len() {
        line.len() as int
    } else if escaped {
        comment_at(line, i + 1, quote, false)
    } else {
        match quote {
            Some(q) => if q == '"' && line[i] == '\\' {
                comment_at(line, i + 1, quote, true)
            } else if line[i] == q {
                comment_at(line, i + 1, None, false)
            } else {
                comment_at(line, i + 1, quote, false)
            },
            None => if line[i] == '"' || line[i] == '\'' {
                comment_at(line, i + 1, Some(line[i]), false)
            } else if line[i] == '#' {
                i
            } else {
                comment_at(line, i + 1, None, false)
            },
        }
    }
}

/// What a line says: neither its comment nor the space around it.
pub open spec fn content_of(raw: Seq<char>) -> Seq<char> {
    trim(raw.take(comment_at(raw, 0, None, false)))
}

fn find_comment(line: &[char]) -> (out: usize)
    ensures
        out == comment_at(line@, 0, None, false),
        out <= line.len(),
{
    let mut quote: Option<char> = None;
    let mut escaped: bool = false;
    let mut i: usize = 0;
    while i < line.len()
        invariant
            i <= line.len(),
            comment_at(line@, 0, None, false) == comment_at(line@, i as int, quote, escaped),
        decreases line.len() - i,
    {
        let c = line[i];
        if escaped {
            escaped = false;
        } else {
            match quote {
                Some(q) => {
                    if q == '"' && c == '\\' {
                        escaped = true;
                    } else if c == q {
                        quote = None;
                    }
                },
                None => {
                    if c == '"' || c == '\'' {
                        quote = Some(c);
                    } else if c == '#' {
                        return i;
                    }
                },
            }
        }
        i += 1;
    }
    i
}

/// Drop a trailing `#` comment, leaving `#` inside a quoted value alone.
pub fn strip_comment(line: &[char]) -> (out: Vec<char>)
    ensures
        out@ == line@.take(comment_at(line@, 0, None, false)),
{
    let end = find_comment(line);
    let mut out: Vec<char> = Vec::new();
    let mut i: usize = 0;
    while i < end
        invariant
            i <= end <= line.len(),
            out@ == line@.take(i as int),
        decreases end - i,
    {
        out.push(line[i]);
        i += 1;
        assert(out@ =~= line@.take(i as int));
    }
    out
}

// ---------------------------------------------------------------------------
// Values
// ---------------------------------------------------------------------------

/// What a value is as a boolean.
pub open spec fn boolean_of(value: Seq<char>) -> Result<bool, FaultView> {
    if value == "true"@ {
        Ok(true)
    } else if value == "false"@ {
        Ok(false)
    } else {
        Err(FaultView::NotBoolean(value))
    }
}

/// A text without its underscores. They are TOML's separators, and `1_000` is a
/// natural way to write an interval.
pub open spec fn without_underscores(s: Seq<char>) -> Seq<char>
    decreases s.len(),
{
    if s.len() == 0 {
        s
    } else if s.last() == '_' {
        without_underscores(s.drop_last())
    } else {
        without_underscores(s.drop_last()).push(s.last())
    }
}

/// The number that some digits write.
pub open spec fn digits_value(s: Seq<char>) -> int
    decreases s.len(),
{
    if s.len() == 0 {
        0
    } else {
        digits_value(s.drop_last()) * 10 + (s.last() as int - '0' as int)
    }
}

/// Whether a text is digits only, and some.
pub open spec fn all_digits(s: Seq<char>) -> bool {
    s.len() > 0 && forall|i: int| 0 <= i < s.len() ==> digit(#[trigger] s[i])
}

/// The digits of a number that may carry a plus.
pub open spec fn unsigned(s: Seq<char>) -> Seq<char> {
    if s.len() > 0 && s[0] == '+' {
        s.skip(1)
    } else {
        s
    }
}

/// What a value is as a whole number.
pub open spec fn integer_of(value: Seq<char>) -> Result<u64, FaultView> {
    let digits = unsigned(without_underscores(value));
    if all_digits(digits) && digits_value(digits) <= u64::MAX {
        Ok(digits_value(digits) as u64)
    } else {
        Err(FaultView::NotInteger(value))
    }
}

/// What a basic string says from `i` on, after `out`.
pub open spec fn unescaped(
    inner: Seq<char>,
    i: int,
    out: Seq<char>,
    value: Seq<char>,
) -> Result<Seq<char>, FaultView>
    decreases inner.len() - i,
{
    if i >= inner.len() {
        Ok(out)
    } else if inner[i] == '"' {
        Err(FaultView::Unterminated(value))
    } else if inner[i] != '\\' {
        unescaped(inner, i + 1, out.push(inner[i]), value)
    } else if i + 1 >= inner.len() {
        Err(FaultView::TrailingBackslash)
    } else if inner[i + 1] == '"' || inner[i + 1] == '\\' {
        unescaped(inner, i + 2, out.push(inner[i + 1]), value)
    } else if inner[i + 1] == 'n' {
        unescaped(inner, i + 2, out.push('\n'), value)
    } else if inner[i + 1] == 't' {
        unescaped(inner, i + 2, out.push('\t'), value)
    } else {
        Err(FaultView::UnknownEscape(inner[i + 1]))
    }
}

/// What a value is as a string: a TOML basic (`"…"`) or literal (`'…'`) one.
/// Basic strings honour the four escapes a docker host or a glyph name could
/// plausibly need; literal strings, per TOML, honour none.
pub open spec fn string_value(value: Seq<char>) -> Result<Seq<char>, FaultView> {
    if value.len() == 0 || (value[0] != '"' && value[0] != '\'') {
        Err(FaultView::NotQuoted(value))
    } else if value.len() < 2 || value.last() != value[0] {
        Err(FaultView::Unterminated(value))
    } else {
        let inner = value.subrange(1, value.len() - 1);
        if value[0] == '\'' {
            if inner.contains('\'') {
                Err(FaultView::Unterminated(value))
            } else {
                Ok(inner)
            }
        } else {
            unescaped(inner, 0, Seq::empty(), value)
        }
    }
}

fn boolean(value: &str) -> (out: Result<bool, Fault>)
    ensures
        match out {
            Ok(b) => boolean_of(value@) == Ok::<bool, FaultView>(b),
            Err(f) => boolean_of(value@) == Err::<bool, FaultView>(f.deep_view()),
        },
{
    if same(value, "true") {
        Ok(true)
    } else if same(value, "false") {
        Ok(false)
    } else {
        Err(Fault::NotBoolean(owned(value)))
    }
}

fn drop_underscores(v: &[char]) -> (out: Vec<char>)
    ensures
        out@ == without_underscores(v@),
{
    let mut out: Vec<char> = Vec::new();
    let mut i: usize = 0;
    assert(out@ =~= without_underscores(v@.take(0)));
    while i < v.len()
        invariant
            i <= v.len(),
            out@ == without_underscores(v@.take(i as int)),
        decreases v.len() - i,
    {
        assert(v@.take(i + 1).drop_last() =~= v@.take(i as int));
        if v[i] != '_' {
            out.push(v[i]);
        }
        i += 1;
    }
    assert(v@.take(v@.len() as int) =~= v@);
    out
}

proof fn digits_grow(s: Seq<char>, n: int)
    requires
        0 <= n <= s.len(),
        forall|i: int| 0 <= i < s.len() ==> digit(#[trigger] s[i]),
    ensures
        0 <= digits_value(s.take(n)) <= digits_value(s),
    decreases s.len() - n,
{
    assert(s.take(s.len() as int) =~= s);
    if n < s.len() {
        digits_grow(s, n + 1);
        assert(s.take(n + 1).drop_last() =~= s.take(n));
        assert(digit(s[n]));
        digits_count(s.take(n));
    } else {
        digits_count(s);
    }
}

proof fn digits_count(s: Seq<char>)
    requires
        forall|i: int| 0 <= i < s.len() ==> digit(#[trigger] s[i]),
    ensures
        0 <= digits_value(s),
    decreases s.len(),
{
    if s.len() > 0 {
        assert(forall|i: int| 0 <= i < s.len() - 1 ==> s.drop_last()[i] == s[i]);
        assert(digit(s[s.len() - 1]));
        digits_count(s.drop_last());
    }
}

fn number(v: &[char]) -> (out: Option<u64>)
    ensures
        match out {
            Some(n) => all_digits(v@) && digits_value(v@) == n,
            None => !(all_digits(v@) && digits_value(v@) <= u64::MAX),
        },
{
    if v.len() == 0 {
        return None;
    }
    let mut n: u64 = 0;
    let mut i: usize = 0;
    let mut wide: bool = false;
    while i < v.len()
        invariant
            i <= v.len(),
            forall|k: int| 0 <= k < i ==> digit(#[trigger] v@[k]),
            !wide ==> n == digits_value(v@.take(i as int)),
            wide ==> digits_value(v@.take(i as int)) > u64::MAX,
        decreases v.len() - i,
    {
        if !is_digit(v[i]) {
            assert(!digit(v@[i as int]));
            return None;
        }
        let ghost low = v@.take(i as int);
        assert(v@.take(i + 1).drop_last() =~= low);
        proof {
            assert(forall|k: int| 0 <= k < low.len() ==> low[k] == v@[k]);
            digits_count(low);
        }
        let d: u64 = v[i] as u64 - 48;
        if wide || n > (u64::MAX - d) / 10 {
            wide = true;
        } else {
            n = n * 10 + d;
        }
        i += 1;
    }
    assert(v@.take(v@.len() as int) =~= v@);
    if wide {
        None
    } else {
        Some(n)
    }
}

fn integer(value: &str) -> (out: Result<u64, Fault>)
    ensures
        match out {
            Ok(n) => integer_of(value@) == Ok::<u64, FaultView>(n),
            Err(f) => integer_of(value@) == Err::<u64, FaultView>(f.deep_view()),
        },
{
    let cleaned = drop_underscores(&chars_of(value));
    let from: usize = if cleaned.len() > 0 && cleaned[0] == '+' {
        1
    } else {
        0
    };
    let digits = slice_to_chars(&cleaned, from, cleaned.len());
    assert(digits@ =~= unsigned(cleaned@));
    match number(&digits) {
        Some(n) => Ok(n),
        None => Err(Fault::NotInteger(owned(value))),
    }
}

fn unescape(inner: &[char], value: &str) -> (out: Result<String, Fault>)
    ensures
        match out {
            Ok(s) => unescaped(inner@, 0, Seq::empty(), value@) == Ok::<Seq<char>, FaultView>(s@),
            Err(f) => unescaped(inner@, 0, Seq::empty(), value@) == Err::<Seq<char>, FaultView>(
                f.deep_view(),
            ),
        },
{
    let mut text: Vec<char> = Vec::new();
    let mut i: usize = 0;
    assert(text@ =~= Seq::<char>::empty());
    while i < inner.len()
        invariant
            i <= inner.len(),
            unescaped(inner@, 0, Seq::empty(), value@) == unescaped(
                inner@,
                i as int,
                text@,
                value@,
            ),
        decreases inner.len() - i,
    {
        let c = inner[i];
        if c == '"' {
            return Err(Fault::Unterminated(owned(value)));
        }
        if c != '\\' {
            text.push(c);
            i += 1;
        } else if i + 1 >= inner.len() {
            return Err(Fault::TrailingBackslash);
        } else {
            let e = inner[i + 1];
            if e == '"' || e == '\\' {
                text.push(e);
            } else if e == 'n' {
                text.push('\n');
            } else if e == 't' {
                text.push('\t');
            } else {
                return Err(Fault::UnknownEscape(e));
            }
            i += 2;
        }
    }
    Ok(string_of(&text))
}

/// A basic (`"…"`) or literal (`'…'`) string. Basic strings honour the four escapes
/// a docker host or a glyph name could plausibly need; literal strings honour none.
pub fn string(value: &str) -> (out: Result<String, Fault>)
    ensures
        match out {
            Ok(s) => string_value(value@) == Ok::<Seq<char>, FaultView>(s@),
            Err(f) => string_value(value@) == Err::<Seq<char>, FaultView>(f.deep_view()),
        },
{
    let v = chars_of(value);
    if v.len() == 0 || (v[0] != '"' && v[0] != '\'') {
        return Err(Fault::NotQuoted(owned(value)));
    }
    if v.len() < 2 || v[v.len() - 1] != v[0] {
        return Err(Fault::Unterminated(owned(value)));
    }
    let inner = slice_to_chars(&v, 1, v.len() - 1);
    if v[0] == '\'' {
        if has_char(&inner, '\'') {
            Err(Fault::Unterminated(owned(value)))
        } else {
            Ok(string_of(&inner))
        }
    } else {
        unescape(&inner, value)
    }
}

// ---------------------------------------------------------------------------
// The file
// ---------------------------------------------------------------------------

/// What a glyph set is called.
pub open spec fn glyphs_called(name: Seq<char>) -> Result<Glyphs, FaultView> {
    if name == "unicode"@ {
        Ok(Glyphs::Unicode)
    } else if name == "nerd"@ {
        Ok(Glyphs::Nerd)
    } else if name == "ascii"@ {
        Ok(Glyphs::Ascii)
    } else {
        Err(FaultView::BadGlyphs(name))
    }
}

/// What a palette is called.
pub open spec fn palette_called(name: Seq<char>) -> Result<Palette, FaultView> {
    if name == "truecolor"@ {
        Ok(Palette::TrueColor)
    } else if name == "ansi"@ {
        Ok(Palette::Ansi)
    } else if name == "none"@ {
        Ok(Palette::Mono)
    } else {
        Err(FaultView::BadPalette(name))
    }
}

/// Whether a key means something.
pub open spec fn known_key(key: Seq<char>) -> bool {
    key == "host"@ || key == "interval"@ || key == "glyphs"@ || key == "palette"@ || key
        == "mouse"@ || key == "group_by_stack"@
}

/// The settings with a known key set.
pub open spec fn assigned(config: ConfigView, key: Seq<char>, value: Seq<char>) -> Result<
    ConfigView,
    FaultView,
> {
    if key == "host"@ {
        match string_value(value) {
            Ok(s) => Ok(ConfigView { host: Some(s), ..config }),
            Err(f) => Err(f),
        }
    } else if key == "interval"@ {
        match integer_of(value) {
            Ok(n) => if n < 1 {
                Err(FaultView::ZeroInterval)
            } else {
                Ok(ConfigView { interval: Some(n), ..config })
            },
            Err(f) => Err(f),
        }
    } else if key == "glyphs"@ {
        match string_value(value) {
            Ok(s) => match glyphs_called(s) {
                Ok(g) => Ok(ConfigView { glyphs: Some(g), ..config }),
                Err(f) => Err(f),
            },
            Err(f) => Err(f),
        }
    } else if key == "palette"@ {
        match string_value(value) {
            Ok(s) => match palette_called(s) {
                Ok(p) => Ok(ConfigView { palette: Some(p), ..config }),
                Err(f) => Err(f),
            },
            Err(f) => Err(f),
        }
    } else if key == "mouse"@ {
        match boolean_of(value) {
            Ok(b) => Ok(ConfigView { mouse: Some(b), ..config }),
            Err(f) => Err(f),
        }
    } else {
        match boolean_of(value) {
            Ok(b) => Ok(ConfigView { group_by_stack: Some(b), ..config }),
            Err(f) => Err(f),
        }
    }
}

/// What the lines so far have said.
pub struct Progress {
    pub config: Config,
    /// Keys that mean nothing.
    pub warnings: Vec<String>,
    /// Every key, in order.
    pub seen: Vec<String>,
}

/// The mathematical value of a [`Progress`].
pub struct ProgressView {
    pub config: ConfigView,
    pub warnings: Seq<Seq<char>>,
    pub seen: Seq<Seq<char>>,
}

impl DeepView for Progress {
    type V = ProgressView;

    open spec fn deep_view(&self) -> ProgressView {
        ProgressView {
            config: self.config.deep_view(),
            warnings: self.warnings.deep_view(),
            seen: self.seen.deep_view(),
        }
    }
}

/// Nothing said yet.
pub open spec fn nothing_said() -> ProgressView {
    ProgressView { config: no_opinions(), warnings: Seq::empty(), seen: Seq::empty() }
}

/// A pair taken in.
pub open spec fn pair_taken(p: ProgressView, key: Seq<char>, value: Seq<char>) -> Result<
    ProgressView,
    FaultView,
> {
    if key.len() == 0 {
        Err(FaultView::MissingKey)
    } else if p.seen.contains(key) {
        Err(FaultView::SetTwice(key))
    } else if known_key(key) {
        match assigned(p.config, key, value) {
            Ok(config) => Ok(ProgressView { config, seen: p.seen.push(key), ..p }),
            Err(f) => Err(f),
        }
    } else {
        Ok(ProgressView { warnings: p.warnings.push(key), seen: p.seen.push(key), ..p })
    }
}

/// A line taken in.
pub open spec fn line_taken(p: ProgressView, raw: Seq<char>) -> Result<ProgressView, FaultView> {
    let line = content_of(raw);
    let eq = find(line, '=', 0);
    if line.len() == 0 {
        Ok(p)
    } else if line[0] == '[' {
        Err(FaultView::NoTables)
    } else if eq >= line.len() {
        Err(FaultView::NotAPair(line))
    } else {
        pair_taken(p, trim(line.take(eq)), trim(line.skip(eq + 1)))
    }
}

/// The lines from the `n`th on taken in.
pub open spec fn lines_taken(p: ProgressView, lines: Seq<Seq<char>>, n: int) -> Result<
    ProgressView,
    ConfigErrorView,
>
    decreases lines.len() - n,
{
    if n >= lines.len() {
        Ok(p)
    } else {
        match line_taken(p, lines[n]) {
            Ok(next) => lines_taken(next, lines, n + 1),
            Err(fault) => Err(ConfigErrorView { line: (n + 1) as nat, fault }),
        }
    }
}

/// What a file says: its settings, and the keys that mean nothing.
pub open spec fn parsed(text: Seq<char>) -> Result<
    (ConfigView, Seq<Seq<char>>),
    ConfigErrorView,
> {
    match lines_taken(nothing_said(), lines_of(text), 0) {
        Ok(p) => Ok((p.config, p.warnings)),
        Err(e) => Err(e),
    }
}

fn split_lines(text: &str) -> (out: Vec<Vec<char>>)
    ensures
        out.deep_view() == lines_of(text@),
{
    let v = chars_of(text);
    let mut out: Vec<Vec<char>> = Vec::new();
    let mut from: usize = 0;
    assert(v@.skip(0) =~= v@);
    assert(out.deep_view() + lines_of(v@) =~= lines_of(v@));
    while from < v.len()
        invariant
            from <= v.len(),
            out.deep_view() + lines_of(v@.skip(from as int)) == lines_of(v@),
        decreases v.len() - from,
    {
        let ghost rest = v@.skip(from as int);
        let ghost before = out.deep_view();
        let end = find_char(&v, '\n', from);
        proof {
            find_shifts(v@, '\n', from as int, 0);
        }
        if end < v.len() {
            let keep: usize = if end > from && v[end - 1] == '\r' {
                end - 1
            } else {
                end
            };
            let line = slice_to_chars(&v, from, keep);
            assert(line@ =~= without_return(rest.take(end - from)));
            put_line(&mut out, line);
            assert(rest.skip(end - from + 1) =~= v@.skip(end + 1));
            assert(out.deep_view() + lines_of(v@.skip(end + 1)) =~= before + lines_of(rest));
            from = end + 1;
        } else {
            let line = slice_to_chars(&v, from, v.len());
            assert(line@ =~= rest);
            put_line(&mut out, line);
            assert(out.deep_view() + lines_of(v@.skip(v@.len() as int)) =~= before + lines_of(
                rest,
            ));
            from = v.len();
        }
    }
    assert(out.deep_view() + lines_of(v@.skip(v@.len() as int)) =~= out.deep_view());
    out
}

fn put_line(out: &mut Vec<Vec<char>>, line: Vec<char>)
    ensures
        final(out).deep_view() == old(out).deep_view().push(line@),
{
    let ghost before = out.deep_view();
    out.push(line);
    assert(line.deep_view() =~= line@);
    assert(out.deep_view() =~= before.push(line@));
}

proof fn find_shifts(s: Seq<char>, c: char, by: int, k: int)
    requires
        0 <= by <= s.len(),
        0 <= k <= s.len() - by,
    ensures
        find(s.skip(by), c, k) == find(s, c, by + k) - by,
    decreases s.len() - by - k,
{
    if by + k < s.len() {
        find_shifts(s, c, by, k + 1);
    }
}

fn glyphs(name: String) -> (out: Result<Glyphs, Fault>)
    ensures
        match out {
            Ok(g) => glyphs_called(name@) == Ok::<Glyphs, FaultView>(g),
            Err(f) => glyphs_called(name@) == Err::<Glyphs, FaultView>(f.deep_view()),
        },
{
    if same(&name, "unicode") {
        Ok(Glyphs::Unicode)
    } else if same(&name, "nerd") {
        Ok(Glyphs::Nerd)
    } else if same(&name, "ascii") {
        Ok(Glyphs::Ascii)
    } else {
        Err(Fault::BadGlyphs(name))
    }
}

fn palette(name: String) -> (out: Result<Palette, Fault>)
    ensures
        match out {
            Ok(p) => palette_called(name@) == Ok::<Palette, FaultView>(p),
            Err(f) => palette_called(name@) == Err::<Palette, FaultView>(f.deep_view()),
        },
{
    if same(&name, "truecolor") {
        Ok(Palette::TrueColor)
    } else if same(&name, "ansi") {
        Ok(Palette::Ansi)
    } else if same(&name, "none") {
        Ok(Palette::Mono)
    } else {
        Err(Fault::BadPalette(name))
    }
}

fn is_known(key: &str) -> (out: bool)
    ensures
        out == known_key(key@),
{
    same(key, "host") || same(key, "interval") || same(key, "glyphs") || same(key, "palette")
        || same(key, "mouse") || same(key, "group_by_stack")
}

impl Config {
    fn assign(&mut self, key: &str, value: &str) -> (out: Result<(), Fault>)
        requires
            known_key(key@),
        ensures
            match out {
                Ok(_) => assigned(old(self).deep_view(), key@, value@) == Ok::<
                    ConfigView,
                    FaultView,
                >(final(self).deep_view()),
                Err(f) => assigned(old(self).deep_view(), key@, value@) == Err::<
                    ConfigView,
                    FaultView,
                >(f.deep_view()),
            },
    {
        if same(key, "host") {
            match string(value) {
                Ok(s) => {
                    self.host = Some(s);
                },
                Err(f) => {
                    return Err(f);
                },
            }
        } else if same(key, "interval") {
            match integer(value) {
                Ok(n) => {
                    // Mirrors the flag's own guard: a timer of zero makes no
                    // sense.
                    if n < 1 {
                        return Err(Fault::ZeroInterval);
                    }
                    self.interval = Some(n);
                },
                Err(f) => {
                    return Err(f);
                },
            }
        } else if same(key, "glyphs") {
            match string(value) {
                Ok(s) => match glyphs(s) {
                    Ok(g) => {
                        self.glyphs = Some(g);
                    },
                    Err(f) => {
                        return Err(f);
                    },
                },
                Err(f) => {
                    return Err(f);
                },
            }
        } else if same(key, "palette") {
            match string(value) {
                Ok(s) => match palette(s) {
                    Ok(p) => {
                        self.palette = Some(p);
                    },
                    Err(f) => {
                        return Err(f);
                    },
                },
                Err(f) => {
                    return Err(f);
                },
            }
        } else if same(key, "mouse") {
            match boolean(value) {
                Ok(b) => {
                    self.mouse = Some(b);
                },
                Err(f) => {
                    return Err(f);
                },
            }
        } else {
            match boolean(value) {
                Ok(b) => {
                    self.group_by_stack = Some(b);
                },
                Err(f) => {
                    return Err(f);
                },
            }
        }
        Ok(())
    }
}

fn mentions(keys: &Vec<String>, key: &str) -> (out: bool)
    ensures
        out == keys.deep_view().contains(key@),
{
    let mut i: usize = 0;
    while i < keys.len()
        invariant
            i <= keys.len(),
            forall|k: int| 0 <= k < i ==> #[trigger] keys.deep_view()[k] != key@,
        decreases keys.len() - i,
    {
        assert(keys.deep_view()[i as int] == keys@[i as int]@);
        if same(&keys[i], key) {
            return true;
        }
        i += 1;
    }
    false
}

impl Progress {
    fn take_pair(&mut self, key: String, value: &str) -> (out: Result<(), Fault>)
        ensures
            match out {
                Ok(_) => pair_taken(old(self).deep_view(), key@, value@) == Ok::<
                    ProgressView,
                    FaultView,
                >(final(self).deep_view()),
                Err(f) => pair_taken(old(self).deep_view(), key@, value@) == Err::<
                    ProgressView,
                    FaultView,
                >(f.deep_view()),
            },
    {
        if chars_of(&key).len() == 0 {
            return Err(Fault::MissingKey);
        }
        if mentions(&self.seen, &key) {
            return Err(Fault::SetTwice(key));
        }
        if is_known(&key) {
            match self.config.assign(&key, value) {
                Ok(_) => {},
                Err(f) => {
                    return Err(f);
                },
            }
        } else {
            put(&mut self.warnings, owned(&key));
        }
        put(&mut self.seen, key);
        Ok(())
    }

    fn take_line(&mut self, raw: &[char]) -> (out: Result<(), Fault>)
        ensures
            match out {
                Ok(_) => line_taken(old(self).deep_view(), raw@) == Ok::<ProgressView, FaultView>(
                    final(self).deep_view(),
                ),
                Err(f) => line_taken(old(self).deep_view(), raw@) == Err::<
                    ProgressView,
                    FaultView,
                >(f.deep_view()),
            },
    {
        let line = trimmed(&strip_comment(raw));
        if line.len() == 0 {
            return Ok(());
        }
        if line[0] == '[' {
            return Err(Fault::NoTables);
        }
        let eq = find_char(&line, '=', 0);
        if eq >= line.len() {
            return Err(Fault::NotAPair(string_of(&line)));
        }
        let left = slice_to_chars(&line, 0, eq);
        let right = slice_to_chars(&line, eq + 1, line.len());
        assert(left@ =~= line@.take(eq as int));
        assert(right@ =~= line@.skip(eq + 1));
        let key = string_of(&trimmed(&left));
        let value = string_of(&trimmed(&right));
        self.take_pair(key, &value)
    }
}

/// Parse the file body, apart from reading the file.
pub fn parse(text: &str) -> (out: Result<(Config, Vec<String>), ConfigError>)
    ensures
        match out {
            Ok((config, warnings)) => parsed(text@) == Ok::<
                (ConfigView, Seq<Seq<char>>),
                ConfigErrorView,
            >((config.deep_view(), warnings.deep_view())),
            Err(e) => parsed(text@) == Err::<(ConfigView, Seq<Seq<char>>), ConfigErrorView>(
                e.deep_view(),
            ),
        },
{
    let lines = split_lines(text);
    let ghost all = lines_of(text@);
    let mut p = Progress { config: Config::default(), warnings: Vec::new(), seen: Vec::new() };
    assert(p.warnings.deep_view() =~= Seq::<Seq<char>>::empty());
    assert(p.seen.deep_view() =~= Seq::<Seq<char>>::empty());
    let mut n: usize = 0;
    while n < lines.len()
        invariant
            n <= lines.len(),
            all == lines.deep_view(),
            all == lines_of(text@),
            lines_taken(nothing_said(), all, 0) == lines_taken(p.deep_view(), all, n as int),
        decreases lines.len() - n,
    {
        assert(all[n as int] == lines@[n as int].deep_view());
        assert(lines@[n as int].deep_view() =~= lines@[n as int]@);
        match p.take_line(&lines[n]) {
            Ok(_) => {},
            Err(fault) => {
                return Err(ConfigError { line: n + 1, fault });
            },
        }
        n += 1;
    }
    Ok((p.config, p.warnings))
}

// ---------------------------------------------------------------------------
// Where the file is
// ---------------------------------------------------------------------------

/// A directory that may hold the file.
#[derive(Debug, Clone, Copy, PartialEq, Eq, Structural)]
pub enum Base {
    /// `$XDG_CONFIG_HOME`.
    Xdg,
    /// `$HOME`.
    Home,
}

impl Base {
    /// The way from there to the file.
    pub open spec fn way(self) -> Seq<Seq<char>> {
        match self {
            Base::Xdg => seq!["dockmate.toml"@],
            Base::Home => seq![".config"@, "dockmate.toml"@],
        }
    }

    /// The way from there to the file, one component at a time.
    pub fn components(self) -> (out: Vec<&'static str>)
        ensures
            out@.map_values(|s: &'static str| s@) == self.way(),
    {
        let mut out: Vec<&'static str> = Vec::new();
        match self {
            Base::Xdg => {},
            Base::Home => {
                out.push(".config");
            },
        }
        out.push("dockmate.toml");
        assert(out@.map_values(|s: &'static str| s@) =~= self.way());
        out
    }
}

/// Where the config file lives, going by which of the two variables are set to
/// something: `$XDG_CONFIG_HOME/dockmate.toml`, falling back to
/// `~/.config/dockmate.toml`.
pub fn path(xdg_config_home: bool, home: bool) -> (out: Option<Base>)
    ensures
        out == (if xdg_config_home {
            Some(Base::Xdg)
        } else if home {
            Some(Base::Home)
        } else {
            None
        }),
{
    if xdg_config_home {
        Some(Base::Xdg)
    } else if home {
        Some(Base::Home)
    } else {
        None
    }
}

/// What [`load`] found, including anything the user should know about but that
/// isn't worth refusing to start over.
pub struct Loaded {
    pub config: Config,
    /// The file we read, if there was one. Absent means no config file exists,
    /// which is the normal case and not an error.
    pub path: Option<String>,
    /// Keys we didn't recognise. Surfaced as a toast rather than a hard error:
    /// a typo shouldn't stop the app from starting, but silently doing nothing
    /// is how a setting gets reported as broken.
    pub warnings: Vec<String>,
}

/// What came of reading the file.
pub enum ReadOutcome {
    /// There is nowhere it could be.
    Nowhere,
    /// It isn't there.
    Missing { path: String },
    /// It is there and can't be read.
    Failed { path: String, error: String },
    /// This is what it says.
    Text { path: String, text: String },
}

/// Make of the file what it says. A missing file yields the defaults; an
/// unreadable or malformed one is an error, because a config the user wrote and
/// we then ignored is worse than a message saying which line is wrong.
pub fn load(read: ReadOutcome) -> (out: Result<Loaded, String>)
    ensures
        match read {
            ReadOutcome::Nowhere => out matches Ok(l) && l.config.deep_view() == no_opinions()
                && l.path is None && l.warnings@.len() == 0,
            ReadOutcome::Missing { path } => out matches Ok(l) && l.config.deep_view()
                == no_opinions() && l.path is None && l.warnings@.len() == 0,
            ReadOutcome::Failed { path, error } => out matches Err(e) && e@ == "reading "@ + path@
                + ": "@ + error@,
            ReadOutcome::Text { path, text } => match parsed(text@) {
                Ok((config, warnings)) => out matches Ok(l) && l.config.deep_view() == config
                    && l.warnings.deep_view() == warnings && l.path.deep_view() == Some(path@),
                Err(e) => out matches Err(text) && text@ == path@ + ": "@ + error_text(e),
            },
        },
{
    match read {
        ReadOutcome::Nowhere => Ok(
            Loaded { config: Config::default(), path: None, warnings: Vec::new() },
        ),
        ReadOutcome::Missing { .. } => Ok(
            Loaded { config: Config::default(), path: None, warnings: Vec::new() },
        ),
        ReadOutcome::Failed { path, error } => Err(cat4("reading ", &path, ": ", &error)),
        ReadOutcome::Text { path, text } => match parse(&text) {
            Ok((config, warnings)) => Ok(Loaded { config, path: Some(path), warnings }),
            Err(e) => {
                let message = e.message();
                Err(cat3(&path, ": ", &message))
            },
        },
    }
}

// ---------------------------------------------------------------------------
// What the file promises
// ---------------------------------------------------------------------------

/// A blank line or a comment says nothing.
pub proof fn blank_lines_say_nothing(p: ProgressView, raw: Seq<char>)
    requires
        content_of(raw).len() == 0,
    ensures
        line_taken(p, raw) == Ok::<ProgressView, FaultView>(p),
{
}

/// A key that means nothing warns and changes no setting.
pub proof fn unknown_keys_warn(p: ProgressView, key: Seq<char>, value: Seq<char>)
    requires
        key.len() > 0,
        !p.seen.contains(key),
        !known_key(key),
    ensures
        pair_taken(p, key, value) matches Ok(next) && next.config == p.config && next.warnings
            == p.warnings.push(key),
{
}

proof fn intervals_stay_positive(p: ProgressView, lines: Seq<Seq<char>>, n: int)
    requires
        p.config.interval != Some(0u64),
    ensures
        lines_taken(p, lines, n) matches Ok(end) ==> end.config.interval != Some(0u64),
    decreases lines.len() - n,
{
    if n < lines.len() {
        if let Ok(next) = line_taken(p, lines[n]) {
            intervals_stay_positive(next, lines, n + 1);
        }
    }
}

/// No file sets an interval of zero.
pub proof fn intervals_are_positive(text: Seq<char>)
    ensures
        parsed(text) matches Ok((config, warnings)) ==> config.interval != Some(0u64),
{
    intervals_stay_positive(nothing_said(), lines_of(text), 0);
}

proof fn warnings_are_unknown(p: ProgressView, lines: Seq<Seq<char>>, n: int)
    requires
        forall|k: int| 0 <= k < p.warnings.len() ==> !known_key(#[trigger] p.warnings[k]),
    ensures
        lines_taken(p, lines, n) matches Ok(end) ==> forall|k: int|
            0 <= k < end.warnings.len() ==> !known_key(#[trigger] end.warnings[k]),
    decreases lines.len() - n,
{
    if n < lines.len() {
        if let Ok(next) = line_taken(p, lines[n]) {
            warnings_are_unknown(next, lines, n + 1);
        }
    }
}

/// Only keys that mean nothing are warned about.
pub proof fn known_keys_never_warn(text: Seq<char>, key: Seq<char>)
    requires
        known_key(key),
    ensures
        parsed(text) matches Ok((config, warnings)) ==> !warnings.contains(key),
{
    warnings_are_unknown(nothing_said(), lines_of(text), 0);
}

/// A key set twice is refused, whatever it is set to.
pub proof fn keys_are_set_once(p: ProgressView, key: Seq<char>, value: Seq<char>)
    requires
        key.len() > 0,
        p.seen.contains(key),
    ensures
        pair_taken(p, key, value) == Err::<ProgressView, FaultView>(FaultView::SetTwice(key)),
{
}

/// A literal string says what stands between its quotes.
pub proof fn literal_strings_read_back(text: Seq<char>)
    requires
        !text.contains('\''),
    ensures
        string_value(seq!['\''] + text + seq!['\'']) == Ok::<Seq<char>, FaultView>(text),
{
    let value = seq!['\''] + text + seq!['\''];
    assert(value.subrange(1, value.len() - 1) =~= text);
}

/// A character as a basic string spells it.
pub open spec fn spelled(c: char) -> Seq<char> {
    if c == '"' || c == '\\' {
        seq!['\\', c]
    } else if c == '\n' {
        seq!['\\', 'n']
    } else if c == '\t' {
        seq!['\\', 't']
    } else {
        seq![c]
    }
}

/// A text as a basic string spells it, without the quotes.
pub open spec fn escaped(text: Seq<char>) -> Seq<char>
    decreases text.len(),
{
    if text.len() == 0 {
        Seq::empty()
    } else {
        spelled(text[0]) + escaped(text.drop_first())
    }
}

proof fn escapes_read_back(
    inner: Seq<char>,
    i: int,
    text: Seq<char>,
    out: Seq<char>,
    value: Seq<char>,
)
    requires
        0 <= i <= inner.len(),
        inner.skip(i) == escaped(text),
    ensures
        unescaped(inner, i, out, value) == Ok::<Seq<char>, FaultView>(out + text),
    decreases text.len(),
{
    if text.len() == 0 {
        assert(inner.skip(i).len() == 0);
        assert(out + text =~= out);
    } else {
        let c = text[0];
        let first = spelled(c);
        let rest = text.drop_first();
        assert(inner.skip(i).len() == first.len() + escaped(rest).len());
        assert(inner[i] == inner.skip(i)[0]);
        assert(first.len() == 2 ==> inner[i + 1] == inner.skip(i)[1]);
        assert(inner.skip(i + first.len()) =~= inner.skip(i).skip(first.len() as int));
        assert((first + escaped(rest)).skip(first.len() as int) =~= escaped(rest));
        escapes_read_back(inner, i + first.len(), rest, out.push(c), value);
        assert(out.push(c) + rest =~= out + text);
    }
}

/// Any text can be written as a basic string, and reads back as it was.
pub proof fn basic_strings_read_back(text: Seq<char>)
    ensures
        string_value(seq!['"'] + escaped(text) + seq!['"']) == Ok::<Seq<char>, FaultView>(text),
{
    let value = seq!['"'] + escaped(text) + seq!['"'];
    let inner = value.subrange(1, value.len() - 1);
    assert(inner =~= escaped(text));
    assert(inner.skip(0) =~= inner);
    escapes_read_back(inner, 0, text, Seq::empty(), value);
    assert(Seq::<char>::empty() + text =~= text);
}

proof fn newline_ends_a_line(line: Seq<char>, rest: Seq<char>, from: int)
    requires
        0 <= from <= line.len(),
        !line.contains('\n'),
    ensures
        find(line + seq!['\n'] + rest, '\n', from) == line.len(),
        find(line, '\n', from) == line.len(),
    decreases line.len() - from,
{
    let all = line + seq!['\n'] + rest;
    if from < line.len() {
        newline_ends_a_line(line, rest, from + 1);
        assert(line.contains(line[from]));
        assert(all[from] == line[from]);
    } else {
        assert(all[from] == '\n');
    }
}

/// A file is read line by line: what comes before a newline is one, and the rest is read
/// on by itself.
pub proof fn files_are_read_line_by_line(line: Seq<char>, rest: Seq<char>)
    requires
        !line.contains('\n'),
        !line.contains('\r'),
    ensures
        lines_of(line + seq!['\n'] + rest) == seq![line] + lines_of(rest),
        lines_of(line + seq!['\r', '\n'] + rest) == seq![line] + lines_of(rest),
        line.len() > 0 ==> lines_of(line) == seq![line],
{
    let all = line + seq!['\n'] + rest;
    newline_ends_a_line(line, rest, 0);
    assert(all.take(line.len() as int) =~= line);
    assert(all.skip(line.len() as int + 1) =~= rest);
    if line.len() > 0 {
        assert(line.contains(line[line.len() - 1]));
    }
    let returned = line.push('\r');
    let other = line + seq!['\r', '\n'] + rest;
    assert(!returned.contains('\n')) by {
        if returned.contains('\n') {
            let i = choose|i: int| 0 <= i < returned.len() && returned[i] == '\n';
            assert(line[i] == '\n');
        }
    }
    newline_ends_a_line(returned, rest, 0);
    assert(other =~= returned + seq!['\n'] + rest);
    assert(other.take(returned.len() as int) =~= returned);
    assert(other.skip(returned.len() as int + 1) =~= rest);
    assert(returned.drop_last() =~= line);
}

proof fn unquoted_text_ends_at_the_mark(text: Seq<char>, comment: Seq<char>, from: int)
    requires
        0 <= from <= text.len(),
        !text.contains('#'),
        !text.contains('"'),
        !text.contains('\''),
    ensures
        comment_at(text + seq!['#'] + comment, from, None, false) == text.len(),
        comment_at(text, from, None, false) == text.len(),
    decreases text.len() - from,
{
    let all = text + seq!['#'] + comment;
    if from < text.len() {
        unquoted_text_ends_at_the_mark(text, comment, from + 1);
        assert(text.contains(text[from]));
        assert(all[from] == text[from]);
    } else {
        assert(all[from] == '#');
    }
}

/// Outside quotes, what follows a `#` is not read.
pub proof fn comments_are_not_read(text: Seq<char>, comment: Seq<char>)
    requires
        !text.contains('#'),
        !text.contains('"'),
        !text.contains('\''),
    ensures
        content_of(text + seq!['#'] + comment) == content_of(text),
{
    let all = text + seq!['#'] + comment;
    unquoted_text_ends_at_the_mark(text, comment, 0);
    assert(all.take(text.len() as int) =~= text);
    assert(text.take(text.len() as int) =~= text);
}

proof fn equals_parts_a_line(key: Seq<char>, value: Seq<char>, from: int)
    requires
        0 <= from <= key.len(),
        !key.contains('='),
    ensures
        find(key + seq!['='] + value, '=', from) == key.len(),
    decreases key.len() - from,
{
    let all = key + seq!['='] + value;
    if from < key.len() {
        equals_parts_a_line(key, value, from + 1);
        assert(key.contains(key[from]));
        assert(all[from] == key[from]);
    } else {
        assert(all[from] == '=');
    }
}

/// A line gives its key, up to the first `=`, its value, which is all that follows.
pub proof fn lines_give_keys_their_values(
    p: ProgressView,
    raw: Seq<char>,
    key: Seq<char>,
    value: Seq<char>,
)
    requires
        content_of(raw) == key + seq!['='] + value,
        !key.contains('='),
        key.len() > 0 && key[0] != '[',
    ensures
        line_taken(p, raw) == pair_taken(p, trim(key), trim(value)),
{
    let line = content_of(raw);
    equals_parts_a_line(key, value, 0);
    assert(line[0] == key[0]);
    assert(line.take(key.len() as int) =~= key);
    assert(line.skip(key.len() as int + 1) =~= value);
}

proof fn keys_are_told_apart()
    ensures
        "host"@.len() == 4,
        "interval"@.len() == 8,
        "glyphs"@.len() == 6,
        "palette"@.len() == 7,
        "mouse"@.len() == 5,
        "group_by_stack"@.len() == 14,
{
    reveal_strlit("host");
    reveal_strlit("interval");
    reveal_strlit("glyphs");
    reveal_strlit("palette");
    reveal_strlit("mouse");
    reveal_strlit("group_by_stack");
}

/// Each key sets the setting that it is called after, and leaves every other as it is.
pub proof fn keys_set_their_own_setting(config: ConfigView, value: Seq<char>)
    ensures
        assigned(config, "host"@, value) matches Ok(c) ==> string_value(value) is Ok && c == (
        ConfigView { host: Some(string_value(value)->Ok_0), ..config }),
        assigned(config, "interval"@, value) matches Ok(c) ==> integer_of(value) is Ok && c == (
        ConfigView { interval: Some(integer_of(value)->Ok_0), ..config }),
        assigned(config, "mouse"@, value) matches Ok(c) ==> c == (ConfigView {
            mouse: Some(value == "true"@),
            ..config
        }),
        assigned(config, "group_by_stack"@, value) matches Ok(c) ==> c == (ConfigView {
            group_by_stack: Some(value == "true"@),
            ..config
        }),
        assigned(config, "glyphs"@, value) matches Ok(c) ==> c.glyphs is Some && c == (ConfigView {
            glyphs: c.glyphs,
            ..config
        }),
        assigned(config, "palette"@, value) matches Ok(c) ==> c.palette is Some && c == (
        ConfigView { palette: c.palette, ..config }),
{
    keys_are_told_apart();
    reveal_strlit("true");
    reveal_strlit("false");
    assert("true"@.len() == 4 && "false"@.len() == 5);
}

/// The glyph sets and palettes go by these names, and by no others.
pub proof fn glyphs_and_palettes_go_by_their_names(name: Seq<char>)
    ensures
        glyphs_called(name) == Ok::<Glyphs, FaultView>(Glyphs::Ascii) <==> name == "ascii"@,
        glyphs_called(name) == Ok::<Glyphs, FaultView>(Glyphs::Nerd) <==> name == "nerd"@,
        glyphs_called(name) == Ok::<Glyphs, FaultView>(Glyphs::Unicode) <==> name == "unicode"@,
        palette_called(name) == Ok::<Palette, FaultView>(Palette::TrueColor) <==> name
            == "truecolor"@,
        palette_called(name) == Ok::<Palette, FaultView>(Palette::Ansi) <==> name == "ansi"@,
        palette_called(name) == Ok::<Palette, FaultView>(Palette::Mono) <==> name == "none"@,
{
    reveal_strlit("ascii");
    reveal_strlit("nerd");
    reveal_strlit("unicode");
    reveal_strlit("truecolor");
    reveal_strlit("ansi");
    reveal_strlit("none");
    assert("ascii"@.len() == 5 && "nerd"@.len() == 4 && "unicode"@.len() == 7);
    assert("truecolor"@.len() == 9 && "ansi"@.len() == 4 && "none"@.len() == 4);
    assert("ansi"@[0] == 'a' && "none"@[0] == 'n');
}

proof fn digits_have_no_underscores(s: Seq<char>)
    requires
        forall|i: int| 0 <= i < s.len() ==> digit(#[trigger] s[i]),
    ensures
        without_underscores(s) == s,
    decreases s.len(),
{
    if s.len() > 0 {
        assert(digit(s[s.len() - 1]));
        assert forall|i: int| 0 <= i < s.drop_last().len() implies digit(
            #[trigger] s.drop_last()[i],
        ) by {
            assert(digit(s[i]));
        }
        digits_have_no_underscores(s.drop_last());
        assert(s.drop_last().push(s.last()) =~= s);
    }
}

proof fn decimals_have_their_value(n: nat)
    ensures
        digits_value(dec(n)) == n,
        all_digits(dec(n)),
    decreases n,
{
    if n < 10 {
        let s = seq![digit_char(n as int)];
        assert(s.drop_last() =~= Seq::<char>::empty());
        assert(digits_value(Seq::<char>::empty()) == 0);
        assert(s.last() as int == 48 + n);
    } else {
        decimals_have_their_value(n / 10);
        let low = dec(n / 10);
        let s = low.push(digit_char((n % 10) as int));
        assert(s.drop_last() =~= low);
        assert(s.last() as int == 48 + n % 10);
        assert forall|i: int| 0 <= i < s.len() implies digit(#[trigger] s[i]) by {
            if i < low.len() {
                assert(s[i] == low[i]);
            }
        }
    }
}

/// A whole number reads as itself, with a plus in front of it or without.
pub proof fn whole_numbers_read_back(n: u64)
    ensures
        integer_of(dec(n as nat)) == Ok::<u64, FaultView>(n),
        integer_of(seq!['+'] + dec(n as nat)) == Ok::<u64, FaultView>(n),
{
    let s = dec(n as nat);
    decimals_have_their_value(n as nat);
    digits_have_no_underscores(s);
    assert(digit(s[0]));
    let plus = seq!['+'] + s;
    added_in_front(s);
    assert(plus.skip(1) =~= s);
}

proof fn added_in_front(s: Seq<char>)
    requires
        forall|i: int| 0 <= i < s.len() ==> digit(#[trigger] s[i]),
    ensures
        without_underscores(seq!['+'] + s) == seq!['+'] + s,
    decreases s.len(),
{
    let plus = seq!['+'] + s;
    if s.len() == 0 {
        assert(plus =~= seq!['+']);
        assert(plus.drop_last() =~= Seq::<char>::empty());
        assert(without_underscores(Seq::<char>::empty()) =~= Seq::<char>::empty());
        assert(without_underscores(plus) =~= plus);
    } else {
        assert(digit(s[s.len() - 1]));
        assert forall|i: int| 0 <= i < s.drop_last().len() implies digit(
            #[trigger] s.drop_last()[i],
        ) by {
            assert(digit(s[i]));
        }
        added_in_front(s.drop_last());
        assert(plus.drop_last() =~= seq!['+'] + s.drop_last());
        assert((seq!['+'] + s.drop_last()).push(s.last()) =~= plus);
    }
}

/// Underscores between the digits of a number do not count.
pub proof fn underscores_do_not_count(a: Seq<char>, b: Seq<char>)
    ensures
        integer_of(a + b) is Ok ==> integer_of(a + seq!['_'] + b) == integer_of(a + b),
{
    one_underscore_less(a, b);
}

proof fn one_underscore_less(a: Seq<char>, b: Seq<char>)
    ensures
        without_underscores(a + seq!['_'] + b) == without_underscores(a + b),
    decreases b.len(),
{
    let with = a + seq!['_'] + b;
    if b.len() == 0 {
        assert(with.drop_last() =~= a);
        assert(a + b =~= a);
    } else {
        one_underscore_less(a, b.drop_last());
        assert(with.drop_last() =~= a + seq!['_'] + b.drop_last());
        assert((a + b).drop_last() =~= a + b.drop_last());
    }
}

/// An error is told with the number of its line, counted from one: the first line that
/// cannot be taken, whatever comes after it.
pub proof fn errors_name_their_line(p: ProgressView, lines: Seq<Seq<char>>, n: int)
    requires
        0 <= n <= lines.len(),
    ensures
        lines_taken(p, lines, n) matches Err(e) ==> n < e.line <= lines.len(),
        n < lines.len() ==> (line_taken(p, lines[n]) matches Err(fault) ==> lines_taken(p, lines, n)
            == Err::<ProgressView, ConfigErrorView>(ConfigErrorView { line: (n + 1) as nat, fault })),
    decreases lines.len() - n,
{
    if n < lines.len() {
        if let Ok(next) = line_taken(p, lines[n]) {
            errors_name_their_line(next, lines, n + 1);
        }
    }
}

} // verus!
