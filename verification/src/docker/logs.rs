//! Container log streaming.
//!
//! Only one stream is ever open — the one for the selected container. Each
//! stream carries a generation number so that lines still in flight when the
//! user moves the selection are discarded instead of polluting the new buffer.

use vstd::prelude::*;
use vstd::utf8::{decode_utf8, encode_utf8, is_char_boundary, valid_utf8};

use crate::docker::{friendly, friendly_error, ApiError};
use crate::event::{AppEvent, AppEventView};
use crate::text::{chars_of, digit, find, find_char, is_digit, owned, put, string_between};

verus! {

broadcast use vstd::string::group_string_axioms;

/// How many lines of history to ask Docker for when attaching.
pub const TAIL: u32 = 1000;

/// How long a silent stream is still considered to be connecting, in
/// milliseconds.
///
/// Docker has no "attached" signal: the response stays open and says nothing
/// until the container writes. So silence can't be told apart from a connection
/// still being set up, and a container that never logs at all — `sleep
/// infinity`, an idle sidecar — would leave the pane spinning on "attaching…"
/// for as long as it's selected. Long enough not to flicker on a busy daemon,
/// short enough not to look stuck.
pub const ATTACH_GRACE: u64 = 600;

/// Which of a container's output streams a line came from.
#[derive(Debug, Clone, Copy, PartialEq, Eq, Structural)]
pub enum Stream {
    Stdout,
    Stderr,
}

/// One line of output.
#[derive(Debug, Clone, PartialEq, Eq)]
pub struct LogLine {
    /// The time Docker stamped the line with, split off so it can be styled
    /// (and hidden) independently of the message.
    pub timestamp: Option<String>,
    pub text: String,
    pub stream: Stream,
}

/// The mathematical value of a [`LogLine`].
#[verifier::ext_equal]
pub struct LogLineView {
    pub timestamp: Option<Seq<char>>,
    pub text: Seq<char>,
    pub stream: Stream,
}

impl DeepView for LogLine {
    type V = LogLineView;

    open spec fn deep_view(&self) -> LogLineView {
        LogLineView {
            timestamp: self.timestamp.deep_view(),
            text: self.text@,
            stream: self.stream,
        }
    }
}

// ---------------------------------------------------------------------------
// One line
// ---------------------------------------------------------------------------

/// Whether the word `s` has the shape of `2026-08-10T10:22:14.123456789Z`.
pub open spec fn timestamp_shaped(s: Seq<char>) -> bool {
    let b = encode_utf8(s);
    &&& b.len() >= 20
    &&& b[4] == 0x2D
    &&& b[7] == 0x2D
    &&& b[10] == 0x54
    &&& b[13] == 0x3A
    &&& s.len() > 0
    &&& digit(s[0])
}

/// Whether the word `s` has the shape of a timestamp.
pub fn looks_like_timestamp(s: &str) -> (out: bool)
    ensures
        out == timestamp_shaped(s@),
{
    let b = s.as_bytes();
    if b.len() < 20 {
        return false;
    }
    let v = chars_of(s);
    b[4] == 0x2D && b[7] == 0x2D && b[10] == 0x54 && b[13] == 0x3A && v.len() > 0 && is_digit(v[0])
}

/// The time of day as it stands in a timestamp, in whatever zone that is. The
/// whole text when the field would cut a character in half.
pub open spec fn raw_time(s: Seq<char>) -> Seq<char> {
    let b = encode_utf8(s);
    if is_char_boundary(b, 11) && is_char_boundary(b, 19) {
        decode_utf8(b.subrange(11, 19))
    } else {
        s
    }
}

proof fn boundary_survives(b: Seq<u8>, i: int, j: int)
    requires
        valid_utf8(b),
        0 <= i < j <= b.len(),
        is_char_boundary(b, i),
        is_char_boundary(b, j),
    ensures
        is_char_boundary(b.subrange(0, j), i),
{
    vstd::utf8::valid_utf8_split(b, j);
    vstd::utf8::is_char_boundary_iff_not_is_continuation_byte(b, i);
    vstd::utf8::is_char_boundary_iff_not_is_continuation_byte(b.subrange(0, j), i);
}

fn raw_clock(s: &str) -> (out: String)
    requires
        encode_utf8(s@).len() >= 20,
    ensures
        out@ == raw_time(s@),
{
    broadcast use vstd::utf8::encode_utf8_valid_utf8;
    broadcast use vstd::utf8::encode_utf8_decode_utf8;

    if s.is_char_boundary(11) && s.is_char_boundary(19) {
        let ghost b = encode_utf8(s@);
        let head = s.split_at(19).0;
        proof {
            boundary_survives(b, 11, 19);
        }
        let field = head.split_at(11).1;
        proof {
            assert(encode_utf8(field@) =~= b.subrange(11, 19));
            assert(decode_utf8(encode_utf8(field@)) == field@);
        }
        owned(field)
    } else {
        owned(s)
    }
}

/// What `chrono` accepts as an RFC 3339 date and time.
pub uninterp spec fn rfc3339(text: Seq<char>) -> bool;

/// `15:52:14`.
pub open spec fn clock_shaped(s: Seq<char>) -> bool {
    &&& s.len() == 8
    &&& s[2] == ':' && s[5] == ':'
    &&& digit(s[0]) && digit(s[1]) && digit(s[3]) && digit(s[4]) && digit(s[6]) && digit(s[7])
}

/// `chrono::DateTime::parse_from_rfc3339`, taken to the machine's own time
/// zone and written as `layout` says: hours, minutes and seconds. Whether there is
/// a result depends on the text alone; which time it is depends on the machine, so
/// no more is said of it than that it is a time of day.
#[verifier::external_body]
fn local_clock(ts: &str, layout: &str) -> (out: Option<String>)
    requires
        layout@ == "%H:%M:%S"@,
    ensures
        out is Some <==> rfc3339(ts@),
        out matches Some(t) ==> clock_shaped(t@),
{
    match chrono::DateTime::parse_from_rfc3339(ts) {
        Ok(dt) => Some(dt.with_timezone(&chrono::Local).format(layout).to_string()),
        Err(_) => None,
    }
}

/// What stands before the first space of a line.
pub open spec fn first_word(raw: Seq<char>) -> Seq<char> {
    raw.take(find(raw, ' ', 0))
}

/// Whether a line starts with a timestamp and a space.
pub open spec fn stamped(raw: Seq<char>) -> bool {
    find(raw, ' ', 0) < raw.len() && timestamp_shaped(first_word(raw))
}

/// The line that `raw` is, if `clock` is what its timestamp reads in the
/// viewer's own time zone; without that, the raw time field is kept.
pub open spec fn line_of(raw: Seq<char>, stream: Stream, clock: Option<Seq<char>>) -> LogLineView {
    if stamped(raw) {
        LogLineView {
            timestamp: Some(
                match clock {
                    Some(t) => t,
                    None => raw_time(first_word(raw)),
                },
            ),
            text: raw.skip(find(raw, ' ', 0) + 1),
            stream,
        }
    } else {
        LogLineView { timestamp: None, text: raw, stream }
    }
}

/// Whether `clock` may be what the timestamp of `raw` reads on some machine.
pub open spec fn reads(raw: Seq<char>, clock: Option<Seq<char>>) -> bool {
    &&& stamped(raw) ==> (clock is Some <==> rfc3339(first_word(raw)))
    &&& clock matches Some(t) ==> clock_shaped(t)
}

/// Whether `line` is what `raw` parses to, whatever the machine's time zone.
pub open spec fn parses_to(raw: Seq<char>, stream: Stream, line: LogLineView) -> bool {
    exists|clock: Option<Seq<char>>| #[trigger]
        reads(raw, clock) && line == line_of(raw, stream, clock)
}

/// Split the timestamp off the front of a line, `clock` being what it reads in
/// the viewer's own time zone.
pub fn line_with(raw: &str, stream: Stream, clock: Option<String>) -> (out: LogLine)
    ensures
        out.deep_view() == line_of(raw@, stream, clock.deep_view()),
{
    let v = chars_of(raw);
    let p = find_char(&v, ' ', 0);
    if p < v.len() {
        let word = string_between(&v, 0, p);
        assert(word@ =~= first_word(raw@));
        if looks_like_timestamp(&word) {
            let text = string_between(&v, p + 1, v.len());
            assert(text@ =~= raw@.skip(p + 1));
            let timestamp = match clock {
                Some(t) => t,
                // Unparseable but timestamp-shaped: fall back to the raw time
                // field rather than dropping information.
                None => raw_clock(&word),
            };
            return LogLine { timestamp: Some(timestamp), text, stream };
        }
    }
    LogLine { timestamp: None, text: owned(raw), stream }
}

/// Split Docker's timestamp prefix off the front of a line.
///
/// Docker emits RFC3339Nano followed by a single space. Recognising it by shape
/// rather than parsing keeps this cheap, and a line that merely looks like a
/// timestamp is still displayed identically. Docker stamps logs in UTC, which
/// is a constant source of confusion when you're correlating them against
/// anything else on your machine, so the time is shown in the viewer's own
/// zone. Sub-second precision is dropped: it's noise when scanning by eye.
pub fn parse_line(raw: &str, stream: Stream) -> (out: LogLine)
    ensures
        parses_to(raw@, stream, out.deep_view()),
{
    let v = chars_of(raw);
    let p = find_char(&v, ' ', 0);
    let word = string_between(&v, 0, p);
    assert(word@ =~= first_word(raw@));
    let clock = if p < v.len() && looks_like_timestamp(&word) {
        local_clock(&word, "%H:%M:%S")
    } else {
        None
    };
    let ghost read = clock.deep_view();
    let out = line_with(raw, stream, clock);
    assert(reads(raw@, read));
    out
}

// ---------------------------------------------------------------------------
// Bytes to lines
// ---------------------------------------------------------------------------

/// Bytes as text, whatever is not UTF-8 replaced.
pub uninterp spec fn lossy_text(bytes: Seq<u8>) -> Seq<char>;

/// `String::from_utf8_lossy`: valid UTF-8 is decoded; what takes the place of
/// the rest depends on the bytes alone.
#[verifier::external_body]
fn lossy(bytes: &[u8]) -> (out: String)
    ensures
        out@ == lossy_text(bytes@),
        valid_utf8(bytes@) ==> out@ == decode_utf8(bytes@),
{
    String::from_utf8_lossy(bytes).into_owned()
}

/// What bytes say: what they are the encoding of, or as much of it as can be read.
pub open spec fn text_of(bytes: Seq<u8>) -> Seq<char> {
    if valid_utf8(bytes) {
        decode_utf8(bytes)
    } else {
        lossy_text(bytes)
    }
}

/// A line without the carriage return before its newline.
pub open spec fn without_cr(line: Seq<u8>) -> Seq<u8> {
    if line.len() > 0 && line.last() == 0x0D {
        line.drop_last()
    } else {
        line
    }
}

/// The first position from `from` on that holds a newline, or the end.
pub open spec fn newline(buf: Seq<u8>, from: int) -> int
    decreases buf.len() - from,
{
    if from >= buf.len() {
        buf.len() as int
    } else if buf[from] == 0x0A {
        from
    } else {
        newline(buf, from + 1)
    }
}

/// The complete lines in `buf`, without their newlines.
pub open spec fn whole_lines(buf: Seq<u8>) -> Seq<Seq<u8>>
    decreases buf.len(),
{
    let p = newline(buf, 0);
    if p < 0 || p >= buf.len() {
        Seq::empty()
    } else {
        seq![buf.take(p)] + whole_lines(buf.skip(p + 1))
    }
}

/// What follows the last newline in `buf`.
pub open spec fn unfinished(buf: Seq<u8>) -> Seq<u8>
    decreases buf.len(),
{
    let p = newline(buf, 0);
    if p < 0 || p >= buf.len() {
        buf
    } else {
        unfinished(buf.skip(p + 1))
    }
}

proof fn newline_is_first(buf: Seq<u8>, from: int)
    requires
        0 <= from <= buf.len(),
    ensures
        from <= newline(buf, from) <= buf.len(),
        newline(buf, from) < buf.len() ==> buf[newline(buf, from)] == 0x0A,
        forall|i: int| from <= i < newline(buf, from) ==> buf[i] != 0x0A,
    decreases buf.len() - from,
{
    if from < buf.len() && buf[from] != 0x0A {
        newline_is_first(buf, from + 1);
    }
}

fn find_newline(buf: &Vec<u8>) -> (out: usize)
    ensures
        out == newline(buf@, 0),
        out <= buf.len(),
{
    let mut i: usize = 0;
    while i < buf.len()
        invariant
            i <= buf.len(),
            newline(buf@, 0) == newline(buf@, i as int),
        decreases buf.len() - i,
    {
        if buf[i] == 0x0A {
            return i;
        }
        i += 1;
    }
    i
}

fn copy_bytes(buf: &Vec<u8>, from: usize, to: usize) -> (out: Vec<u8>)
    requires
        from <= to <= buf.len(),
    ensures
        out@ == buf@.subrange(from as int, to as int),
{
    let mut out: Vec<u8> = Vec::new();
    let mut i: usize = from;
    while i < to
        invariant
            from <= i <= to <= buf.len(),
            out@ == buf@.subrange(from as int, i as int),
        decreases to - i,
    {
        out.push(buf[i]);
        assert(buf@.subrange(from as int, i + 1) =~= buf@.subrange(from as int, i as int).push(
            buf@[i as int],
        ));
        i += 1;
    }
    out
}

fn line_from_bytes(bytes: Vec<u8>, which: Stream) -> (out: LogLine)
    ensures
        parses_to(text_of(without_cr(bytes@)), which, out.deep_view()),
{
    let mut bytes = bytes;
    if bytes.len() > 0 && bytes[bytes.len() - 1] == 0x0D {
        let ghost whole = bytes@;
        let _ = bytes.pop();
        assert(bytes@ =~= without_cr(whole));
    }
    parse_line(&lossy(&bytes), which)
}

/// Emit whatever is left in a buffer as a final, unterminated line.
///
/// Docker frames output per write, so the last thing a container printed need
/// not end in a newline — a shell prompt, a progress line, or a program that
/// simply didn't print one. While the stream is live, holding those bytes back
/// is right: the rest of the line is probably still coming. Once the stream is
/// over there is no rest, and dropping the buffer would silently swallow the
/// container's last words.
pub fn flush(buf: &mut Vec<u8>, which: Stream, generation: u64) -> (out: Option<AppEvent>)
    ensures
        final(buf)@.len() == 0,
        out is None <==> old(buf)@.len() == 0,
        out matches Some(ev) ==> says_line(ev.deep_view(), generation, old(buf)@, which),
{
    if buf.len() == 0 {
        return None;
    }
    let rest = copy_bytes(buf, 0, buf.len());
    assert(rest@ =~= buf@);
    buf.clear();
    Some(AppEvent::LogLine { generation, line: line_from_bytes(rest, which) })
}

/// Whether an event carries the line that `bytes` spell.
pub open spec fn says_line(ev: AppEventView, generation: u64, bytes: Seq<u8>, which: Stream) -> bool {
    match ev {
        AppEventView::LogLine { generation: g, line } => g == generation && parses_to(
            text_of(without_cr(bytes)),
            which,
            line,
        ),
        _ => false,
    }
}

/// Whether `events` carry the lines that `lines` spell.
pub open spec fn says_lines(
    events: Seq<AppEventView>,
    generation: u64,
    lines: Seq<Seq<u8>>,
    which: Stream,
) -> bool {
    &&& events.len() == lines.len()
    &&& forall|i: int|
        0 <= i < lines.len() ==> says_line(#[trigger] events[i], generation, lines[i], which)
}

fn drain(buf: &mut Vec<u8>, which: Stream, generation: u64) -> (out: Vec<AppEvent>)
    ensures
        final(buf)@ == unfinished(old(buf)@),
        says_lines(out.deep_view(), generation, whole_lines(old(buf)@), which),
{
    let ghost all = buf@;
    let mut out: Vec<AppEvent> = Vec::new();
    let ghost mut done: Seq<Seq<u8>> = Seq::empty();
    assert(done + whole_lines(buf@) =~= whole_lines(all));
    let mut p = find_newline(buf);
    while p < buf.len()
        invariant
            p == newline(buf@, 0),
            p <= buf.len(),
            done + whole_lines(buf@) == whole_lines(all),
            unfinished(buf@) == unfinished(all),
            says_lines(out.deep_view(), generation, done, which),
        decreases buf.len(),
    {
        let ghost now = buf@;
        let line = copy_bytes(buf, 0, p);
        let rest = copy_bytes(buf, p + 1, buf.len());
        assert(line@ =~= now.take(p as int));
        assert(rest@ =~= now.skip(p + 1));
        let ghost raw = line@;
        *buf = rest;
        let ev = AppEvent::LogLine { generation, line: line_from_bytes(line, which) };
        put(&mut out, ev);
        proof {
            assert(whole_lines(now) == seq![raw] + whole_lines(now.skip(p + 1)));
            assert(done.push(raw) + whole_lines(buf@) =~= done + whole_lines(now));
            done = done.push(raw);
        }
        p = find_newline(buf);
    }
    assert(whole_lines(buf@) =~= Seq::<Seq<u8>>::empty());
    assert(done =~= whole_lines(all));
    out
}

// ---------------------------------------------------------------------------
// The stream
// ---------------------------------------------------------------------------

/// Where the bytes of a frame belong.
#[derive(Debug, Clone, Copy, PartialEq, Eq, Structural)]
pub enum FrameKind {
    StdIn,
    StdOut,
    StdErr,
    Console,
}

/// What happens to an open stream.
#[derive(Debug)]
pub enum LogInput {
    /// Nothing arrived within the grace period.
    Quiet,
    /// Some bytes arrived.
    Frame { kind: FrameKind, bytes: Vec<u8> },
    /// The stream failed.
    Failed(ApiError),
    /// The stream is over.
    Ended,
}

/// A stream being read. Docker frames log output per write, not per line, so a
/// single frame may hold several lines or half of one: each output stream is
/// buffered, and a line is only emitted at its newline.
pub struct LogReader {
    pub generation: u64,
    pub stdout: Vec<u8>,
    pub stderr: Vec<u8>,
    /// Only the first frame is raced against the grace timer; once anything
    /// has arrived the stream is plainly attached and we wait indefinitely.
    pub first: bool,
}

/// The stream that a frame's bytes are part of, if they are output at all.
pub open spec fn stream_of(kind: FrameKind) -> Option<Stream> {
    match kind {
        FrameKind::StdErr => Some(Stream::Stderr),
        FrameKind::StdOut | FrameKind::Console => Some(Stream::Stdout),
        FrameKind::StdIn => None,
    }
}

/// What the buffers hold, in the order they are flushed in.
pub open spec fn leftovers(stdout: Seq<u8>, stderr: Seq<u8>) -> Seq<(Seq<u8>, Stream)> {
    let first = if stdout.len() > 0 {
        seq![(stdout, Stream::Stdout)]
    } else {
        Seq::empty()
    };
    if stderr.len() > 0 {
        first.push((stderr, Stream::Stderr))
    } else {
        first
    }
}

/// Whether `events` carry what was left over, and then `last`.
pub open spec fn flushes(
    events: Seq<AppEventView>,
    generation: u64,
    left: Seq<(Seq<u8>, Stream)>,
    last: AppEventView,
) -> bool {
    &&& events.len() == left.len() + 1
    &&& forall|i: int|
        0 <= i < left.len() ==> says_line(#[trigger] events[i], generation, left[i].0, left[i].1)
    &&& events.last() == last
}

impl LogReader {
    /// A stream that nothing has arrived on yet.
    pub fn new(generation: u64) -> (out: LogReader)
        ensures
            out.generation == generation,
            out.stdout@.len() == 0,
            out.stderr@.len() == 0,
            out.first,
    {
        LogReader { generation, stdout: Vec::new(), stderr: Vec::new(), first: true }
    }

    fn flush_into(&mut self, events: &mut Vec<AppEvent>)
        requires
            old(events)@.len() == 0,
        ensures
            final(self).generation == old(self).generation,
            final(self).first == old(self).first,
            final(self).stdout@.len() == 0,
            final(self).stderr@.len() == 0,
            final(events).deep_view().len() == leftovers(
                old(self).stdout@,
                old(self).stderr@,
            ).len(),
            forall|i: int|
                0 <= i < leftovers(old(self).stdout@, old(self).stderr@).len() ==> says_line(
                    #[trigger] final(events).deep_view()[i],
                    old(self).generation,
                    leftovers(old(self).stdout@, old(self).stderr@)[i].0,
                    leftovers(old(self).stdout@, old(self).stderr@)[i].1,
                ),
    {
        if let Some(ev) = flush(&mut self.stdout, Stream::Stdout, self.generation) {
            put(events, ev);
        }
        if let Some(ev) = flush(&mut self.stderr, Stream::Stderr, self.generation) {
            put(events, ev);
        }
    }

    /// Take in what happened to the stream: what to tell the UI about it, and
    /// whether there is nothing more to read.
    pub fn step(&mut self, input: LogInput) -> (out: (Vec<AppEvent>, bool))
        ensures
            final(self).generation == old(self).generation,
            !final(self).first,
            out.1 == (input is Failed || input is Ended),
            match input {
                LogInput::Quiet => {
                    &&& final(self).stdout@ == old(self).stdout@
                    &&& final(self).stderr@ == old(self).stderr@
                    &&& out.0.deep_view() == seq![
                        AppEventView::LogAttached { generation: old(self).generation },
                    ]
                },
                LogInput::Frame { kind, bytes } => match stream_of(kind) {
                    Some(Stream::Stdout) => {
                        &&& final(self).stdout@ == unfinished(old(self).stdout@ + bytes@)
                        &&& final(self).stderr@ == old(self).stderr@
                        &&& says_lines(
                            out.0.deep_view(),
                            old(self).generation,
                            whole_lines(old(self).stdout@ + bytes@),
                            Stream::Stdout,
                        )
                    },
                    Some(Stream::Stderr) => {
                        &&& final(self).stderr@ == unfinished(old(self).stderr@ + bytes@)
                        &&& final(self).stdout@ == old(self).stdout@
                        &&& says_lines(
                            out.0.deep_view(),
                            old(self).generation,
                            whole_lines(old(self).stderr@ + bytes@),
                            Stream::Stderr,
                        )
                    },
                    None => {
                        &&& final(self).stdout@ == old(self).stdout@
                        &&& final(self).stderr@ == old(self).stderr@
                        &&& out.0@.len() == 0
                    },
                },
                LogInput::Failed(err) => {
                    &&& final(self).stdout@.len() == 0
                    &&& final(self).stderr@.len() == 0
                    &&& flushes(
                        out.0.deep_view(),
                        old(self).generation,
                        leftovers(old(self).stdout@, old(self).stderr@),
                        AppEventView::LogError {
                            generation: old(self).generation,
                            message: friendly(err.deep_view()),
                        },
                    )
                },
                LogInput::Ended => {
                    &&& final(self).stdout@.len() == 0
                    &&& final(self).stderr@.len() == 0
                    &&& flushes(
                        out.0.deep_view(),
                        old(self).generation,
                        leftovers(old(self).stdout@, old(self).stderr@),
                        AppEventView::LogEnd { generation: old(self).generation },
                    )
                },
            },
    {
        self.first = false;
        let generation = self.generation;
        let mut events: Vec<AppEvent> = Vec::new();
        match input {
            LogInput::Quiet => {
                put(&mut events, AppEvent::LogAttached { generation });
                assert(events.deep_view() =~= seq![AppEventView::LogAttached { generation }]);
                (events, false)
            },
            LogInput::Frame { kind, bytes } => {
                let mut bytes = bytes;
                match kind {
                    FrameKind::StdErr => {
                        self.stderr.append(&mut bytes);
                        (drain(&mut self.stderr, Stream::Stderr, generation), false)
                    },
                    FrameKind::StdOut | FrameKind::Console => {
                        self.stdout.append(&mut bytes);
                        (drain(&mut self.stdout, Stream::Stdout, generation), false)
                    },
                    FrameKind::StdIn => (events, false),
                }
            },
            LogInput::Failed(err) => {
                // Whatever already made it through is real output; show it
                // before the error rather than losing it to the failure.
                self.flush_into(&mut events);
                put(
                    &mut events,
                    AppEvent::LogError { generation, message: friendly_error(&err) },
                );
                (events, true)
            },
            LogInput::Ended => {
                self.flush_into(&mut events);
                put(&mut events, AppEvent::LogEnd { generation });
                (events, true)
            },
        }
    }
}

// ---------------------------------------------------------------------------
// What buffering promises
// ---------------------------------------------------------------------------

proof fn newline_in_front(a: Seq<u8>, b: Seq<u8>, from: int)
    requires
        0 <= from <= a.len(),
        newline(a, from) < a.len(),
    ensures
        newline(a + b, from) == newline(a, from),
    decreases a.len() - from,
{
    if a[from] != 0x0A {
        newline_in_front(a, b, from + 1);
    }
}

/// Where one frame ends and the next begins makes no difference: reading `a`
/// and then `b` yields the lines, and leaves the bytes, that reading both at
/// once does.
pub proof fn framing_does_not_matter(a: Seq<u8>, b: Seq<u8>)
    ensures
        whole_lines(a + b) == whole_lines(a) + whole_lines(unfinished(a) + b),
        unfinished(a + b) == unfinished(unfinished(a) + b),
    decreases a.len(),
{
    newline_is_first(a, 0);
    let p = newline(a, 0);
    if p < a.len() {
        newline_in_front(a, b, 0);
        let rest = a.skip(p + 1);
        framing_does_not_matter(rest, b);
        assert((a + b).take(p) =~= a.take(p));
        assert((a + b).skip(p + 1) =~= rest + b);
        assert(seq![a.take(p)] + (whole_lines(rest) + whole_lines(unfinished(a) + b)) =~= seq![
            a.take(p),
        ] + whole_lines(rest) + whole_lines(unfinished(a) + b));
    } else {
        assert(whole_lines(a) + whole_lines(a + b) =~= whole_lines(a + b));
    }
}

/// No line holds a newline, and neither do the bytes still waiting for theirs.
pub proof fn lines_hold_no_newline(buf: Seq<u8>, i: int, k: int)
    ensures
        0 <= i < whole_lines(buf).len() && 0 <= k < whole_lines(buf)[i].len()
            ==> whole_lines(buf)[i][k] != 0x0A,
        0 <= k < unfinished(buf).len() ==> unfinished(buf)[k] != 0x0A,
    decreases buf.len(),
{
    newline_is_first(buf, 0);
    let p = newline(buf, 0);
    if p < buf.len() {
        lines_hold_no_newline(buf.skip(p + 1), i - 1, k);
        if i == 0 && 0 <= k < p {
            assert(buf.take(p)[k] == buf[k]);
        }
    }
}

} // verus!
