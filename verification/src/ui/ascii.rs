//! What a screen that has only ASCII shows.
//!
//! With `--ascii`, every character of a frame is 7-bit ASCII, as far as the names,
//! the messages and the log lines that it shows are: the words and the marks that
//! are put round them are.

use vstd::prelude::*;

use crate::action::{
    code_text, command_table, key_text, keys_of, Command, Key, KeyCode, COMMAND_COUNT,
};
use crate::app::grouping::stack_key;
use crate::app::hits::nothing_drawn;
use crate::app::state::{
    container_by_id, group_by_key, image_by_reference, network_by_id, volume_by_name,
    wf_carries_over, AppState,
};
use crate::app::{GroupView, Mode, Tab, ViewRow};
use crate::docker::actions::{prompt_of, success_text, JobView, Reply};
use crate::docker::model::{
    port_text_with, ports_text_with, reference_text, service_text, ContainerView, ImageView,
    NetworkView, PortView, State, VolumeView,
};
use crate::docker::stats::StatView;
use crate::geometry::Rect;
use crate::text::{dec, find, find_is_first, find_text, join, pad_left, pad_right};
use crate::ui::detail::{
    field_line, gauges_of, io_spans, memory_total, section_line, summary_of, users_text,
};
use crate::ui::frame::Places;
use crate::ui::layout::rows_of;
use crate::ui::logs::ansi_lines;
use crate::ui::overlay::{chrome, daemon_text};
use crate::ui::rows::{columns_of, state_place};
use crate::ui::screen::{gap, BlockView, LineView, PaintView, RowView, SpanView, WidgetView};
use crate::ui::spelling::{
    banner_words, cell_words, column_words, detail_words, footer_words, frame_words, gauge_words,
    header_words, helps_are_ascii, list_words, log_words, mark_words, message_words,
    names_are_ascii, overlay_words, port_words, question_words, state_words, unit_words,
};
use crate::ui::tables::state_text;
use crate::ui::theme::{spin_text, symbols_of, Glyphs, Style};
use crate::ui::{highlighted, key_name, picked_out};
use crate::util::format::{
    age_text, bytes_or_dash, bytes_text, cut_end_in, cut_start_in, duration_text, elapsed, fitting,
    fitting_back, half_even, kilo, short, text_width, three_digits, to_double, unit_from,
};
use crate::util::fuzzy::match_of;

verus! {

// ---------------------------------------------------------------------------
// What it takes
// ---------------------------------------------------------------------------

/// Text in 7-bit ASCII.
#[verifier::opaque]
pub open spec fn ascii(s: Seq<char>) -> bool {
    forall|i: int| 0 <= i < s.len() ==> (#[trigger] s[i]) as u32 <= 0x7F
}

/// Some texts, each in ASCII.
#[verifier::opaque]
pub open spec fn ascii_all(texts: Seq<Seq<char>>) -> bool {
    forall|i: int| 0 <= i < texts.len() ==> ascii(#[trigger] texts[i])
}

/// Some spans, each in ASCII.
#[verifier::opaque]
pub open spec fn ascii_spans(spans: Seq<SpanView>) -> bool {
    forall|i: int| 0 <= i < spans.len() ==> ascii((#[trigger] spans[i]).text)
}

/// Some lines, each in ASCII.
#[verifier::opaque]
pub open spec fn ascii_lines(lines: Seq<LineView>) -> bool {
    forall|i: int| 0 <= i < lines.len() ==> ascii_spans((#[trigger] lines[i]).spans)
}

/// Some rows of a table, each in ASCII.
#[verifier::opaque]
pub open spec fn ascii_rows(rows: Seq<RowView>) -> bool {
    forall|i: int| 0 <= i < rows.len() ==> ascii_lines((#[trigger] rows[i]).cells)
}

/// A box in ASCII, its border included.
pub open spec fn ascii_block(block: BlockView) -> bool {
    block.ascii && ascii_lines(block.titles)
}

/// Something to paint that is in ASCII.
pub open spec fn ascii_paint(paint: PaintView) -> bool {
    match paint.widget {
        WidgetView::Clear => true,
        WidgetView::Block(block) => ascii_block(block),
        WidgetView::Text { lines, wrap, style } => ascii_lines(lines),
        WidgetView::Table(table) => ascii_lines(table.header) && ascii_rows(table.rows),
        WidgetView::Gauge(gauge) => gauge.ascii && ascii(gauge.label.text),
        WidgetView::Scrollbar { ascii, length, position, style } => ascii,
    }
}

/// A frame in ASCII.
#[verifier::opaque]
pub open spec fn ascii_frame(paints: Seq<PaintView>) -> bool {
    forall|i: int| 0 <= i < paints.len() ==> ascii_paint(#[trigger] paints[i])
}

// ---------------------------------------------------------------------------
// How it is put together
// ---------------------------------------------------------------------------

broadcast proof fn no_text()
    ensures
        #[trigger] ascii(Seq::<char>::empty()),
{
    reveal(ascii);
}

broadcast proof fn text_and_text(a: Seq<char>, b: Seq<char>)
    requires
        ascii(a),
        ascii(b),
    ensures
        #[trigger] ascii(a + b),
{
    reveal(ascii);
}

broadcast proof fn no_spans()
    ensures
        #[trigger] ascii_spans(Seq::<SpanView>::empty()),
{
    reveal(ascii_spans);
}

broadcast proof fn one_more_span(s: Seq<SpanView>, x: SpanView)
    requires
        ascii_spans(s),
        ascii(x.text),
    ensures
        #[trigger] ascii_spans(s.push(x)),
{
    reveal(ascii_spans);
}

broadcast proof fn spans_and_spans(a: Seq<SpanView>, b: Seq<SpanView>)
    requires
        ascii_spans(a),
        ascii_spans(b),
    ensures
        #[trigger] ascii_spans(a + b),
{
    reveal(ascii_spans);
}

broadcast proof fn no_lines()
    ensures
        #[trigger] ascii_lines(Seq::<LineView>::empty()),
{
    reveal(ascii_lines);
}

broadcast proof fn one_more_line(s: Seq<LineView>, x: LineView)
    requires
        ascii_lines(s),
        ascii_spans(x.spans),
    ensures
        #[trigger] ascii_lines(s.push(x)),
{
    reveal(ascii_lines);
}

broadcast proof fn lines_and_lines(a: Seq<LineView>, b: Seq<LineView>)
    requires
        ascii_lines(a),
        ascii_lines(b),
    ensures
        #[trigger] ascii_lines(a + b),
{
    reveal(ascii_lines);
}

broadcast proof fn no_paints()
    ensures
        #[trigger] ascii_frame(Seq::<PaintView>::empty()),
{
    reveal(ascii_frame);
}

broadcast proof fn one_more_paint(s: Seq<PaintView>, x: PaintView)
    requires
        ascii_frame(s),
        ascii_paint(x),
    ensures
        #[trigger] ascii_frame(s.push(x)),
{
    reveal(ascii_frame);
}

broadcast proof fn paints_and_paints(a: Seq<PaintView>, b: Seq<PaintView>)
    requires
        ascii_frame(a),
        ascii_frame(b),
    ensures
        #[trigger] ascii_frame(a + b),
{
    reveal(ascii_frame);
}

broadcast proof fn a_few_spans(s: Seq<SpanView>)
    requires
        s.len() <= 8,
        0 < s.len() ==> ascii(s[0].text),
        1 < s.len() ==> ascii(s[1].text),
        2 < s.len() ==> ascii(s[2].text),
        3 < s.len() ==> ascii(s[3].text),
        4 < s.len() ==> ascii(s[4].text),
        5 < s.len() ==> ascii(s[5].text),
        6 < s.len() ==> ascii(s[6].text),
        7 < s.len() ==> ascii(s[7].text),
    ensures
        #[trigger] ascii_spans(s),
{
    reveal(ascii_spans);
}

broadcast proof fn a_few_lines(s: Seq<LineView>)
    requires
        s.len() <= 8,
        0 < s.len() ==> ascii_spans(s[0].spans),
        1 < s.len() ==> ascii_spans(s[1].spans),
        2 < s.len() ==> ascii_spans(s[2].spans),
        3 < s.len() ==> ascii_spans(s[3].spans),
        4 < s.len() ==> ascii_spans(s[4].spans),
        5 < s.len() ==> ascii_spans(s[5].spans),
        6 < s.len() ==> ascii_spans(s[6].spans),
        7 < s.len() ==> ascii_spans(s[7].spans),
    ensures
        #[trigger] ascii_lines(s),
{
    reveal(ascii_lines);
}

broadcast proof fn a_few_paints(s: Seq<PaintView>)
    requires
        s.len() <= 8,
        0 < s.len() ==> ascii_paint(s[0]),
        1 < s.len() ==> ascii_paint(s[1]),
        2 < s.len() ==> ascii_paint(s[2]),
        3 < s.len() ==> ascii_paint(s[3]),
        4 < s.len() ==> ascii_paint(s[4]),
        5 < s.len() ==> ascii_paint(s[5]),
        6 < s.len() ==> ascii_paint(s[6]),
        7 < s.len() ==> ascii_paint(s[7]),
    ensures
        #[trigger] ascii_frame(s),
{
    reveal(ascii_frame);
}

broadcast proof fn a_few_texts(s: Seq<Seq<char>>)
    requires
        s.len() <= 8,
        0 < s.len() ==> ascii(s[0]),
        1 < s.len() ==> ascii(s[1]),
        2 < s.len() ==> ascii(s[2]),
        3 < s.len() ==> ascii(s[3]),
        4 < s.len() ==> ascii(s[4]),
        5 < s.len() ==> ascii(s[5]),
        6 < s.len() ==> ascii(s[6]),
        7 < s.len() ==> ascii(s[7]),
    ensures
        #[trigger] ascii_all(s),
{
    reveal(ascii_all);
}

broadcast proof fn numbers_are_ascii(n: nat)
    ensures
        #[trigger] ascii(dec(n)),
    decreases n,
{
    reveal(ascii);
    if n >= 10 {
        numbers_are_ascii(n / 10);
    }
}

broadcast proof fn cut_ends_are_ascii(s: Seq<char>, max: nat)
    requires
        ascii(s),
    ensures
        #[trigger] ascii(cut_end_in(true, s, max)),
{
    reveal(ascii);
    fitting_is_within(s, max - 1);
}

broadcast proof fn cut_starts_are_ascii(s: Seq<char>, max: nat)
    requires
        ascii(s),
    ensures
        #[trigger] ascii(cut_start_in(true, s, max)),
{
    reveal(ascii);
    fitting_back_is_within(s, max - 1);
}

proof fn fitting_is_within(s: Seq<char>, budget: int)
    ensures
        fitting(s, budget) <= s.len(),
    decreases s.len(),
{
    if s.len() > 0 {
        fitting_is_within(s.drop_first(), budget - crate::util::format::cell_of(s[0]));
    }
}

proof fn fitting_back_is_within(s: Seq<char>, budget: int)
    ensures
        fitting_back(s, budget) <= s.len(),
    decreases s.len(),
{
    if s.len() > 0 {
        fitting_back_is_within(s.drop_last(), budget - crate::util::format::cell_of(s.last()));
    }
}

broadcast proof fn right_pads_are_ascii(s: Seq<char>, width: nat)
    requires
        ascii(s),
    ensures
        #[trigger] ascii(pad_right(s, width)),
{
    reveal(ascii);
}

broadcast proof fn left_pads_are_ascii(s: Seq<char>, width: nat)
    requires
        ascii(s),
    ensures
        #[trigger] ascii(pad_left(s, width)),
{
    reveal(ascii);
}

broadcast proof fn joins_are_ascii(parts: Seq<Seq<char>>, sep: Seq<char>)
    requires
        ascii_all(parts),
        ascii(sep),
    ensures
        #[trigger] ascii(join(parts, sep)),
    decreases parts.len(),
{
    reveal(ascii_all);
    if parts.len() > 0 {
        assert(ascii_all(parts.drop_last()));
        joins_are_ascii(parts.drop_last(), sep);
        reveal(ascii);
        assert(ascii(parts[parts.len() - 1]));
    } else {
        reveal(ascii);
    }
}

broadcast group group_ascii {
    no_text,
    text_and_text,
    no_spans,
    one_more_span,
    spans_and_spans,
    no_lines,
    one_more_line,
    lines_and_lines,
    no_paints,
    one_more_paint,
    paints_and_paints,
    a_few_spans,
    a_few_lines,
    a_few_paints,
    a_few_texts,
    numbers_are_ascii,
    cut_ends_are_ascii,
    cut_starts_are_ascii,
    right_pads_are_ascii,
    left_pads_are_ascii,
    joins_are_ascii,
}

// ---------------------------------------------------------------------------
// What is not the library's own
// ---------------------------------------------------------------------------

/// Text that may be missing.
pub open spec fn ascii_opt(text: Option<Seq<char>>) -> bool {
    text matches Some(t) ==> ascii(t)
}

/// A container described in ASCII.
pub open spec fn ascii_container(c: ContainerView) -> bool {
    &&& ascii(c.id) && ascii(c.name) && ascii(c.image) && ascii(c.image_id)
    &&& ascii(c.command) && ascii(c.status)
    &&& forall|i: int|
        0 <= i < c.ports.len() ==> ascii((#[trigger] c.ports[i]).proto) && ascii_opt(c.ports[i].ip)
    &&& ascii_all(c.networks) && ascii_all(c.mounts)
    &&& ascii_opt(c.stack) && ascii_opt(c.service)
}

/// An image described in ASCII.
pub open spec fn ascii_image(i: ImageView) -> bool {
    ascii(i.id) && ascii(i.repository) && ascii(i.tag) && ascii_all(i.all_tags)
}

/// A volume described in ASCII.
pub open spec fn ascii_volume(v: VolumeView) -> bool {
    ascii(v.name) && ascii(v.driver) && ascii(v.mountpoint) && ascii_opt(v.compose_project)
}

/// A network described in ASCII.
pub open spec fn ascii_network(n: NetworkView) -> bool {
    &&& ascii(n.id) && ascii(n.name) && ascii(n.driver) && ascii(n.scope)
    &&& ascii_all(n.subnets) && ascii_opt(n.compose_project)
}

/// A job on something with an ASCII name.
pub open spec fn ascii_job(job: JobView) -> bool {
    match job {
        JobView::Start { name, .. } => ascii(name),
        JobView::Stop { name, .. } => ascii(name),
        JobView::Restart { name, .. } => ascii(name),
        JobView::Pause { name, .. } => ascii(name),
        JobView::Unpause { name, .. } => ascii(name),
        JobView::Kill { name, .. } => ascii(name),
        JobView::RemoveContainer { name, .. } => ascii(name),
        JobView::RemoveImage { name, .. } => ascii(name),
        JobView::RemoveVolume { name, .. } => ascii(name),
        JobView::RemoveNetwork { name, .. } => ascii(name),
        _ => true,
    }
}

impl AppState {
    /// Whether the lists are in ASCII.
    #[verifier::opaque]
    pub open spec fn ascii_lists(self) -> bool {
        &&& forall|i: int|
            0 <= i < self.containers.len() ==> ascii_container(#[trigger] self.containers[i])
        &&& forall|i: int| 0 <= i < self.images.len() ==> ascii_image(#[trigger] self.images[i])
        &&& forall|i: int| 0 <= i < self.volumes.len() ==> ascii_volume(#[trigger] self.volumes[i])
        &&& forall|i: int|
            0 <= i < self.networks.len() ==> ascii_network(#[trigger] self.networks[i])
        &&& forall|i: int| 0 <= i < self.groups.len() ==> ascii((#[trigger] self.groups[i]).key)
    }

    /// Whether all that is shown of others' making is in ASCII: the lists and the
    /// readings, the messages, the log lines, and what was typed.
    #[verifier::opaque]
    pub open spec fn ascii_data(self) -> bool {
        &&& self.ascii_lists()
        &&& forall|id: Seq<char>| #[trigger]
            self.stats.dom().contains(id) ==> ascii(self.stats[id].cpu_text)
        &&& forall|id: Seq<char>| #[trigger]
            self.pending.dom().contains(id) ==> ascii(self.pending[id])
        &&& forall|tab: Tab| ascii((#[trigger] self.filter.at(tab)).value)
        &&& ascii(self.palette_input.value)
        &&& forall|i: int| 0 <= i < self.toasts.len() ==> ascii((#[trigger] self.toasts[i]).text)
        &&& self.confirm matches Some(job) ==> ascii_job(job)
        &&& ascii(self.daemon.version) && ascii(self.daemon.api_version)
        &&& ascii(self.daemon.os) && ascii(self.daemon.arch)
        &&& ascii_opt(self.daemon_error) && ascii_opt(self.logs.error)
        &&& forall|i: int|
            0 <= i < self.logs.lines.len() ==> ascii((#[trigger] self.logs.lines[i]).text)
                && ascii_opt(self.logs.lines[i].timestamp)
    }

    /// Whether the screen has only ASCII.
    pub open spec fn ascii_mode(self) -> bool {
        self.theme.glyphs == Glyphs::Ascii && self.symbols == symbols_of(Glyphs::Ascii)
    }
}

/// Whether escape codes are read without anything but ASCII coming of text that is
/// in ASCII.
pub open spec fn codes_stay_ascii() -> bool {
    forall|text: Seq<char>, i: int|
        #![trigger ansi_lines(text)->0[i]]
        ascii(text) && ansi_lines(text) is Some && 0 <= i < (ansi_lines(text)->0).len()
            ==> ascii_spans(ansi_lines(text)->0[i])
}

// ---------------------------------------------------------------------------
// Marks, keys and figures
// ---------------------------------------------------------------------------

/// In ASCII mode every mark is in ASCII.
pub proof fn ascii_marks_are_ascii(frame: int)
    ensures
        ({
            let s = symbols_of(Glyphs::Ascii);
            &&& s.ascii
            &&& ascii(s.running) && ascii(s.stopped) && ascii(s.paused) && ascii(s.restarting)
            &&& ascii(s.created) && ascii(s.dead) && ascii(s.unhealthy)
            &&& ascii(s.tab_containers) && ascii(s.tab_images)
            &&& ascii(s.tab_volumes) && ascii(s.tab_networks)
            &&& ascii(s.arrow_right) && ascii(s.arrow_down) && ascii(s.arrow_up)
            &&& ascii(s.key_up) && ascii(s.key_down) && ascii(s.bullet) && ascii(s.prompt)
            &&& ascii(s.check) && ascii(s.cross) && ascii(s.caret) && ascii(s.enter)
            &&& ascii(s.ellipsis) && ascii(s.dash) && ascii(s.leads_to)
            &&& ascii(s.received) && ascii(s.sent)
            &&& ascii(spin_text(s.ascii, frame))
        }),
{
    mark_words();
}

proof fn bound_keys_are_plain(command: Command, i: int)
    requires
        0 <= i < keys_of(command).len(),
    ensures
        ({
            let key = keys_of(command)[i];
            match key.code {
                KeyCode::Char(c) => (c as u32) < 128,
                KeyCode::Enter
                | KeyCode::Esc
                | KeyCode::Tab
                | KeyCode::BackTab
                | KeyCode::Up
                | KeyCode::Down
                | KeyCode::PageUp
                | KeyCode::PageDown
                | KeyCode::Home
                | KeyCode::End => !key.ctrl,
                _ => false,
            }
        }),
{
}

/// In ASCII mode the name of every key that does something is in ASCII.
pub proof fn ascii_keys_are_ascii(command: Command, i: int)
    requires
        0 <= i < keys_of(command).len(),
    ensures
        ascii(key_name(Glyphs::Ascii, keys_of(command)[i])),
{
    let key = keys_of(command)[i];
    bound_keys_are_plain(command, i);
    reveal(ascii);
    reveal_strlit("^");
    reveal_strlit("space");
    reveal_strlit("esc");
    reveal_strlit("tab");
    reveal_strlit("pgup");
    reveal_strlit("pgdn");
    reveal_strlit("home");
    reveal_strlit("end");
    reveal_strlit("enter");
    reveal_strlit("s-tab");
    reveal_strlit("up");
    reveal_strlit("down");
    reveal_strlit("left");
    reveal_strlit("right");
    assert(key.code is Char ==> ascii(code_text(key.code)));
    assert(ascii(key_text(key)) || !key.ctrl);
}

broadcast proof fn sizes_are_ascii(n: nat)
    ensures
        #[trigger] ascii(bytes_text(n)),
{
    broadcast use group_ascii;

    unit_words();
    if n >= 1000 {
        let d = to_double(n);
        let u = kilo(unit_from(d, 0));
        figures_are_ascii(d, u);
    }
}

proof fn figures_are_ascii(d: nat, u: nat)
    ensures
        ascii(three_digits(d, u)),
{
    broadcast use group_ascii;

    reveal(ascii);
    if d >= 100 * u {
        numbers_are_ascii(half_even(d, u));
    } else if d >= 10 * u {
        numbers_are_ascii(half_even(d * 10, u) / 10);
    } else {
        numbers_are_ascii(half_even(d * 100, u) / 100);
    }
}

broadcast proof fn sizes_or_dashes_are_ascii(n: int)
    ensures
        #[trigger] ascii(bytes_or_dash(n)),
{
    unit_words();
    sizes_are_ascii(n as nat);
}

broadcast proof fn durations_are_ascii(secs: int)
    ensures
        #[trigger] ascii(duration_text(secs)),
{
    broadcast use group_ascii;

    unit_words();
}

broadcast proof fn ages_are_ascii(now: int, then: int)
    ensures
        #[trigger] ascii(age_text(now, then)),
{
    broadcast use group_ascii;

    unit_words();
    durations_are_ascii(elapsed(now, then));
}

broadcast proof fn ids_are_ascii(id: Seq<char>)
    requires
        ascii(id),
    ensures
        #[trigger] ascii(short(id)),
{
    reveal(ascii);
    reveal_strlit("sha256:");
}

broadcast group group_figures {
    sizes_are_ascii,
    sizes_or_dashes_are_ascii,
    durations_are_ascii,
    ages_are_ascii,
    ids_are_ascii,
}

// ---------------------------------------------------------------------------
// The edges of the screen
// ---------------------------------------------------------------------------

proof fn footers_are_ascii(v: AppState, area: Rect)
    requires
        v.ascii_mode(),
        ascii(v.needle()),
    ensures
        ascii_frame(v.footer(area)),
{
    broadcast use group_ascii;

    reveal(AppState::footer);
    footer_words();
    ascii_marks_are_ascii(0);
    hints_are_ascii(v, area.width, 0, 1 + (text_width(v.move_keys()) + text_width("move"@) + 4) + (
    text_width("tab"@) + text_width("switch"@) + 4));
}

/// In ASCII mode the filter prompt is in ASCII, as far as what was typed is.
pub proof fn ascii_prompts_are_ascii(v: AppState)
    requires
        v.ascii_mode(),
        ascii(v.needle()),
    ensures
        ascii_spans(v.prompt_spans()),
{
    broadcast use group_ascii;

    footer_words();
    ascii_marks_are_ascii(0);
}

proof fn hints_are_ascii(v: AppState, room: u16, i: int, used: nat)
    requires
        v.ascii_mode(),
        0 <= i,
    ensures
        ascii_spans(v.hints_from(room, i, used)),
    decreases COMMAND_COUNT - i,
{
    broadcast use group_ascii;

    footer_words();
    if i < COMMAND_COUNT {
        let command = command_table()[i];
        let key = v.key_shown(command);
        let label = v.short_label_of(command);
        key_shown_is_ascii(v, command);
        hints_are_ascii(v, room, i + 1, used);
        hints_are_ascii(v, room, i + 1, used + text_width(key) + text_width(label) + 4);
    }
}

proof fn key_shown_is_ascii(v: AppState, command: Command)
    requires
        v.ascii_mode(),
    ensures
        ascii(v.key_shown(command)),
{
    broadcast use group_ascii;

    if keys_of(command).len() > 0 {
        ascii_keys_are_ascii(command, 0);
    }
}

proof fn headers_are_ascii(v: AppState, area: Rect)
    requires
        v.ascii_mode(),
        ascii(v.daemon.version),
    ensures
        ascii_frame(v.header(area)),
{
    broadcast use group_ascii;

    reveal(AppState::header);
    header_words();
    ascii_marks_are_ascii(0);
    strips_are_ascii(v, 4);
}

proof fn strips_are_ascii(v: AppState, n: int)
    requires
        v.ascii_mode(),
    ensures
        ascii_spans(v.strip(n)),
    decreases n,
{
    broadcast use group_ascii;

    if n > 0 {
        header_words();
        ascii_marks_are_ascii(0);
        strips_are_ascii(v, n - 1);
    }
}

proof fn banners_are_ascii(v: AppState, width: u16)
    requires
        v.ascii_mode(),
        ascii_opt(v.daemon_error),
    ensures
        ascii_spans(v.banner(width).spans),
{
    broadcast use group_ascii;

    banner_words();
    ascii_marks_are_ascii(0);
}

// ---------------------------------------------------------------------------
// The list
// ---------------------------------------------------------------------------

broadcast proof fn highlights_are_ascii(text: Seq<char>, needle: Seq<char>, base: Style, hit: Style)
    requires
        ascii(text),
    ensures
        #[trigger] ascii_spans(highlighted(text, needle, base, hit)),
{
    broadcast use group_ascii;

    if needle.len() > 0 {
        if let Some(m) = match_of(text, needle) {
            pieces_are_ascii(text, m.indices, base, hit, text.len() as int);
        }
    }
}

proof fn pieces_are_ascii(text: Seq<char>, hits: Seq<int>, base: Style, hit: Style, n: int)
    requires
        ascii(text),
        n <= text.len(),
    ensures
        ascii_spans(picked_out(text, hits, base, hit, n)),
        n > 0 ==> picked_out(text, hits, base, hit, n).len() > 0,
    decreases n,
{
    reveal(ascii_spans);
    if n > 0 {
        pieces_are_ascii(text, hits, base, hit, n - 1);
        let low = picked_out(text, hits, base, hit, n - 1);
        let all = picked_out(text, hits, base, hit, n);
        assert(ascii(all[all.len() - 1].text)) by {
            reveal(ascii);
            if low.len() > 0 {
                assert(ascii(low[low.len() - 1].text));
            }
        }
    }
}

proof fn find_text_is_within(s: Seq<char>, pat: Seq<char>, from: int)
    requires
        0 <= from <= s.len(),
    ensures
        from <= find_text(s, pat, from) <= s.len(),
    decreases s.len() - from,
{
    if from < s.len() {
        find_text_is_within(s, pat, from + 1);
    }
}

broadcast proof fn states_are_ascii(state: State, status: Seq<char>)
    requires
        ascii(status),
    ensures
        #[trigger] ascii(state_text(state, status)),
{
    broadcast use group_ascii;

    state_words();
    find_text_is_within(status, " ("@, 0);
    find_is_first(status, ')', 0);
    assert(ascii(status.take(find_text(status, " ("@, 0)))) by {
        reveal(ascii);
    }
    assert(ascii(status.take(find(status, ')', 0)))) by {
        reveal(ascii);
    }
}

broadcast proof fn summaries_are_ascii(c: ContainerView)
    requires
        ascii(c.status),
    ensures
        #[trigger] ascii(summary_of(c)),
{
    state_words();
    find_text_is_within(c.status, " ("@, 0);
    assert(ascii(c.status.take(find_text(c.status, " ("@, 0)))) by {
        reveal(ascii);
    }
}

proof fn ports_are_ascii(p: PortView)
    requires
        ascii(p.proto),
        ascii_opt(p.ip),
    ensures
        ascii(port_text_with(p, "->"@)),
{
    broadcast use group_ascii;

    port_words();
}

proof fn port_lists_are_ascii(ports: Seq<PortView>)
    requires
        forall|i: int|
            0 <= i < ports.len() ==> ascii((#[trigger] ports[i]).proto) && ascii_opt(ports[i].ip),
    ensures
        ascii(ports_text_with(ports, "->"@)),
{
    broadcast use group_ascii;

    port_words();
    let texts = ports.map_values(|p: PortView| port_text_with(p, "->"@));
    assert(ascii_all(texts)) by {
        reveal(ascii_all);
        assert forall|i: int| 0 <= i < texts.len() implies ascii(#[trigger] texts[i]) by {
            ports_are_ascii(ports[i]);
        }
    }
}

broadcast group group_cells {
    highlights_are_ascii,
    states_are_ascii,
    summaries_are_ascii,
}

proof fn container_rows_are_ascii(v: AppState, c: ContainerView, widths: Seq<u16>, w: u16)
    requires
        v.ascii_mode(),
        v.ascii_data(),
        ascii_container(c),
    ensures
        ascii_lines(v.container_cells(c, widths, w)),
{
    broadcast use group_ascii, group_figures, group_cells;

    reveal(AppState::container_cells);
    reveal(AppState::ascii_data);
    cell_words();
    ascii_marks_are_ascii(v.spinner as int / 2);
    port_lists_are_ascii(c.ports);
    let (cpu, mem) = (v.cpu_cell(c), v.mem_cell(c));
    assert(ascii_spans(cpu.spans));
    assert(ascii_spans(mem.spans));
    assert(ascii_spans(v.marker(c).spans));
    assert(ascii_spans(v.state_cell(c, widths[state_place(w)]).spans));
    assert(ascii(v.row_name(c, widths[1])));
}

proof fn group_rows_are_ascii(v: AppState, g: GroupView, widths: Seq<u16>, w: u16)
    requires
        v.ascii_mode(),
        ascii(g.key),
    ensures
        ascii_lines(v.group_cells(g, widths, w)),
{
    broadcast use group_ascii, group_cells;

    reveal(AppState::group_cells);
    cell_words();
    ascii_marks_are_ascii(0);
}

proof fn image_rows_are_ascii(v: AppState, img: ImageView, widths: Seq<u16>, now: int)
    requires
        v.ascii_mode(),
        ascii_image(img),
    ensures
        ascii_lines(v.image_cells(img, widths, now)),
{
    broadcast use group_ascii, group_figures, group_cells;

    reveal(AppState::image_cells);
    cell_words();
    ascii_marks_are_ascii(0);
}

proof fn volume_rows_are_ascii(
    v: AppState,
    volume: VolumeView,
    widths: Seq<u16>,
    w: u16,
    now: int,
)
    requires
        v.ascii_mode(),
        ascii_volume(volume),
    ensures
        ascii_lines(v.volume_cells(volume, widths, w, now)),
{
    broadcast use group_ascii, group_figures, group_cells;

    reveal(AppState::volume_cells);
    cell_words();
    ascii_marks_are_ascii(v.spinner as int / 2);
}

proof fn network_rows_are_ascii(v: AppState, n: NetworkView, widths: Seq<u16>, w: u16)
    requires
        v.ascii_mode(),
        ascii_network(n),
    ensures
        ascii_lines(v.network_cells(n, widths, w)),
{
    broadcast use group_ascii, group_cells;

    reveal(AppState::network_cells);
    cell_words();
    ascii_marks_are_ascii(0);
}

proof fn rows_are_ascii(v: AppState, widths: Seq<u16>, w: u16, now: int)
    requires
        v.rows_exist(v.tab),
        v.ascii_mode(),
        v.ascii_data(),
    ensures
        ascii_rows(v.table_rows(widths, w, now)),
{
    reveal(ascii_rows);
    let rows = v.table_rows(widths, w, now);
    assert forall|k: int| 0 <= k < rows.len() implies ascii_lines((#[trigger] rows[k]).cells) by {
        reveal(AppState::row_at);
        assert(v.ascii_lists()) by {
            reveal(AppState::ascii_data);
        }
        reveal(AppState::ascii_lists);
        assert(v.rows()[k] == v.views.at(v.tab)[k]);
        match v.rows()[k] {
            ViewRow::Group(g) => {
                group_rows_are_ascii(v, v.groups[g as int], widths, w);
            },
            ViewRow::Item(i) => {
                let i = i as int;
                match v.tab {
                    Tab::Containers => {
                        container_rows_are_ascii(v, v.containers[i], widths, w);
                    },
                    Tab::Images => {
                        image_rows_are_ascii(v, v.images[i], widths, now);
                    },
                    Tab::Volumes => {
                        volume_rows_are_ascii(v, v.volumes[i], widths, w, now);
                    },
                    Tab::Networks => {
                        network_rows_are_ascii(v, v.networks[i], widths, w);
                    },
                }
            },
        }
    }
}

proof fn titles_are_ascii(v: AppState, w: u16)
    requires
        v.ascii_mode(),
    ensures
        ascii_lines(v.header_cells(w)),
{
    reveal(ascii_lines);
    let cells = v.header_cells(w);
    assert forall|k: int| 0 <= k < cells.len() implies ascii_spans((#[trigger] cells[k]).spans) by {
        broadcast use group_ascii;

        column_words();
        ascii_marks_are_ascii(0);
        columns_are_ascii(v.tab, w, k);
        assert(cells[k] == v.header_cell(columns_of(v.tab, w)[k]));
    }
}

proof fn columns_are_ascii(tab: Tab, w: u16, k: int)
    requires
        0 <= k < columns_of(tab, w).len(),
    ensures
        ascii(columns_of(tab, w)[k].title),
{
    column_words();
}

proof fn lists_are_ascii(v: AppState, area: Rect, widths: Seq<u16>, now: int)
    requires
        v.rows_exist(v.tab),
        v.ascii_mode(),
        v.ascii_data(),
    ensures
        ascii_frame(v.list(area, widths, now)),
{
    broadcast use group_ascii;

    reveal(AppState::list);
    list_words();
    let block = v.list_box(area);
    assert(ascii_block(block)) by {
        reveal(AppState::list_box);
        ascii_marks_are_ascii(0);
        assert(ascii(v.subtitle_text()));
        assert(ascii(v.sort_text()));
    }
    let table = v.table(area.inside().width, widths, now);
    assert(ascii_lines(table.header) && ascii_rows(table.rows)) by {
        reveal(AppState::table);
        titles_are_ascii(v, area.inside().width);
        rows_are_ascii(v, widths, area.inside().width, now);
    }
    assert(ascii(v.emptiness()));
}

// ---------------------------------------------------------------------------
// The detail pane
// ---------------------------------------------------------------------------

proof fn bullets_are_ascii(v: AppState, texts: Seq<Seq<char>>, width: u16)
    requires
        v.ascii_mode(),
        ascii_all(texts),
    ensures
        ascii_lines(v.bullets(texts)),
        ascii_lines(v.cut_bullets(texts, width)),
{
    reveal(ascii_lines);
    reveal(ascii_all);
    let (whole, cut) = (v.bullets(texts), v.cut_bullets(texts, width));
    assert forall|i: int| 0 <= i < texts.len() implies ascii_spans((#[trigger] whole[i]).spans) by {
        broadcast use group_ascii;

        detail_words();
        ascii_marks_are_ascii(0);
        assert(ascii(texts[i]));
    }
    assert forall|i: int| 0 <= i < texts.len() implies ascii_spans((#[trigger] cut[i]).spans) by {
        broadcast use group_ascii;

        detail_words();
        ascii_marks_are_ascii(0);
        assert(ascii(texts[i]));
    }
}

proof fn port_bullets_are_ascii(v: AppState, ports: Seq<PortView>)
    requires
        v.ascii_mode(),
        forall|i: int|
            0 <= i < ports.len() ==> ascii((#[trigger] ports[i]).proto) && ascii_opt(ports[i].ip),
    ensures
        ascii_lines(v.port_bullets(ports)),
{
    reveal(ascii_lines);
    let lines = v.port_bullets(ports);
    assert forall|i: int| 0 <= i < ports.len() implies ascii_spans((#[trigger] lines[i]).spans) by {
        broadcast use group_ascii;

        detail_words();
        ascii_marks_are_ascii(0);
        ports_are_ascii(ports[i]);
    }
}

proof fn sections_are_ascii(v: AppState, name: Seq<char>, lines: Seq<LineView>)
    requires
        ascii(name),
        ascii_lines(lines),
    ensures
        ascii_lines(v.section_of(name, lines)),
{
    broadcast use group_ascii;

    detail_words();
    let front = seq![gap(), section_line(v.theme, name)];
    assert(ascii_spans(front[0].spans));
    assert(ascii_spans(front[1].spans));
    assert(ascii_lines(front));
}

proof fn container_details_are_ascii(v: AppState, c: ContainerView, width: u16, now: int)
    requires
        v.ascii_mode(),
        ascii_container(c),
    ensures
        ascii_lines(v.container_lines(c, width, now)),
{
    broadcast use group_ascii, group_figures;

    reveal(AppState::container_lines);
    detail_words();
    ascii_marks_are_ascii(0);
    assert(ascii_lines(v.container_fields(c, now)));
    assert(ascii_lines(v.container_sections(c, width))) by {
        port_bullets_are_ascii(v, c.ports);
        bullets_are_ascii(v, c.networks, width);
        bullets_are_ascii(v, c.mounts, width);
    }
}

proof fn image_details_are_ascii(v: AppState, i: ImageView, width: u16, now: int)
    requires
        v.ascii_mode(),
        ascii_image(i),
    ensures
        ascii_lines(v.image_lines(i, width, now)),
{
    broadcast use group_ascii, group_figures;

    reveal(AppState::image_lines);
    detail_words();
    bullets_are_ascii(v, i.all_tags, width);
    assert(ascii(reference_text(i)));
    sections_are_ascii(v, "TAGS"@, v.cut_bullets(i.all_tags, width));
    if i.shared_size > 0 {
        assert(ascii_lines(
            seq![field_line(v.theme, "shared"@, bytes_or_dash(i.shared_size as int))],
        ));
    }
    assert(ascii(users_text(i.containers as int)));
}

proof fn volume_details_are_ascii(v: AppState, volume: VolumeView, width: u16, now: int)
    requires
        v.ascii_mode(),
        ascii_volume(volume),
    ensures
        ascii_lines(v.volume_lines(volume, width, now)),
{
    broadcast use group_ascii, group_figures;

    reveal(AppState::volume_lines);
    detail_words();
    ascii_marks_are_ascii(0);
    assert(ascii(users_text(volume.used_by as int)));
}

proof fn network_details_are_ascii(v: AppState, n: NetworkView, now: int)
    requires
        v.ascii_mode(),
        ascii_network(n),
    ensures
        ascii_lines(v.network_lines(n, now)),
{
    broadcast use group_ascii, group_figures;

    reveal(AppState::network_lines);
    detail_words();
    ascii_marks_are_ascii(0);
    bullets_are_ascii(v, n.subnets, 0);
    assert(ascii(users_text(n.used_by as int)));
}

proof fn member_lines_are_ascii(v: AppState, key: Seq<char>, n: int)
    requires
        v.ascii_mode(),
        v.ascii_lists(),
        n <= v.containers.len(),
    ensures
        ascii_lines(v.member_lines(key, n)),
    decreases n,
{
    broadcast use group_ascii, group_cells;

    if n > 0 {
        member_lines_are_ascii(v, key, n - 1);
        detail_words();
        ascii_marks_are_ascii(0);
        reveal(AppState::ascii_lists);
        assert(ascii_container(v.containers[n - 1]));
        assert(ascii(service_text(v.containers[n - 1])));
    }
}

proof fn stack_details_are_ascii(v: AppState, g: GroupView, cpu: Seq<char>)
    requires
        v.ascii_mode(),
        v.ascii_lists(),
        ascii(g.key),
        ascii(cpu),
    ensures
        ascii_lines(v.stack_lines(g, cpu)),
{
    broadcast use group_ascii, group_figures;

    reveal(AppState::stack_lines);
    detail_words();
    member_lines_are_ascii(v, g.key, v.containers.len() as int);
    assert(ascii(g.label()));
    sections_are_ascii(v, "SERVICES"@, v.member_lines(g.key, v.containers.len() as int));
    assert(ascii_lines(
        seq![
            field_line(v.theme, "cpu"@, cpu + "%"@),
            field_line(
                v.theme,
                "memory"@,
                bytes_text(memory_total(v.stack_stats(g.key)) as nat),
            ),
        ],
    ));
}

proof fn gauges_are_ascii(v: AppState, s: StatView, area: Rect)
    requires
        v.ascii_mode(),
        ascii(s.cpu_text),
    ensures
        ascii_frame(gauges_of(v.theme, v.symbols, s, area)),
{
    broadcast use group_ascii, group_figures;

    gauge_words();
    ascii_marks_are_ascii(0);
    assert(ascii_spans(io_spans(v.theme, v.symbols, s)));
}

proof fn named_containers_are_listed(rows: Seq<ContainerView>, id: Seq<char>)
    ensures
        container_by_id(rows, id) matches Some(c) ==> rows.contains(c),
    decreases rows.len(),
{
    if rows.len() > 0 {
        let rest = rows.drop_first();
        named_containers_are_listed(rest, id);
        assert(rows[0] == rows[0]);
        if let Some(c) = container_by_id(rest, id) {
            if rest.contains(c) {
                let k = choose|k: int| 0 <= k < rest.len() && rest[k] == c;
                assert(rows[k + 1] == c);
            }
        }
    }
}

proof fn named_images_are_listed(rows: Seq<ImageView>, id: Seq<char>)
    ensures
        image_by_reference(rows, id) matches Some(c) ==> rows.contains(c),
    decreases rows.len(),
{
    if rows.len() > 0 {
        let rest = rows.drop_first();
        named_images_are_listed(rest, id);
        assert(rows[0] == rows[0]);
        if let Some(c) = image_by_reference(rest, id) {
            if rest.contains(c) {
                let k = choose|k: int| 0 <= k < rest.len() && rest[k] == c;
                assert(rows[k + 1] == c);
            }
        }
    }
}

proof fn named_volumes_are_listed(rows: Seq<VolumeView>, id: Seq<char>)
    ensures
        volume_by_name(rows, id) matches Some(c) ==> rows.contains(c),
    decreases rows.len(),
{
    if rows.len() > 0 {
        let rest = rows.drop_first();
        named_volumes_are_listed(rest, id);
        assert(rows[0] == rows[0]);
        if let Some(c) = volume_by_name(rest, id) {
            if rest.contains(c) {
                let k = choose|k: int| 0 <= k < rest.len() && rest[k] == c;
                assert(rows[k + 1] == c);
            }
        }
    }
}

proof fn named_networks_are_listed(rows: Seq<NetworkView>, id: Seq<char>)
    ensures
        network_by_id(rows, id) matches Some(c) ==> rows.contains(c),
    decreases rows.len(),
{
    if rows.len() > 0 {
        let rest = rows.drop_first();
        named_networks_are_listed(rest, id);
        assert(rows[0] == rows[0]);
        if let Some(c) = network_by_id(rest, id) {
            if rest.contains(c) {
                let k = choose|k: int| 0 <= k < rest.len() && rest[k] == c;
                assert(rows[k + 1] == c);
            }
        }
    }
}

proof fn named_groups_are_listed(rows: Seq<GroupView>, key: Seq<char>)
    ensures
        group_by_key(rows, key) matches Some(g) ==> rows.contains(g),
    decreases rows.len(),
{
    if rows.len() > 0 {
        let rest = rows.drop_first();
        named_groups_are_listed(rest, key);
        assert(rows[0] == rows[0]);
        if let Some(g) = group_by_key(rest, key) {
            if rest.contains(g) {
                let k = choose|k: int| 0 <= k < rest.len() && rest[k] == g;
                assert(rows[k + 1] == g);
            }
        }
    }
}

proof fn selections_are_ascii(v: AppState)
    requires
        v.ascii_lists(),
    ensures
        v.container() matches Some(c) ==> ascii_container(c),
        v.image() matches Some(i) ==> ascii_image(i),
        v.volume() matches Some(volume) ==> ascii_volume(volume),
        v.network() matches Some(n) ==> ascii_network(n),
        v.group() matches Some(g) ==> ascii(g.key),
{
    reveal(AppState::ascii_lists);
    if let Some(id) = v.selected.containers {
        named_containers_are_listed(v.containers, id);
    }
    if let Some(id) = v.selected.images {
        named_images_are_listed(v.images, id);
    }
    if let Some(id) = v.selected.volumes {
        named_volumes_are_listed(v.volumes, id);
    }
    if let Some(id) = v.selected.networks {
        named_networks_are_listed(v.networks, id);
    }
    if let Some(key) = v.selected_group {
        named_groups_are_listed(v.groups, key);
    }
    if let Some(c) = v.container() {
        named_groups_are_listed(v.groups, stack_key(c));
    }
}

proof fn details_are_ascii(v: AppState, area: Rect, now: int, cpu: Seq<char>)
    requires
        v.ascii_mode(),
        v.ascii_data(),
        ascii(cpu),
    ensures
        ascii_frame(v.detail(area, now, cpu)),
{
    broadcast use group_ascii;

    let inner = area.inside();
    let lines = v.detail_lines(inner.width, now, cpu);
    assert(v.ascii_lists()) by {
        reveal(AppState::ascii_data);
    }
    detail_words();
    selections_are_ascii(v);
    assert(ascii_lines(lines) && lines.len() > 0) by {
        reveal(AppState::detail_lines);
        selected_details_are_ascii(v, inner.width, now, cpu);
        reveal(AppState::stack_lines);
        reveal(AppState::container_lines);
        reveal(AppState::image_lines);
        reveal(AppState::volume_lines);
        reveal(AppState::network_lines);
    }
    assert(ascii_spans(lines[0].spans) && ascii_lines(lines.drop_first())) by {
        reveal(ascii_lines);
    }
    if let Some(s) = v.gauged() {
        reveal(AppState::ascii_data);
        gauges_are_ascii(v, s, rows_of(inner, 2, 3));
    }
    reveal(AppState::detail);
}

proof fn selected_details_are_ascii(v: AppState, width: u16, now: int, cpu: Seq<char>)
    requires
        v.ascii_mode(),
        v.ascii_lists(),
        ascii(cpu),
    ensures
        v.container() matches Some(c) ==> ascii_lines(v.container_lines(c, width, now)),
        v.image() matches Some(i) ==> ascii_lines(v.image_lines(i, width, now)),
        v.volume() matches Some(volume) ==> ascii_lines(v.volume_lines(volume, width, now)),
        v.network() matches Some(n) ==> ascii_lines(v.network_lines(n, now)),
        v.group() matches Some(g) ==> ascii_lines(v.stack_lines(g, cpu)),
{
    selections_are_ascii(v);
    if let Some(c) = v.container() {
        container_details_are_ascii(v, c, width, now);
    }
    if let Some(i) = v.image() {
        image_details_are_ascii(v, i, width, now);
    }
    if let Some(volume) = v.volume() {
        volume_details_are_ascii(v, volume, width, now);
    }
    if let Some(n) = v.network() {
        network_details_are_ascii(v, n, now);
    }
    if let Some(g) = v.group() {
        stack_details_are_ascii(v, g, cpu);
    }
}

// ---------------------------------------------------------------------------
// The log pane
// ---------------------------------------------------------------------------

proof fn log_lines_are_ascii(
    v: AppState,
    k: int,
    rows: nat,
    any: bool,
    width: nat,
    height: nat,
)
    requires
        v.ascii_mode(),
        v.ascii_data(),
        codes_stay_ascii(),
        k <= v.logs.lines.len(),
    ensures
        ascii_lines(v.log_lines(k, rows, any, width, height)),
    decreases k,
{
    broadcast use group_ascii;

    if k > 0 {
        let l = v.logs.lines[k - 1];
        let text = v.log_text(l, width);
        let spans = v.log_line(l, width);
        assert(ascii(l.text) && ascii_opt(l.timestamp)) by {
            reveal(AppState::ascii_data);
        }
        assert(ascii(text)) by {
            ascii_marks_are_ascii(0);
        }
        assert(ascii_spans(spans)) by {
            log_words();
            if let Some(lines) = ansi_lines(text) {
                if lines.len() == 1 {
                    assert(ascii_spans(ansi_lines(text)->0[0]));
                }
            }
        }
        log_lines_are_ascii(v, k - 1, rows + v.log_cost(spans, width), true, width, height);
    }
}

proof fn logs_are_ascii(v: AppState, area: Rect)
    requires
        v.ascii_mode(),
        v.ascii_data(),
        codes_stay_ascii(),
    ensures
        ascii_frame(v.log_pane(area)),
{
    broadcast use group_ascii;

    reveal(AppState::log_pane);
    let inner = area.inside();
    log_words();
    ascii_marks_are_ascii(v.spinner as int / 2);
    assert(ascii_opt(v.logs.error)) by {
        reveal(AppState::ascii_data);
    }
    assert(ascii_block(v.log_box())) by {
        assert(v.ascii_lists()) by {
            reveal(AppState::ascii_data);
        }
        selections_are_ascii(v);
        let name = v.log_name();
        assert(ascii(name));
        let following = if v.logs.follow {
            "following"@
        } else {
            "paused "@ + dec(v.logs.scroll) + " lines back"@
        };
        assert(ascii(following));
        let front = seq![name, following];
        assert(ascii_all(front));
        assert(ascii_all(front.push("wrap"@))) by {
            reveal(ascii_all);
        }
        assert(ascii(v.log_status(name)));
    }
    assert(ascii(v.log_silence()));
    log_lines_are_ascii(v, v.log_end(), 0, false, inner.width as nat, inner.height as nat);
}

// ---------------------------------------------------------------------------
// Over everything else
// ---------------------------------------------------------------------------

proof fn help_lines_are_ascii(v: AppState)
    requires
        v.ascii_mode(),
    ensures
        ascii_lines(v.help_lines()),
{
    reveal(ascii_lines);
    let lines = v.help_lines();
    assert forall|i: int| 0 <= i < lines.len() implies ascii_spans((#[trigger] lines[i]).spans) by {
        broadcast use group_ascii;

        let command = command_table()[i];
        overlay_words();
        names_are_ascii(command);
        keys_are_ascii(v, command);
    }
}

proof fn keys_are_ascii(v: AppState, command: Command)
    requires
        v.ascii_mode(),
    ensures
        ascii(v.keys_text(command)),
{
    overlay_words();
    let names = keys_of(command).map_values(|k: Key| key_name(v.theme.glyphs, k));
    assert(ascii_all(names)) by {
        reveal(ascii_all);
        assert forall|i: int| 0 <= i < names.len() implies ascii(#[trigger] names[i]) by {
            ascii_keys_are_ascii(command, i);
        }
    }
    joins_are_ascii(names, " / "@);
}

proof fn help_sheets_are_ascii(v: AppState, area: Rect)
    requires
        v.ascii_mode(),
        v.ascii_data(),
    ensures
        ascii_frame(v.help_overlay(area)),
{
    broadcast use group_ascii;

    reveal(AppState::help_overlay);
    overlay_words();
    ascii_marks_are_ascii(0);
    help_lines_are_ascii(v);
    assert(ascii(daemon_text(v.daemon, v.symbols.bullet))) by {
        reveal(AppState::ascii_data);
    }
    assert(ascii_frame(chrome(v.theme, v.help_area(area), "keybindings"@)));
}

proof fn palettes_are_ascii(v: AppState, area: Rect)
    requires
        v.ascii_mode(),
        v.ascii_data(),
    ensures
        ascii_frame(v.palette_overlay(area)),
{
    broadcast use group_ascii;

    reveal(AppState::palette_overlay);
    overlay_words();
    ascii_marks_are_ascii(0);
    assert(ascii(v.palette_input.value)) by {
        reveal(AppState::ascii_data);
    }
    assert(ascii_frame(chrome(v.theme, v.palette_area(area), "commands"@)));
    assert(ascii_spans(v.palette_prompt().spans));
    entries_are_ascii(v, v.palette_list(area));
}

proof fn entries_are_ascii(v: AppState, list: Rect)
    requires
        v.ascii_mode(),
    ensures
        ascii_lines(v.palette_entries(list)),
{
    reveal(ascii_lines);
    let lines = v.palette_entries(list);
    assert forall|j: int| 0 <= j < lines.len() implies ascii_spans((#[trigger] lines[j]).spans) by {
        broadcast use group_ascii;

        let position = v.palette_start(list.height) + j;
        let command = command_table()[v.palette_matching()[position] as int];
        overlay_words();
        ascii_marks_are_ascii(0);
        names_are_ascii(command);
        helps_are_ascii(command);
        key_shown_is_ascii(v, command);
    }
}

proof fn questions_are_ascii(v: AppState, job: JobView, area: Rect)
    requires
        v.ascii_mode(),
        ascii_job(job),
    ensures
        ascii_frame(v.confirm_overlay(job, area)),
{
    broadcast use group_ascii;

    reveal(AppState::confirm_overlay);
    question_words();
    overlay_words();
    prompts_are_ascii(job);
}

proof fn prompts_are_ascii(job: JobView)
    requires
        ascii_job(job),
    ensures
        ascii(prompt_of(job).0),
        ascii(prompt_of(job).1),
{
    broadcast use group_ascii;

    question_words();
}

/// In ASCII mode the messages that the library words are in ASCII, as far as the
/// names in them are.
pub proof fn ascii_messages_are_ascii(v: AppState, job: JobView, reply: Reply)
    requires
        v.ascii_mode(),
        ascii_job(job),
    ensures
        ascii("refreshing"@ + v.symbols.ellipsis),
        ascii(v.stack_refusal()),
        ascii(success_text(job, reply)),
{
    broadcast use group_ascii, group_figures;

    message_words();
    ascii_marks_are_ascii(0);
}

proof fn toasts_are_ascii(v: AppState, area: Rect, n: int)
    requires
        v.ascii_mode(),
        v.ascii_data(),
        n <= v.toast_count(),
    ensures
        ascii_frame(v.toast_paints(area, n)),
    decreases n,
{
    broadcast use group_ascii;

    if n > 0 {
        toasts_are_ascii(v, area, n - 1);
        overlay_words();
        ascii_marks_are_ascii(0);
        assert(ascii(v.toast_at(n - 1).text)) by {
            reveal(AppState::ascii_data);
        }
        assert(ascii(v.toast_text(area, n - 1)));
        assert(ascii_frame(v.toast_paint(area, n - 1)));
    }
}

proof fn overlays_are_ascii(v: AppState, area: Rect)
    requires
        v.ascii_mode(),
        v.ascii_data(),
    ensures
        ascii_frame(v.overlaid(area)),
        ascii_frame(v.toast_overlay(area)),
{
    broadcast use group_ascii;

    assert(ascii_frame(v.overlaid(area))) by {
        reveal(AppState::overlaid);
        match v.mode {
            Mode::Help => {
                help_sheets_are_ascii(v, area);
            },
            Mode::Palette => {
                palettes_are_ascii(v, area);
            },
            Mode::Confirm => {
                if let Some(job) = v.confirm {
                    assert(ascii_job(job)) by {
                        reveal(AppState::ascii_data);
                    }
                    questions_are_ascii(v, job, area);
                }
            },
            _ => {},
        }
    }
    reveal(AppState::toast_overlay);
    toasts_are_ascii(v, area, v.toast_count() as int);
}

// ---------------------------------------------------------------------------
// The whole frame
// ---------------------------------------------------------------------------

proof fn drawing_keeps_the_data(v: AppState, w: AppState)
    requires
        v.ascii_mode(),
        v.ascii_data(),
        w == (AppState {
            hits: w.hits,
            log_rows: w.log_rows,
            detail_cols: w.detail_cols,
            detail_rows: w.detail_rows,
            ..v
        }),
    ensures
        w.ascii_mode(),
        w.ascii_data(),
{
    reveal(AppState::ascii_data);
    reveal(AppState::ascii_lists);
    assert forall|tab: Tab| ascii((#[trigger] w.filter.at(tab)).value) by {
        assert(ascii(v.filter.at(tab).value));
    }
}

/// In ASCII mode everything that is drawn is 7-bit ASCII, borders, bars and the
/// names of keys included, as far as the data it is drawn from is.
pub proof fn ascii_frames_are_ascii(
    v: AppState,
    area: Rect,
    places: Places,
    widths: Seq<u16>,
    now: int,
    cpu: Seq<char>,
)
    requires
        v.wf(),
        v.ascii_mode(),
        v.ascii_data(),
        ascii(cpu),
    ensures
        codes_stay_ascii() ==> ascii_frame(v.frame(area, places, widths, now, cpu)),
        ascii_frame(v.too_small_notice(area)),
{
    broadcast use group_ascii;

    frame_words();
    if codes_stay_ascii() {
        assert(ascii_frame(v.panes(places, widths, now, cpu))) by {
            panes_are_ascii(v, places, widths, now, cpu);
        }
        let behind = v.panes_drawn(places);
        let noted = behind.overlay_drawn(area);
        assert(behind == (AppState { hits: behind.hits, ..v })) by {
            reveal(AppState::panes_drawn);
            reveal(AppState::header_drawn);
        }
        assert(noted == (AppState { hits: noted.hits, ..v })) by {
            reveal(AppState::overlay_drawn);
            reveal(AppState::modal_drawn);
            reveal(AppState::palette_drawn);
            reveal(AppState::confirm_drawn);
        }
        drawing_keeps_the_data(v, behind);
        drawing_keeps_the_data(v, noted);
        overlays_are_ascii(behind, area);
        overlays_are_ascii(noted, area);
    }
}

/// In ASCII mode what `draw` draws is 7-bit ASCII, as far as the data it is drawn
/// from is: the names and the words of the daemon, the readings, the log lines, the
/// messages and what was typed.
pub proof fn ascii_screens_are_ascii(
    v: AppState,
    area: Rect,
    widths: Seq<u16>,
    now: int,
    cpu: Seq<char>,
)
    requires
        v.wf(),
        v.ascii_mode(),
        v.ascii_data(),
        ascii(cpu),
    ensures
        codes_stay_ascii() ==> ascii_frame(
            v.wiped().placed(area).frame(area, v.wiped().places(area), widths, now, cpu),
        ),
        ascii_frame(v.wiped().too_small_notice(area)),
{
    let clear = v.wiped();
    let w = clear.placed(area);
    assert(clear == (AppState { hits: nothing_drawn(), ..v })) by {
        reveal(AppState::wiped);
    }
    assert(w == (AppState {
        log_rows: w.log_rows,
        detail_cols: w.detail_cols,
        detail_rows: w.detail_rows,
        ..clear
    })) by {
        reveal(AppState::logs_sized);
        reveal(AppState::detail_sized);
    }
    drawing_keeps_the_data(v, clear);
    drawing_keeps_the_data(v, w);
    wf_carries_over(v, clear);
    wf_carries_over(v, w);
    ascii_frames_are_ascii(w, area, clear.places(area), widths, now, cpu);
    ascii_frames_are_ascii(clear, area, clear.places(area), widths, now, cpu);
}

proof fn rows_stay(v: AppState, w: AppState)
    requires
        v.wf(),
        w == (AppState { hits: w.hits, ..v }),
    ensures
        w.rows_exist(w.tab),
{
    reveal(AppState::wf);
    assert(v.rows_exist(v.tab));
    assert forall|k: int| 0 <= k < w.views.at(w.tab).len() implies match #[trigger] w.views.at(
        w.tab,
    )[k] {
        ViewRow::Item(i) => i < w.count(w.tab),
        ViewRow::Group(g) => w.tab == Tab::Containers && g < w.groups.len(),
    } by {
        assert(v.views.at(v.tab)[k] == w.views.at(w.tab)[k]);
    }
}

proof fn panes_are_ascii(
    v: AppState,
    places: Places,
    widths: Seq<u16>,
    now: int,
    cpu: Seq<char>,
)
    requires
        v.wf(),
        v.ascii_mode(),
        v.ascii_data(),
        ascii(cpu),
        codes_stay_ascii(),
    ensures
        ascii_frame(v.panes(places, widths, now, cpu)),
{
    broadcast use group_ascii;

    let behind = v.header_drawn(places.header);
    assert(behind == (AppState { hits: behind.hits, ..v })) by {
        reveal(AppState::header_drawn);
    }
    drawing_keeps_the_data(v, behind);
    assert(ascii(v.daemon.version) && ascii_opt(v.daemon_error) && ascii(behind.needle())) by {
        reveal(AppState::ascii_data);
        assert(ascii(behind.filter.at(behind.tab).value));
    }
    headers_are_ascii(v, places.header);
    if let Some(area) = places.banner {
        banners_are_ascii(v, area.width);
    }
    rows_stay(v, behind);
    lists_are_ascii(behind, places.list, widths, now);
    if let Some((area, side)) = places.detail {
        details_are_ascii(behind, area, now, cpu);
    }
    if let Some(area) = places.logs {
        logs_are_ascii(behind, area);
    }
    footers_are_ascii(behind, places.footer);
    assert(ascii_frame(v.head_paints(places)));
    assert(ascii_frame(behind.body_paints(places, widths, now, cpu)));
    reveal(AppState::panes);
}

} // verus!
