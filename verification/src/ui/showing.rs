//! What whoever looks at the screen can rely on: that it shows what there is.

use vstd::prelude::*;

use crate::app::state::AppState;
use crate::docker::logs::{LogLineView, Stream};
use crate::geometry::Rect;
use crate::ui::screen::{sp, LineView, SpanView, WidgetView};
use crate::ui::text_of;
use crate::ui::theme::colored;
use crate::util::format::text_width;

verus! {

broadcast use vstd::string::group_string_axioms;

// ---------------------------------------------------------------------------
// Logs
// ---------------------------------------------------------------------------

impl AppState {
    /// Whether the log pane has lines to show in `area`, and room to show them.
    pub open spec fn shows_logs_in(self, area: Rect) -> bool {
        &&& area.inside().width > 0 && area.inside().height > 0
        &&& self.logs.error is None
        &&& self.logs.lines.len() > 0
    }

    /// The lines of text that the log pane draws in `area`.
    pub open spec fn log_lines_in(self, area: Rect) -> Seq<LineView> {
        self.log_pane(area)[1].widget->lines
    }

    /// The rows that lines `from` up to `to` of the buffer take.
    pub open spec fn rows_taken(self, from: int, to: int, width: nat) -> nat
        decreases to - from,
    {
        if from >= to {
            0
        } else {
            self.log_cost(self.log_line(self.logs.lines[from], width), width) + self.rows_taken(
                from + 1,
                to,
                width,
            )
        }
    }
}

proof fn log_lines_are_a_run(
    v: AppState,
    k: int,
    rows: nat,
    any: bool,
    width: nat,
    height: nat,
)
    requires
        0 <= k <= v.logs.lines.len(),
    ensures
        ({
            let shown = v.log_lines(k, rows, any, width, height);
            let n = shown.len() as int;
            &&& n <= k
            &&& k > 0 && !any ==> n > 0
            &&& forall|j: int|
                0 <= j < n ==> (#[trigger] shown[j]).spans == v.log_line(
                    v.logs.lines[k - n + j],
                    width,
                )
            &&& n > 1 || (any && n > 0) ==> rows + v.rows_taken(k - n, k, width) <= height
            &&& n < k && (any || n > 0) ==> rows + v.rows_taken(k - n - 1, k, width) > height
        }),
    decreases k,
{
    if k > 0 {
        let spans = v.log_line(v.logs.lines[k - 1], width);
        let cost = v.log_cost(spans, width);
        let shown = v.log_lines(k, rows, any, width, height);
        taken_from_the_end(v, k - 1, k, width);
        if !(rows + cost > height && any) {
            let low = v.log_lines(k - 1, rows + cost, true, width, height);
            log_lines_are_a_run(v, k - 1, rows + cost, true, width, height);
            let n = shown.len() as int;
            assert forall|j: int| 0 <= j < n implies (#[trigger] shown[j]).spans == v.log_line(
                v.logs.lines[k - n + j],
                width,
            ) by {
                if j < low.len() {
                    assert(shown[j] == low[j]);
                }
            }
            taken_from_the_end(v, k - n, k, width);
            taken_from_the_end(v, k - n - 1, k, width);
        }
    }
}

proof fn taken_from_the_end(v: AppState, from: int, to: int, width: nat)
    ensures
        from < to ==> v.rows_taken(from, to, width) == v.rows_taken(from, to - 1, width)
            + v.log_cost(v.log_line(v.logs.lines[to - 1], width), width),
        from >= to ==> v.rows_taken(from, to, width) == 0,
    decreases to - from,
{
    if from + 1 < to {
        taken_from_the_end(v, from + 1, to, width);
    } else if from + 1 == to {
        assert(v.rows_taken(to, to, width) == 0);
        assert(v.rows_taken(from, to - 1, width) == 0);
    }
}

/// The log pane shows a run of the buffer that ends as many lines before the newest as it
/// is scrolled back: its last line is the buffered line at `len - 1 - scroll`, and what
/// stands above it are the lines before that one, in order.
pub proof fn scrolling_back_shows_older_lines(v: AppState, area: Rect)
    requires
        v.shows_logs_in(area),
        v.logs.scroll < v.logs.lines.len(),
    ensures
        ({
            let shown = v.log_lines_in(area);
            let n = shown.len() as int;
            let last = v.logs.lines.len() - 1 - v.logs.scroll;
            let width = area.inside().width as nat;
            &&& v.log_pane(area)[1].area == area.inside()
            &&& v.log_pane(area)[1].widget is Text
            &&& 0 < n <= last + 1
            &&& shown[n - 1].spans == v.log_line(v.logs.lines[last], width)
            &&& forall|j: int|
                0 <= j < n ==> (#[trigger] shown[j]).spans == v.log_line(
                    v.logs.lines[last + 1 - n + j],
                    width,
                )
        }),
{
    reveal(AppState::log_pane);
    let inner = area.inside();
    let end = v.logs.lines.len() - v.logs.scroll;
    log_lines_are_a_run(v, end, 0, false, inner.width as nat, inner.height as nat);
}

/// Without wrapping, the log pane is filled: it shows as many lines as it has rows, or
/// all there are up to where it is scrolled.
pub proof fn the_log_pane_is_filled(v: AppState, area: Rect)
    requires
        v.shows_logs_in(area),
        v.logs.scroll < v.logs.lines.len(),
        !v.logs.wrap,
    ensures
        ({
            let n = v.log_lines_in(area).len();
            let height = area.inside().height;
            let upto = v.logs.lines.len() - v.logs.scroll;
            n == (if upto < height {
                upto
            } else {
                height as int
            })
        }),
{
    reveal(AppState::log_pane);
    let inner = area.inside();
    let (width, height) = (inner.width as nat, inner.height as nat);
    let end = v.logs.lines.len() - v.logs.scroll;
    let n = v.log_lines(end, 0, false, width, height).len() as int;
    log_lines_are_a_run(v, end, 0, false, width, height);
    unwrapped_rows(v, end - n, end, width);
    unwrapped_rows(v, end - n - 1, end, width);
}

proof fn unwrapped_rows(v: AppState, from: int, to: int, width: nat)
    requires
        !v.logs.wrap,
        from <= to,
    ensures
        v.rows_taken(from, to, width) == to - from,
    decreases to - from,
{
    if from < to {
        unwrapped_rows(v, from + 1, to, width);
    }
}

/// With wrapping, the lines shown fit into the pane's rows together, unless a single one
/// is too long by itself; and one more would not.
pub proof fn wrapped_lines_fit(v: AppState, area: Rect)
    requires
        v.shows_logs_in(area),
        v.logs.scroll < v.logs.lines.len(),
    ensures
        ({
            let n = v.log_lines_in(area).len() as int;
            let (width, height) = (area.inside().width as nat, area.inside().height as nat);
            let upto = v.logs.lines.len() - v.logs.scroll;
            &&& n > 1 ==> v.rows_taken(upto - n, upto, width) <= height
            &&& n < upto ==> v.rows_taken(upto - n - 1, upto, width) > height
        }),
{
    reveal(AppState::log_pane);
    let inner = area.inside();
    let end = v.logs.lines.len() - v.logs.scroll;
    log_lines_are_a_run(v, end, 0, false, inner.width as nat, inner.height as nat);
}

/// A wrapped line takes as many rows as its cells fill, the last perhaps in part; an
/// unwrapped one takes one.
pub proof fn lines_take_the_rows_they_fill(v: AppState, spans: Seq<SpanView>, width: nat)
    requires
        width > 1,
    ensures
        !v.logs.wrap ==> v.log_cost(spans, width) == 1,
        v.logs.wrap ==> ({
            let cells = crate::ui::logs::line_cells(spans);
            let rows = v.log_cost(spans, width);
            &&& rows >= 1
            &&& cells <= rows * width
            &&& cells > 0 ==> (rows - 1) * width < cells
        }),
{
    let cells = crate::ui::logs::line_cells(spans) as int;
    let x = if cells > 1 {
        cells
    } else {
        1
    };
    let w = width as int;
    let rows = (x + w - 1) / w;
    assert(rows >= 1 && x <= rows * w && (rows - 1) * w < x) by (nonlinear_arith)
        requires
            w > 1,
            x >= 1,
            rows == (x + w - 1) / w,
    ;
}

/// Two panes that are scrolled back differently end on different lines of the buffer.
pub proof fn scrolling_moves_the_view(v: AppState, w: AppState, area: Rect)
    requires
        v.shows_logs_in(area),
        w == (AppState {
            logs: crate::app::state::LogView { scroll: w.logs.scroll, ..v.logs },
            ..v
        }),
        v.logs.scroll < w.logs.scroll < v.logs.lines.len(),
    ensures
        ({
            let back = w.logs.scroll - v.logs.scroll;
            let last = v.logs.lines.len() - 1 - v.logs.scroll;
            let width = area.inside().width as nat;
            &&& v.log_lines_in(area).last().spans == v.log_line(v.logs.lines[last], width)
            &&& w.log_lines_in(area).last().spans == v.log_line(v.logs.lines[last - back], width)
        }),
{
    scrolling_back_shows_older_lines(v, area);
    scrolling_back_shows_older_lines(w, area);
}

/// The scrollbar appears once there are more lines than rows, and stands where the view
/// stands: at the bottom exactly when the newest line is in view, and as many lines
/// above it as the pane is scrolled back.
pub proof fn the_scrollbar_stands_where_the_view_does(v: AppState, area: Rect)
    requires
        v.shows_logs_in(area),
        v.logs.lines.len() <= usize::MAX,
        v.logs.scroll <= v.logs.lines.len(),
    ensures
        ({
            let height = area.inside().height as int;
            let len = v.logs.lines.len() as int;
            let pane = v.log_pane(area);
            &&& len <= height ==> pane.len() == 2
            &&& len > height ==> pane.len() == 3 && (pane[2].widget matches WidgetView::Scrollbar {
                length,
                position,
                ..
            } && length == len - height && (v.logs.scroll <= length ==> position == length
                - v.logs.scroll) && (v.logs.scroll > length ==> position == 0))
        }),
{
    reveal(AppState::log_pane);
}

/// A line of plain text that fits is shown as it is, behind its timestamp if those are
/// shown.
pub proof fn log_lines_say_what_was_logged(v: AppState, l: LogLineView, width: nat)
    requires
        !l.text.contains('\x1b'),
        v.logs.wrap || text_width(l.text) + 9 < width,
    ensures
        text_of(v.log_line(l, width)) == (match l.timestamp {
            Some(ts) if v.logs.timestamps => ts + " "@ + l.text,
            _ => l.text,
        }),
        v.log_line(l, width).last().text == l.text,
{
    let text = v.log_text(l, width);
    assert(text == l.text);
    let spans = v.log_line(l, width);
    reveal_with_fuel(text_of, 3);
    if l.timestamp is Some && v.logs.timestamps {
        assert(spans.drop_last().drop_last() =~= Seq::<SpanView>::empty());
        assert(text_of(spans) =~= l.timestamp->0 + " "@ + l.text);
    } else {
        assert(spans.drop_last() =~= Seq::<SpanView>::empty());
        assert(text_of(spans) =~= l.text);
    }
}

/// An error in the stream is shown instead of any lines, and in full.
pub proof fn log_errors_are_shown(v: AppState, area: Rect, message: Seq<char>)
    requires
        area.inside().width > 0,
        area.inside().height > 0,
        v.logs.error == Some(message),
    ensures
        ({
            let pane = v.log_pane(area);
            &&& pane.len() == 2
            &&& pane[1].widget matches WidgetView::Text { lines, .. } && lines.len() == 1
                && lines[0].spans.last().text == message
        }),
{
    reveal(AppState::log_pane);
}

/// What a container writes to its error stream stands out from the rest, as long as it
/// brings no colours of its own.
pub proof fn errors_stand_out(v: AppState, l: LogLineView, text: Seq<char>)
    requires
        !text.contains('\x1b'),
    ensures
        l.stream == Stream::Stderr ==> v.log_spans(
            l,
            text,
            crate::ui::logs::ansi_lines(text),
        ).last() == sp(text, colored(v.theme.danger)),
        l.stream == Stream::Stdout ==> v.log_spans(
            l,
            text,
            crate::ui::logs::ansi_lines(text),
        ).last() == sp(text, colored(v.theme.text)),
{
}

/// A pane without lines says what it waits for: a stream to open, a container to be
/// selected, or output.
pub proof fn silence_is_explained(v: AppState)
    ensures
        v.logs.loading ==> v.log_silence() == crate::ui::theme::spin_text(
            v.symbols.ascii,
            v.spinner as int / 2,
        ) + " attaching"@ + v.symbols.ellipsis,
        !v.logs.loading && v.logs.container_id is None ==> v.log_silence()
            == "no container selected"@,
        !v.logs.loading && v.logs.container_id is Some ==> v.log_silence() == "no output yet"@,
{
}

} // verus!
