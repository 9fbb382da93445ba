//! The log pane.
//!
//! Lines are laid out from the bottom up so the newest output is always where
//! the eye expects it, and so wrapped lines consume the right number of rows
//! when computing how far back to start.

use vstd::prelude::*;

use ansi_to_tui::IntoText;

use crate::app::state::{part, App, AppState};
use crate::app::Focus;
use crate::docker::logs::{LogLine, LogLineView, Stream};
use crate::geometry::{minus, sub_cells, Rect};
use crate::text::{cat2, cat3, chars_of, dec, decimal, has_char, join, joined, owned, put};
use crate::ui::layout::{rows_from, rows_of};
use crate::ui::screen::{
    block_in, line, line_in, ln, no_lines, no_paint, no_spans, one, paint_block, paint_line, sp,
    span, two, AnsiStyle, Ink, Line, LineView, Paint, PaintView, Span, SpanView, Widget,
    WidgetView, Wrap,
};
use crate::ui::theme::{colored, plain, spin_text, Glyphs, Style};
use crate::ui::{cut, is_focused, pane, pane_of, title, title_of};

verus! {

broadcast use vstd::string::group_string_axioms;

/// The lines of a text and what its escape codes make of them; none when they
/// can't be read.
pub uninterp spec fn ansi_lines(text: Seq<char>) -> Option<Seq<Seq<SpanView>>>;

/// `ansi_to_tui::IntoText::into_text`, colours by their names and modifiers by
/// their bits.
#[verifier::external_body]
fn parse_ansi(text: &str) -> (out: Option<Vec<Vec<Span>>>)
    ensures
        out.deep_view() == ansi_lines(text@),
{
    let parsed = text.as_bytes().into_text().ok()?;
    Some(parsed.lines.into_iter().map(|l| l.spans.into_iter().map(|s| Span {
        text: s.content.into_owned(),
        ink: Ink::Ansi(AnsiStyle {
            fg: s.style.fg.map(|c| c.to_string()),
            bg: s.style.bg.map(|c| c.to_string()),
            added: s.style.add_modifier.bits(),
            removed: s.style.sub_modifier.bits(),
        }),
    }).collect()).collect())
}

/// The cells that a terminal gives a text.
pub uninterp spec fn span_cells(text: Seq<char>) -> usize;

/// `ratatui::text::Span::width`.
#[verifier::external_body]
fn measure(text: &str) -> (out: usize)
    ensures
        out == span_cells(text@),
{
    ratatui::text::Span::raw(text).width()
}

// ---------------------------------------------------------------------------
// One line
// ---------------------------------------------------------------------------

impl AppState {
    /// What a line says, cut to fit unless it may wrap.
    pub open spec fn log_text(self, l: LogLineView, width: nat) -> Seq<char> {
        if self.logs.wrap {
            l.text
        } else if self.logs.timestamps {
            self.cut(
                l.text,
                if width >= 9 {
                    (width - 9) as nat
                } else {
                    0
                },
            )
        } else {
            self.cut(l.text, width)
        }
    }

    /// A line, given what its escape codes were read as. Container output
    /// frequently carries its own colouring; it is kept when it can be read as
    /// one line, and the plain text stands in when it can't. stderr gets a
    /// subtle tint so failures stand out in a mixed stream.
    pub open spec fn log_spans(
        self,
        l: LogLineView,
        text: Seq<char>,
        parsed: Option<Seq<Seq<SpanView>>>,
    ) -> Seq<SpanView> {
        let front = match l.timestamp {
            Some(ts) => if self.logs.timestamps {
                seq![sp(ts + " "@, self.theme.faintest())]
            } else {
                Seq::empty()
            },
            None => Seq::empty(),
        };
        let base = colored(
            if l.stream == Stream::Stderr {
                self.theme.danger
            } else {
                self.theme.text
            },
        );
        match parsed {
            Some(lines) => if lines.len() == 1 && text.contains('\x1b') {
                front + lines[0]
            } else {
                front.push(sp(text, base))
            },
            None => front.push(sp(text, base)),
        }
    }

    /// A line of the pane, `width` cells wide.
    pub open spec fn log_line(self, l: LogLineView, width: nat) -> Seq<SpanView> {
        let text = self.log_text(l, width);
        self.log_spans(l, text, ansi_lines(text))
    }
}

/// The cells of some spans.
pub open spec fn line_cells(spans: Seq<SpanView>) -> nat
    decreases spans.len(),
{
    if spans.len() == 0 {
        0
    } else {
        line_cells(spans.drop_last()) + span_cells(spans.last().text) as nat
    }
}

impl AppState {
    /// The rows that a line takes. A wrapped line eats more than one, so it has
    /// to be accounted for or the pane scrolls by the wrong amount.
    pub open spec fn log_cost(self, spans: Seq<SpanView>, width: nat) -> nat {
        if self.logs.wrap {
            let cells = if line_cells(spans) > 1 {
                line_cells(spans)
            } else {
                1
            };
            let row = if width > 1 {
                width
            } else {
                1
            };
            (cells + row - 1) as nat / row
        } else {
            1
        }
    }

    /// The lines that fill what `rows` leaves of `height`, ending before the
    /// `k`th; at least one, unless there was one already.
    pub open spec fn log_lines(
        self,
        k: int,
        rows: nat,
        any: bool,
        width: nat,
        height: nat,
    ) -> Seq<LineView>
        decreases k,
    {
        if k <= 0 {
            Seq::empty()
        } else {
            let spans = self.log_line(self.logs.lines[k - 1], width);
            let cost = self.log_cost(spans, width);
            if rows + cost > height && any {
                Seq::empty()
            } else {
                self.log_lines(k - 1, rows + cost, true, width, height).push(ln(spans))
            }
        }
    }
}

fn timestamps_on(app: &App) -> (out: bool)
    ensures
        out == app.state().logs.timestamps,
{
    reveal(part);
    app.logs.timestamps
}

fn wraps(app: &App) -> (out: bool)
    ensures
        out == app.state().logs.wrap,
{
    reveal(part);
    app.logs.wrap
}

fn log_text(app: &App, l: &LogLine, width: usize) -> (out: String)
    ensures
        out@ == app.state().log_text(l.deep_view(), width as nat),
{
    if wraps(app) {
        owned(&l.text)
    } else if timestamps_on(app) {
        cut(
            app,
            &l.text,
            if width >= 9 {
                width - 9
            } else {
                0
            },
        )
    } else {
        cut(app, &l.text, width)
    }
}

/// A line, given what its escape codes were read as.
pub fn log_spans(app: &App, l: &LogLine, text: String, parsed: Option<Vec<Vec<Span>>>) -> (out: Vec<
    Span,
>)
    ensures
        out.deep_view() == app.state().log_spans(l.deep_view(), text@, parsed.deep_view()),
{
    let ghost v = app.state();
    let ghost want = v.log_spans(l.deep_view(), text@, parsed.deep_view());
    let mut spans = no_spans();
    if let Some(ts) = &l.timestamp {
        if timestamps_on(app) {
            put(&mut spans, span(cat2(ts, " "), app.theme.faint_style()));
        }
    }
    let ghost front = spans.deep_view();
    let base = if l.stream == Stream::Stderr {
        Style::default().fg(app.theme.danger)
    } else {
        app.theme.base()
    };
    if let Some(lines) = parsed {
        if lines.len() == 1 && has_char(&chars_of(&text), '\x1b') {
            let mut lines = lines;
            assert(lines.deep_view()[0] == lines@[0].deep_view());
            let mut own = lines.remove(0);
            let ghost mine = own@;
            spans.append(&mut own);
            assert(spans.deep_view() =~= front + mine.map_values(|s: Span| s.deep_view()));
            assert(spans.deep_view() =~= want);
            return spans;
        }
    }
    put(&mut spans, span(text, base));
    assert(spans.deep_view() =~= want);
    spans
}

fn render_line(app: &App, l: &LogLine, width: usize) -> (out: Vec<Span>)
    ensures
        out.deep_view() == app.state().log_line(l.deep_view(), width as nat),
{
    let text = log_text(app, l, width);
    let parsed = parse_ansi(&text);
    log_spans(app, l, text, parsed)
}

fn line_width(spans: &Vec<Span>) -> (out: u128)
    ensures
        out == line_cells(spans.deep_view()),
        out <= spans@.len() * 0xFFFF_FFFF_FFFF_FFFF,
{
    let ghost all = spans.deep_view();
    let mut used: u128 = 0;
    let mut i: usize = 0;
    assert(all.take(0) =~= Seq::<SpanView>::empty());
    while i < spans.len()
        invariant
            i <= spans.len(),
            all == spans.deep_view(),
            used == line_cells(all.take(i as int)),
            used <= i * 0xFFFF_FFFF_FFFF_FFFF,
        decreases spans.len() - i,
    {
        assert(all.take(i + 1).drop_last() =~= all.take(i as int));
        assert(all[i as int].text == spans@[i as int].text@);
        let cells: usize = measure(&spans[i].text);
        assert(i * 0xFFFF_FFFF_FFFF_FFFF + 0xFFFF_FFFF_FFFF_FFFF <= u128::MAX);
        used = used + cells as u128;
        i += 1;
    }
    assert(all.take(all.len() as int) =~= all);
    used
}

fn log_cost(app: &App, spans: &Vec<Span>, width: u16) -> (out: u128)
    ensures
        out == app.state().log_cost(spans.deep_view(), width as nat),
        out >= 1,
{
    if !wraps(app) {
        return 1;
    }
    let len: usize = spans.len();
    let measured = line_width(spans);
    let cells: u128 = if measured > 1 {
        measured
    } else {
        1
    };
    let row: u128 = if width > 1 {
        width as u128
    } else {
        1
    };
    proof {
        let n = len as int;
        assert(n * 0xFFFF_FFFF_FFFF_FFFF <= 0xFFFF_FFFF_FFFF_FFFF * 0xFFFF_FFFF_FFFF_FFFF)
            by (nonlinear_arith)
            requires
                0 <= n <= 0xFFFF_FFFF_FFFF_FFFF,
        ;
        let c = cells as int;
        let r = row as int;
        assert((c + r - 1) / r >= 1) by (nonlinear_arith)
            requires
                c >= 1,
                r >= 1,
        ;
    }
    (cells + row - 1) / row
}

// ---------------------------------------------------------------------------
// The pane
// ---------------------------------------------------------------------------

impl AppState {
    /// The breadcrumb after `logs`: which container, and whether we're
    /// following.
    pub open spec fn log_status(self, name: Seq<char>) -> Seq<char> {
        let front = seq![
            name,
            if self.logs.follow {
                "following"@
            } else {
                "paused "@ + dec(self.logs.scroll) + " lines back"@
            },
        ];
        join(
            if self.logs.wrap {
                front.push("wrap"@)
            } else {
                front
            },
            "  "@ + self.symbols.bullet + "  "@,
        )
    }

    /// The container the pane names.
    pub open spec fn log_name(self) -> Seq<char> {
        match self.container() {
            Some(c) => c.name,
            None => "-"@,
        }
    }

    /// The box round the pane.
    pub open spec fn log_box(self) -> crate::ui::screen::BlockView {
        let focused = self.focused_on(Focus::Logs);
        pane_of(
            self.theme,
            title_of(self.theme, "logs"@, Some(self.log_status(self.log_name())), focused),
            focused,
        )
    }

    /// What the pane says when it has nothing to show.
    pub open spec fn log_silence(self) -> Seq<char> {
        if self.logs.loading {
            spin_text(self.symbols.ascii, self.spinner as int / 2) + " attaching"@
                + self.symbols.ellipsis
        } else if self.logs.container_id is None {
            "no container selected"@
        } else {
            "no output yet"@
        }
    }

    /// The line after the last one in view: `scroll` counts lines back from the
    /// newest.
    pub open spec fn log_end(self) -> int {
        if self.logs.lines.len() >= self.logs.scroll {
            self.logs.lines.len() - self.logs.scroll
        } else {
            0
        }
    }

    /// The log pane. A scrollbar only earns its column once there's more than a
    /// screenful; it rides the right border, inset so as to leave the corners
    /// alone.
    #[verifier::opaque]
    pub open spec fn log_pane(self, area: Rect) -> Seq<PaintView> {
        let inner = area.inside();
        let framed = seq![block_in(area, self.log_box())];
        if inner.width == 0 || inner.height == 0 {
            framed
        } else if self.logs.error is Some {
            framed.push(
                line_in(
                    inner,
                    ln(
                        seq![
                            sp(self.symbols.cross + " "@, colored(self.theme.danger)),
                            sp(self.logs.error->0, self.theme.dim_style()),
                        ],
                    ),
                ),
            )
        } else if self.logs.lines.len() == 0 {
            framed.push(
                line_in(inner, ln(seq![sp(self.log_silence(), self.theme.dim_style())])),
            )
        } else {
            let total = self.logs.lines.len();
            let end = self.log_end();
            let shown = framed.push(
                PaintView {
                    area: inner,
                    widget: WidgetView::Text {
                        lines: self.log_lines(
                            end,
                            0,
                            false,
                            inner.width as nat,
                            inner.height as nat,
                        ),
                        wrap: if self.logs.wrap {
                            Wrap::Keep
                        } else {
                            Wrap::Cut
                        },
                        style: plain(),
                    },
                },
            );
            if total > inner.height {
                shown.push(
                    PaintView {
                        area: rows_of(area, 1, minus(area.height, 2)),
                        widget: WidgetView::Scrollbar {
                            ascii: self.theme.glyphs == Glyphs::Ascii,
                            length: (total - inner.height) as usize,
                            position: if end >= inner.height {
                                (end - inner.height) as usize
                            } else {
                                0
                            },
                            style: colored(self.theme.border_focus),
                        },
                    },
                )
            } else {
                shown
            }
        }
    }
}

fn status(app: &App, name: &str) -> (out: String)
    ensures
        out@ == app.state().log_status(name@),
{
    reveal(part);
    let mut parts: Vec<String> = Vec::new();
    assert(parts.deep_view() =~= Seq::<Seq<char>>::empty());
    put(&mut parts, owned(name));
    if app.logs.follow {
        put(&mut parts, owned("following"));
    } else {
        let back = decimal(app.logs.scroll as u64);
        put(&mut parts, cat3("paused ", &back, " lines back"));
    }
    if app.logs.wrap {
        put(&mut parts, owned("wrap"));
    }
    let sep = cat3("  ", app.symbols.bullet, "  ");
    proof {
        let v = app.state();
        let front = seq![
            name@,
            if v.logs.follow {
                "following"@
            } else {
                "paused "@ + dec(v.logs.scroll) + " lines back"@
            },
        ];
        assert(parts.deep_view() =~= if v.logs.wrap {
            front.push("wrap"@)
        } else {
            front
        });
    }
    joined(&parts, &sep)
}

fn log_box(app: &App) -> (out: crate::ui::screen::Block)
    ensures
        out.deep_view() == app.state().log_box(),
{
    let focused = is_focused(app, Focus::Logs);
    let name = match app.selected_container() {
        Some(c) => owned(&c.name),
        None => owned("-"),
    };
    let text = status(app, &name);
    let spans = title(app, "logs", Some(text), focused);
    pane(app, spans, focused)
}

fn silence(app: &App) -> (out: String)
    ensures
        out@ == app.state().log_silence(),
{
    reveal(part);
    if app.logs.loading {
        cat3(app.symbols.spin(app.spinner / 2), " attaching", app.symbols.ellipsis)
    } else if app.logs.container_id.is_none() {
        owned("no container selected")
    } else {
        owned("no output yet")
    }
}

fn render_at(app: &App, k: usize, width: usize) -> (out: Vec<Span>)
    requires
        k < app.state().logs.lines.len(),
    ensures
        out.deep_view() == app.state().log_line(
            app.state().logs.lines[k as int],
            width as nat,
        ),
{
    reveal(part);
    assert(app.state().logs.lines[k as int] == app.logs.lines@[k as int].deep_view());
    render_line(app, &app.logs.lines[k], width)
}

fn visible(app: &App, end: usize, width: u16, height: u16) -> (out: Vec<Line>)
    requires
        end <= app.state().logs.lines.len(),
    ensures
        out.deep_view() == app.state().log_lines(
            end as int,
            0,
            false,
            width as nat,
            height as nat,
        ),
{
    let ghost v = app.state();
    let ghost whole = v.log_lines(end as int, 0, false, width as nat, height as nat);
    let mut out = no_lines();
    let mut rows: u128 = 0;
    let mut k: usize = end;
    assert(whole + out.deep_view() =~= whole);
    while k > 0
        invariant
            k <= end <= v.logs.lines.len(),
            v == app.state(),
            rows <= height || out@.len() <= 1,
            whole == v.log_lines(end as int, 0, false, width as nat, height as nat),
            out@.len() == 0 ==> rows == 0,
            whole == v.log_lines(
                k as int,
                rows as nat,
                out@.len() > 0,
                width as nat,
                height as nat,
            ) + out.deep_view(),
        decreases k,
    {
        let ghost held = out.deep_view();
        let spans = render_at(app, k - 1, width as usize);
        let cost: u128 = log_cost(app, &spans, width);
        let over = rows > height as u128 || cost > height as u128 - rows;
        if over && out.len() > 0 {
            assert(v.log_lines(
                k as int,
                rows as nat,
                true,
                width as nat,
                height as nat,
            ) =~= Seq::<LineView>::empty());
            assert(whole =~= out.deep_view());
            return out;
        }
        rows = rows + cost;
        let l = line(spans);
        out.insert(0, l);
        assert(out.deep_view() =~= seq![l.deep_view()] + held);
        k -= 1;
        assert(whole =~= v.log_lines(
            k as int,
            rows as nat,
            true,
            width as nat,
            height as nat,
        ) + out.deep_view());
    }
    assert(whole =~= out.deep_view());
    out
}

fn extent(app: &App) -> (out: (usize, usize))
    ensures
        out.0 == app.state().logs.lines.len(),
        out.1 == app.state().log_end(),
        out.1 <= out.0,
{
    reveal(part);
    let total: usize = app.logs.lines.len();
    let end: usize = if total >= app.logs.scroll {
        total - app.logs.scroll
    } else {
        0
    };
    (total, end)
}

fn error_of(app: &App) -> (out: Option<String>)
    ensures
        out.deep_view() == app.state().logs.error,
{
    reveal(part);
    match &app.logs.error {
        Some(e) => Some(owned(e)),
        None => None,
    }
}

fn cross(app: &App) -> (out: &'static str)
    ensures
        out@ == app.state().symbols.cross,
{
    reveal(part);
    app.symbols.cross
}

/// Draw the log pane.
pub fn draw(app: &App, area: Rect) -> (out: Vec<Paint>)
    ensures
        out.deep_view() == app.state().log_pane(area),
{
    reveal(AppState::log_pane);
    let mut out = no_paint();
    put(&mut out, paint_block(area, log_box(app)));
    let inner = area.inner();
    if inner.width == 0 || inner.height == 0 {
        return out;
    }
    if let Some(err) = error_of(app) {
        put(
            &mut out,
            paint_line(
                inner,
                line(
                    two(
                        span(cat2(cross(app), " "), Style::default().fg(app.theme.danger)),
                        span(err, app.theme.dim()),
                    ),
                ),
            ),
        );
        return out;
    }
    let (total, end): (usize, usize) = extent(app);
    if total == 0 {
        put(&mut out, paint_line(inner, line(one(span(silence(app), app.theme.dim())))));
        return out;
    }
    let lines = visible(app, end, inner.width, inner.height);
    let wrap = if wraps(app) {
        Wrap::Keep
    } else {
        Wrap::Cut
    };
    put(
        &mut out,
        Paint { area: inner, widget: Widget::Text { lines, wrap, style: Style::default() } },
    );
    let height: usize = inner.height as usize;
    if total > height {
        let position: usize = if end >= height {
            end - height
        } else {
            0
        };
        put(
            &mut out,
            Paint {
                area: rows_from(area, 1, sub_cells(area.height, 2)),
                widget: Widget::Scrollbar {
                    ascii: app.theme.glyphs == Glyphs::Ascii,
                    length: total - height,
                    position,
                    style: Style::default().fg(app.theme.border_focus),
                },
            },
        );
    }
    out
}

} // verus!
