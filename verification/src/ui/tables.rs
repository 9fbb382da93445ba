//! The resource tables.
//!
//! Column widths are resolved up front with the same constraints the table is
//! drawn with, so each cell can be truncated to exactly the space it will get
//! rather than relying on the widget to clip mid-glyph.

use vstd::prelude::*;

use crate::app::hits::HitView;
use crate::app::state::{items_among, part, wf_carries_over, App, AppState};
use crate::app::{Focus, Sort, Tab};
use crate::docker::model::{Health, State};
use crate::docker::stats::{Percent, EIGHTY, FIFTY, ONE};
use crate::geometry::{add_cells, least, min_cells, minus, plus, sub_cells, Rect};
use crate::text::{
    begins, begins_with, cat2, cat3, cat4, cat5, chars_of, dec, decimal, find, find_char,
    find_pattern, find_text, owned, put, string_between,
};
use crate::ui::layout::{column_widths, resolves, rows_from, rows_of, Constraint};
use crate::ui::rows::{columns, columns_of, constraints, constraints_of, rows};
use crate::ui::screen::{
    block_in, line, line_at, line_in, ln, ln_at, no_lines, no_paint, one, paint_block,
    paint_line, sp, span, spans_cells, styled, Alignment, BlockView, Col, ColView, Line,
    LineView, Paint, PaintView, Span, SpanView, Table, TableView, Widget, WidgetView,
};
use crate::ui::theme::{colored, strong, Color, Style, Symbols, SymbolsView, Theme};
use crate::ui::{
    corner, corner_of, highlight, highlighted, is_focused, pane, pane_of, spans_width, title,
    title_of,
};
use crate::util::format::{text_width, width};

verus! {

broadcast use vstd::string::group_string_axioms;

/// The cells between two columns.
pub const SPACING: u16 = 1;

// ---------------------------------------------------------------------------
// Around the table
// ---------------------------------------------------------------------------

/// What a list is called.
pub open spec fn list_name(tab: Tab) -> Seq<char> {
    match tab {
        Tab::Containers => "containers"@,
        Tab::Images => "images"@,
        Tab::Volumes => "volumes"@,
        Tab::Networks => "networks"@,
    }
}

fn tab_label(tab: Tab) -> (out: &'static str)
    ensures
        out@ == list_name(tab),
{
    match tab {
        Tab::Containers => "containers",
        Tab::Images => "images",
        Tab::Volumes => "volumes",
        Tab::Networks => "networks",
    }
}

impl AppState {
    /// `12/31 · 3 stacks · filtered` — the state of the list at a glance.
    ///
    /// The sort lives in the opposite corner rather than here: it describes the
    /// columns, so it belongs over the end of them, and a subtitle that grows a
    /// stack count and a filter marker is the first thing a narrow pane
    /// truncates.
    pub open spec fn subtitle_text(self) -> Seq<char> {
        let shown = items_among(self.rows(), self.rows().len() as int);
        let total = self.count(self.tab);
        let counted = if shown == total {
            dec(total)
        } else {
            dec(shown) + "/"@ + dec(total)
        };
        let stacked = if self.grouping() {
            counted + "  "@ + self.symbols.bullet + "  "@ + (dec(self.groups.len()) + (
            if self.groups.len() == 1 {
                " stack"@
            } else {
                " stacks"@
            }))
        } else {
            counted
        };
        if self.filter.at(self.tab).value.len() > 0 {
            stacked + "  "@ + self.symbols.bullet + "  filtered"@
        } else {
            stacked
        }
    }

    /// The arrow for which way the active column runs.
    pub open spec fn chevron(self) -> Seq<char> {
        if self.descending() {
            self.symbols.arrow_down
        } else {
            self.symbols.arrow_up
        }
    }

    /// `cpu ▾` — the column the list is sorted by, and which way it runs. Its
    /// arrow is that of the column header, so the two can't end up pointing
    /// opposite ways on the same screen.
    pub open spec fn sort_text(self) -> Seq<char> {
        self.sort_of(self.tab).label_text() + " "@ + self.chevron()
    }

    /// What an empty list says.
    pub open spec fn emptiness(self) -> Seq<char> {
        if self.filter.at(self.tab).value.len() > 0 {
            "nothing matches this filter"@
        } else {
            match self.tab {
                Tab::Containers => if self.show_stopped {
                    "no containers"@
                } else {
                    "no running containers  (press a to show stopped)"@
                },
                Tab::Images => "no images"@,
                Tab::Volumes => "no volumes"@,
                Tab::Networks => "no networks"@,
            }
        }
    }

    /// The message of an empty list, a third of the way down rather than glued
    /// to the top.
    pub open spec fn empty_message(self, area: Rect) -> PaintView {
        line_in(
            rows_of(area, area.height / 3, 1),
            ln_at(seq![sp(self.emptiness(), self.theme.dim_style())], Alignment::Center),
        )
    }

    /// The header of a column. The sorted column is picked out so the header
    /// doubles as an indicator of what you're looking at, and carries a chevron
    /// for which way it runs.
    pub open spec fn header_cell(self, col: ColView) -> LineView {
        let active = col.sort == Some(self.sort_of(self.tab));
        let style = strong(
            if active {
                self.theme.accent
            } else {
                self.theme.faint
            },
        );
        let named = seq![sp(col.title, style)];
        ln_at(
            if active {
                named.push(sp(" "@ + self.chevron(), style))
            } else {
                named
            },
            col.align,
        )
    }
}

fn subtitle(app: &App) -> (out: String)
    ensures
        out@ == app.state().subtitle_text(),
{
    reveal(part);
    let shown: usize = app.visible_items();
    let total: usize = app.total_rows();
    let all = decimal(total as u64);
    let mut s = if shown == total {
        all
    } else {
        let some = decimal(shown as u64);
        cat3(&some, "/", &all)
    };
    if app.grouping() {
        let n: usize = app.groups.len();
        let stacks = decimal(n as u64);
        let tail = cat2(
            &stacks,
            if n == 1 {
                " stack"
            } else {
                " stacks"
            },
        );
        s = cat5(&s, "  ", app.symbols.bullet, "  ", &tail);
    }
    if filtered(app) {
        s = cat4(&s, "  ", app.symbols.bullet, "  filtered");
    }
    s
}

fn filtered(app: &App) -> (out: bool)
    ensures
        out == (app.state().filter.at(app.state().tab).value.len() > 0),
{
    reveal(part);
    !app.filter.get(app.tab).value.as_str().is_empty()
}

/// The filter of the tab on screen.
pub fn needle(app: &App) -> (out: String)
    ensures
        out@ == app.state().filter.at(app.state().tab).value,
{
    reveal(part);
    owned(&app.filter.get(app.tab).value)
}

fn chevron(app: &App) -> (out: &'static str)
    requires
        app.wf(),
    ensures
        out@ == app.state().chevron(),
{
    reveal(AppState::wf);
    reveal(part);
    if app.sort_descending() {
        app.symbols.arrow_down
    } else {
        app.symbols.arrow_up
    }
}

fn active_sort(app: &App) -> (out: Sort)
    requires
        app.wf(),
    ensures
        out == app.state().sort_of(app.state().tab),
{
    reveal(AppState::wf);
    app.sort()
}

fn sort_label(app: &App) -> (out: String)
    requires
        app.wf(),
    ensures
        out@ == app.state().sort_text(),
{
    cat3(active_sort(app).label(), " ", chevron(app))
}

fn empty_state(app: &App, area: Rect) -> (out: Paint)
    ensures
        out.deep_view() == app.state().empty_message(area),
{
    let text = if filtered(app) {
        "nothing matches this filter"
    } else {
        match app.tab {
            Tab::Containers => if app.show_stopped {
                "no containers"
            } else {
                "no running containers  (press a to show stopped)"
            },
            Tab::Images => "no images",
            Tab::Volumes => "no volumes",
            Tab::Networks => "no networks",
        }
    };
    paint_line(
        rows_from(area, area.height / 3, 1),
        line_at(one(styled(text, app.theme.dim())), Alignment::Center),
    )
}

fn header_cell(app: &App, col: &Col) -> (out: Line)
    requires
        app.wf(),
    ensures
        out.deep_view() == app.state().header_cell(col.deep_view()),
{
    let active = match col.sort {
        Some(sort) => sort == active_sort(app),
        None => false,
    };
    let style = Style::default().fg(
        if active {
            app.theme.accent
        } else {
            app.theme.faint
        },
    ).bold();
    let mut spans = one(styled(col.title, style));
    if active {
        put(&mut spans, span(cat2(" ", chevron(app)), style));
    }
    line_at(spans, col.align)
}

// ---------------------------------------------------------------------------
// Cells
// ---------------------------------------------------------------------------

/// The primary identifier column, with the characters an active filter matched
/// picked out so it's obvious *why* a row survived the filter.
pub open spec fn name_line(theme: Theme, text: Seq<char>, needle: Seq<char>, muted: bool) -> LineView {
    ln(
        highlighted(
            text,
            needle,
            if muted {
                colored(theme.subtle)
            } else {
                strong(theme.text)
            },
            strong(theme.accent),
        ),
    )
}

/// The primary identifier column.
pub fn name_cell(theme: &Theme, text: String, needle: &str, muted: bool) -> (out: Line)
    ensures
        out.deep_view() == name_line(*theme, text@, needle@, muted),
{
    let base = if muted {
        Style::default().fg(theme.subtle)
    } else {
        Style::default().fg(theme.text).bold()
    };
    let hit = Style::default().fg(theme.accent).bold();
    line(highlight(text, needle, base, hit))
}

/// A cell of one span.
pub open spec fn cell(text: Seq<char>, style: Style) -> LineView {
    ln(seq![sp(text, style)])
}

/// A cell of one span at the right.
pub open spec fn cell_right(text: Seq<char>, style: Style) -> LineView {
    ln_at(seq![sp(text, style)], Alignment::Right)
}

/// A cell of one span.
pub fn make_cell(text: String, style: Style) -> (out: Line)
    ensures
        out.deep_view() == cell(text@, style),
{
    line(one(span(text, style)))
}

/// A cell of one span at the right.
pub fn make_cell_right(text: String, style: Style) -> (out: Line)
    ensures
        out.deep_view() == cell_right(text@, style),
{
    line_at(one(span(text, style)), Alignment::Right)
}

/// What a container's state column says. Docker's own status text is preferred
/// over the bare state — `Up 2 days` and `Exited (137)` both say more than
/// `running` and `exited` do. For a running container the parenthetical is the
/// health, which the dot already shows: `Up 2 days (healthy)` → `Up 2 days`. For
/// a stopped one it's the exit code, which is the whole story: `Exited (137) 2
/// days ago` → `Exited (137)`.
pub open spec fn state_text(state: State, status: Seq<char>) -> Seq<char> {
    if status.len() == 0 {
        state.label_text()
    } else if begins(status, "Up"@) {
        status.take(find_text(status, " ("@, 0))
    } else {
        let close = find(status, ')', 0);
        if close < status.len() {
            status.take(close) + ")"@
        } else {
            status
        }
    }
}

/// What a container's state column says.
pub fn state_label(state: State, status: &str) -> (out: String)
    ensures
        out@ == state_text(state, status@),
{
    let v = chars_of(status);
    if v.len() == 0 {
        return owned(state.label());
    }
    if begins_with(&v, "Up") {
        let end = find_pattern(&v, &chars_of(" ("));
        let out = string_between(&v, 0, end);
        assert(out@ =~= status@.take(end as int));
        return out;
    }
    let close = find_char(&v, ')', 0);
    if close < v.len() {
        let head = string_between(&v, 0, close);
        assert(head@ =~= status@.take(close as int));
        cat2(&head, ")")
    } else {
        owned(status)
    }
}

/// The colour of a state.
pub open spec fn state_hue(theme: Theme, state: State) -> Color {
    match state {
        State::Running => theme.success,
        State::Restarting => theme.accent,
        State::Paused => theme.warn,
        State::Created => theme.info,
        State::Stopping => theme.warn,
        State::Removing => theme.warn,
        State::Exited => theme.subtle,
        State::Dead => theme.danger,
        State::Unknown => theme.danger,
    }
}

/// The colour of a state.
pub fn state_color(theme: &Theme, state: State) -> (out: Color)
    ensures
        out == state_hue(*theme, state),
{
    match state {
        State::Running => theme.success,
        State::Restarting => theme.accent,
        State::Paused => theme.warn,
        State::Created => theme.info,
        State::Stopping => theme.warn,
        State::Removing => theme.warn,
        State::Exited => theme.subtle,
        State::Dead => theme.danger,
        State::Unknown => theme.danger,
    }
}

/// The glyph of a state. Health, when present, is more informative than the
/// coarse state.
pub open spec fn dot_of(theme: Theme, sym: SymbolsView, state: State, health: Health) -> SpanView {
    if state.running() {
        match health {
            Health::Unhealthy => sp(sym.unhealthy, colored(theme.danger)),
            Health::Starting => sp(sym.restarting, colored(theme.warn)),
            _ => sp(sym.running, colored(theme.success)),
        }
    } else {
        match state {
            State::Paused => sp(sym.paused, colored(theme.warn)),
            State::Created => sp(sym.created, colored(theme.info)),
            State::Dead => sp(sym.dead, colored(theme.danger)),
            _ => sp(sym.stopped, colored(theme.faint)),
        }
    }
}

/// The glyph of a state.
pub fn status_dot(theme: &Theme, sym: &Symbols, state: State, health: Health) -> (out: Span)
    ensures
        out.deep_view() == dot_of(*theme, sym.deep_view(), state, health),
{
    if state.is_running() {
        match health {
            Health::Unhealthy => styled(sym.unhealthy, Style::default().fg(theme.danger)),
            Health::Starting => styled(sym.restarting, Style::default().fg(theme.warn)),
            _ => styled(sym.running, Style::default().fg(theme.success)),
        }
    } else {
        match state {
            State::Paused => styled(sym.paused, Style::default().fg(theme.warn)),
            State::Created => styled(sym.created, Style::default().fg(theme.info)),
            State::Dead => styled(sym.dead, Style::default().fg(theme.danger)),
            _ => styled(sym.stopped, Style::default().fg(theme.faint)),
        }
    }
}

/// Load figures are coloured by how alarming they are, so a hot container stands
/// out without having to read the number.
pub open spec fn load_look(theme: Theme, percent: Option<Percent>) -> Style {
    match percent {
        None => theme.faintest(),
        Some(p) => if p.bits >= EIGHTY {
            colored(theme.danger)
        } else if p.bits >= FIFTY {
            colored(theme.warn)
        } else if p.bits >= ONE {
            colored(theme.text)
        } else {
            theme.dim_style()
        },
    }
}

/// The look of a load figure.
pub fn load_style(theme: &Theme, percent: Option<Percent>) -> (out: Style)
    ensures
        out == load_look(*theme, percent),
{
    match percent {
        None => theme.faint_style(),
        Some(p) => if p.bits >= EIGHTY {
            Style::default().fg(theme.danger)
        } else if p.bits >= FIFTY {
            Style::default().fg(theme.warn)
        } else if p.bits >= ONE {
            Style::default().fg(theme.text)
        } else {
            theme.dim()
        },
    }
}

/// A count of users, or a dash.
pub open spec fn users_cell(theme: Theme, n: int) -> LineView {
    if n > 0 {
        cell_right(dec(n as nat), colored(theme.text))
    } else {
        cell_right("-"@, theme.faintest())
    }
}

/// A count of users, or a dash.
pub fn make_users(theme: &Theme, n: u64) -> (out: Line)
    ensures
        out.deep_view() == users_cell(*theme, n as int),
{
    if n > 0 {
        make_cell_right(decimal(n), theme.base())
    } else {
        make_cell_right(owned("-"), theme.faint_style())
    }
}

/// A dot for something in use, or not.
pub open spec fn use_dot(theme: Theme, sym: SymbolsView, used: bool) -> LineView {
    if used {
        cell(sym.running, colored(theme.success))
    } else {
        cell(sym.stopped, colored(theme.faint))
    }
}

/// A dot for something in use, or not.
pub fn make_use_dot(theme: &Theme, sym: &Symbols, used: bool) -> (out: Line)
    ensures
        out.deep_view() == use_dot(*theme, sym.deep_view(), used),
{
    if used {
        make_cell(owned(sym.running), Style::default().fg(theme.success))
    } else {
        make_cell(owned(sym.stopped), Style::default().fg(theme.faint))
    }
}

// ---------------------------------------------------------------------------
// The list
// ---------------------------------------------------------------------------

impl AppState {
    /// The header row.
    pub open spec fn header_cells(self, w: u16) -> Seq<LineView> {
        columns_of(self.tab, w).map_values(|c: ColView| self.header_cell(c))
    }

    /// The table of the list, with its columns as wide as `widths` says.
    #[verifier::opaque]
    pub open spec fn table(self, w: u16, widths: Seq<u16>, now: int) -> TableView {
        TableView {
            cols: columns_of(self.tab, w),
            constraints: constraints_of(self.tab, w),
            header: self.header_cells(w),
            rows: self.table_rows(widths, w, now),
            highlight: self.theme.highlight(self.focused_on(Focus::List)),
            selected: self.cursor_from(0),
            offset: self.offset.at(self.tab),
        }
    }

    /// The box round the list. Both titles share the one border row, so the
    /// corner only gets to claim its space once the pane's own name has had its:
    /// two cells for the corners themselves, two for the padding.
    #[verifier::opaque]
    pub open spec fn list_box(self, area: Rect) -> BlockView {
        let focused = self.focused_on(Focus::List);
        let title = title_of(
            self.theme,
            list_name(self.tab),
            Some(self.subtitle_text()),
            focused,
        );
        let block = pane_of(self.theme, title, focused);
        if spans_cells(title) + text_width(self.sort_text()) + 4 <= area.width {
            BlockView {
                titles: block.titles.push(corner_of(self.theme, self.sort_text())),
                ..block
            }
        } else {
            block
        }
    }

    /// The list, with its columns as wide as `widths` says.
    #[verifier::opaque]
    pub open spec fn list(self, area: Rect, widths: Seq<u16>, now: int) -> Seq<PaintView> {
        let inner = area.inside();
        let framed = seq![block_in(area, self.list_box(area))];
        if inner.width == 0 || inner.height == 0 {
            framed
        } else if self.rows().len() == 0 {
            framed.push(self.empty_message(inner))
        } else {
            framed.push(
                PaintView {
                    area: inner,
                    widget: WidgetView::Table(self.table(inner.width, widths, now)),
                },
            )
        }
    }
}

fn header_cells(app: &App, w: u16) -> (out: Vec<Line>)
    requires
        app.wf(),
    ensures
        out.deep_view() == app.state().header_cells(w),
{
    let cols = columns(app.tab, w);
    let ghost v = app.state();
    let ghost whole = v.header_cells(w);
    let mut out = no_lines();
    let mut i: usize = 0;
    assert(out.deep_view() =~= whole.take(0));
    while i < cols.len()
        invariant
            i <= cols.len(),
            cols.deep_view() == columns_of(v.tab, w),
            cols@.len() == whole.len(),
            v == app.state(),
            app.wf(),
            whole == v.header_cells(w),
            out.deep_view() == whole.take(i as int),
        decreases cols.len() - i,
    {
        assert(columns_of(v.tab, w)[i as int] == cols@[i as int].deep_view());
        put(&mut out, header_cell(app, &cols[i]));
        assert(whole.take(i + 1) =~= whole.take(i as int).push(whole[i as int]));
        i += 1;
    }
    assert(whole.take(whole.len() as int) =~= whole);
    out
}

fn offset_of(app: &App) -> (out: usize)
    ensures
        out == app.state().offset.at(app.state().tab),
{
    *app.offset.get(app.tab)
}

/// The table of the list, its columns being as wide as `widths` says and the
/// time being `now`.
pub fn table_at(app: &App, w: u16, widths: &Vec<u16>, now: i64) -> (out: Table)
    requires
        app.wf(),
        widths@.len() == columns_of(app.state().tab, w).len(),
    ensures
        out.deep_view() == app.state().table(w, widths@, now as int),
{
    reveal(AppState::table);
    Table {
        cols: columns(app.tab, w),
        constraints: constraints(app.tab, w),
        header: header_cells(app, w),
        rows: rows(app, widths, w, now),
        highlight: app.theme.selected_style(is_focused(app, Focus::List)),
        selected: app.cursor(),
        offset: offset_of(app),
    }
}

fn list_box(app: &App, area: Rect) -> (out: crate::ui::screen::Block)
    requires
        app.wf(),
    ensures
        out.deep_view() == app.state().list_box(area),
{
    reveal(AppState::list_box);
    let focused = is_focused(app, Focus::List);
    let spans = title(app, tab_label(app.tab), Some(subtitle(app)), focused);
    let sort = sort_label(app);
    let taken = spans_width(&spans);
    assert(spans@.len() * 0xFFFF_FFFF_FFFF_FFFF <= u64::MAX * 0xFFFF_FFFF_FFFF_FFFF)
        by (nonlinear_arith)
        requires
            spans@.len() <= u64::MAX,
    ;
    let room = taken <= area.width as u128 && width(&sort) as u128 + 4 <= area.width as u128
        - taken;
    let mut block = pane(app, spans, focused);
    if room {
        put(&mut block.titles, corner(app, &sort));
    }
    block
}

/// The list, its columns being as wide as `widths` says and the time being
/// `now`.
pub fn list_at(app: &App, area: Rect, widths: &Vec<u16>, now: i64) -> (out: Vec<Paint>)
    requires
        app.wf(),
        widths@.len() == columns_of(app.state().tab, area.inside().width).len(),
    ensures
        out.deep_view() == app.state().list(area, widths@, now as int),
{
    reveal(AppState::list);
    let mut out = no_paint();
    put(&mut out, paint_block(area, list_box(app, area)));
    let inner = area.inner();
    if inner.width == 0 || inner.height == 0 {
        return out;
    }
    if app.view().len() == 0 {
        put(&mut out, empty_state(app, inner));
        return out;
    }
    let table = table_at(app, inner.width, widths, now);
    put(&mut out, Paint { area: inner, widget: Widget::Table(table) });
    out
}

/// Draw the list. Whatever widths the layout settles on for its columns, that is
/// what the cells are cut to.
pub fn draw(app: &App, area: Rect, now: i64) -> (out: Vec<Paint>)
    requires
        app.wf(),
    ensures
        exists|widths: Seq<u16>|
            resolves(
                constraints_of(app.state().tab, area.inside().width),
                area.inside().width,
                SPACING,
                widths,
            ) && out.deep_view() == #[trigger] app.state().list(area, widths, now as int),
{
    let asked = constraints(app.tab, area.inner().width);
    let widths = column_widths(area.inner().width, &asked, SPACING);
    list_at(app, area, &widths, now)
}

// ---------------------------------------------------------------------------
// Where everything landed
// ---------------------------------------------------------------------------

/// Where the `n`th column starts.
pub open spec fn column_start(area: Rect, widths: Seq<u16>, n: int) -> u16
    decreases n,
{
    if n <= 0 {
        area.x
    } else {
        plus(column_start(area, widths, n - 1), plus(widths[n - 1], SPACING))
    }
}

/// The click targets of the first `n` column headers.
pub open spec fn header_targets(area: Rect, cols: Seq<ColView>, widths: Seq<u16>, n: int) -> Seq<
    (Rect, Sort),
>
    decreases n,
{
    if n <= 0 {
        Seq::empty()
    } else {
        let low = header_targets(area, cols, widths, n - 1);
        let x = column_start(area, widths, n - 1);
        match cols[n - 1].sort {
            Some(sort) => if x < area.right_edge() {
                low.push(
                    (
                        Rect {
                            x,
                            y: area.y,
                            width: least(widths[n - 1], (area.right_edge() - x) as u16),
                            height: 1,
                        },
                        sort,
                    ),
                )
            } else {
                low
            },
            None => low,
        }
    }
}

impl AppState {
    /// The state after a table was drawn in `area` with its viewport at
    /// `offset`. The header occupies the first row; the data rows follow, one
    /// per line, starting at the viewport offset.
    #[verifier::opaque]
    pub open spec fn table_recorded(
        self,
        area: Rect,
        cols: Seq<ColView>,
        widths: Seq<u16>,
        offset: usize,
    ) -> AppState {
        AppState {
            // Where the viewport ended up is remembered so it doesn't jump on
            // the next draw.
            offset: self.offset.with(self.tab, offset),
            hits: HitView {
                list_headers: self.hits.list_headers + header_targets(
                    area,
                    cols,
                    widths,
                    cols.len() as int,
                ),
                list_body: Some(rows_of(area, 1, minus(area.height, 1))),
                list_offset: offset,
                ..self.hits
            },
            ..self
        }
    }
}

fn targets(area: Rect, cols: &Vec<Col>, widths: &Vec<u16>) -> (out: Vec<(Rect, Sort)>)
    requires
        widths@.len() == cols@.len(),
    ensures
        out@ == header_targets(area, cols.deep_view(), widths@, cols@.len() as int),
{
    let mut out: Vec<(Rect, Sort)> = Vec::new();
    let mut x: u16 = area.x;
    let mut n: usize = 0;
    while n < cols.len()
        invariant
            n <= cols.len(),
            widths@.len() == cols@.len(),
            out@ == header_targets(area, cols.deep_view(), widths@, n as int),
            x == column_start(area, widths@, n as int),
        decreases cols.len() - n,
    {
        assert(cols.deep_view()[n as int] == cols@[n as int].deep_view());
        let w: u16 = widths[n];
        if let Some(sort) = cols[n].sort {
            let right: u16 = area.right();
            if x < right {
                out.push((Rect { x, y: area.y, width: min_cells(w, right - x), height: 1 }, sort));
            }
        }
        x = add_cells(x, add_cells(w, SPACING));
        n += 1;
    }
    out
}

fn put_hits(app: &mut App, headers: Vec<(Rect, Sort)>, body: Rect, offset: usize)
    ensures
        final(app).state() == (AppState {
            offset: old(app).state().offset.with(old(app).state().tab, offset),
            hits: HitView {
                list_headers: old(app).state().hits.list_headers + headers@,
                list_body: Some(body),
                list_offset: offset,
                ..old(app).state().hits
            },
            ..old(app).state()
        }),
{
    reveal(part);
    let mut headers = headers;
    let tab = app.tab;
    app.offset.set(tab, offset);
    app.hits.list_headers.append(&mut headers);
    app.hits.list_body = Some(body);
    app.hits.list_offset = offset;
}

/// Record where a table landed so the mouse can hit it, its columns being as
/// wide as `widths` says.
pub fn record_at(app: &mut App, area: Rect, cols: &Vec<Col>, widths: &Vec<u16>, offset: usize)
    requires
        old(app).wf(),
        widths@.len() == cols@.len(),
    ensures
        final(app).state() == old(app).state().table_recorded(
            area,
            cols.deep_view(),
            widths@,
            offset,
        ),
        final(app).wf(),
{
    reveal(AppState::table_recorded);
    let ghost v = app.state();
    let headers = targets(area, cols, widths);
    put_hits(app, headers, rows_from(area, 1, sub_cells(area.height, 1)), offset);
    proof {
        wf_carries_over(v, app.state());
    }
}

/// Record where a table landed so the mouse can hit it: `area` is where it was
/// drawn, and `offset` the first row that was in view.
pub fn record(
    app: &mut App,
    area: Rect,
    cols: &Vec<Col>,
    constraints: &Vec<Constraint>,
    offset: usize,
)
    requires
        old(app).wf(),
        constraints@.len() == cols@.len(),
    ensures
        exists|widths: Seq<u16>|
            resolves(constraints@, area.width, SPACING, widths) && final(app).state() == #[trigger] old(
                app,
            ).state().table_recorded(area, cols.deep_view(), widths, offset),
        final(app).wf(),
{
    let widths = column_widths(area.width, constraints, SPACING);
    record_at(app, area, cols, &widths, offset);
}

} // verus!
