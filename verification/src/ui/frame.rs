//! One frame: where the parts of the screen go, and what is drawn there.

use vstd::prelude::*;

use crate::app::hits::{nothing_drawn, HitView};
use crate::app::state::{part, wf_carries_over, App, AppState};
use crate::app::{
    fitted, Mode, Splitter, Tab, MIN_DETAIL_COLS, MIN_DETAIL_ROWS, MIN_LIST_COLS, MIN_LIST_ROWS,
    MIN_LOG_ROWS,
};
use crate::geometry::{minus, sub_cells, Rect};
use crate::text::{cat3, put};
use crate::ui::layout::{
    column_grip, column_widths, cut_in_four, cut_in_two, grab_column, grab_row, halves, quarters,
    resolves, row_grip,
};
use crate::ui::rows::{columns_of, constraints, constraints_of};
use crate::ui::screen::{
    line, line_in, ln, no_paint, one, one_line, paint_all, paint_line, sp, span, two, unstyled, Line,
    LineView, Paint, PaintView, Widget, WidgetView, Wrap,
};
use crate::ui::tables::{list_at, SPACING};
use crate::ui::theme::{plain, strong, Style};
use crate::ui::{cut, detail, footer, header, logs, overlay};
use crate::util::format::unix_now;

verus! {

broadcast use vstd::string::group_string_axioms;

/// Below this width the detail pane stacks under the list instead of beside it.
pub const NARROW: u16 = 96;

/// Below this width we stop drawing the detail pane at all: there's no room for
/// two panes and one of them would be unreadable.
pub const VERY_NARROW: u16 = 60;

/// Where the parts of the screen go.
#[derive(Debug, Clone, Copy, PartialEq, Eq)]
pub struct Places {
    pub header: Rect,
    /// Only where the daemon cannot be reached.
    pub banner: Option<Rect>,
    pub list: Rect,
    /// The detail pane, and whether it stands beside the list.
    pub detail: Option<(Rect, bool)>,
    pub logs: Option<Rect>,
    pub footer: Rect,
}

/// Whether a terminal is too small to show anything useful.
pub open spec fn too_small(area: Rect) -> bool {
    area.width < 30 || area.height < 8
}

impl AppState {
    /// How many rows the banner takes.
    pub open spec fn banner_rows(self) -> u16 {
        if self.daemon_error is Some {
            1
        } else {
            0
        }
    }

    /// Whether the log pane is drawn.
    pub open spec fn logs_shown(self) -> bool {
        self.tab == Tab::Containers && self.show_logs
    }

    /// The log pane's height, out of the body's.
    pub open spec fn log_rows_in(self, available: u16) -> u16 {
        fitted(
            self.log_rows,
            (available / 5 * 2) as u16,
            available,
            MIN_LOG_ROWS,
            MIN_LIST_ROWS,
        )
    }

    /// The detail pane's width, beside the list.
    pub open spec fn detail_cols_in(self, available: u16) -> u16 {
        fitted(
            self.detail_cols,
            (available * 38 / 100) as u16,
            available,
            MIN_DETAIL_COLS,
            MIN_LIST_COLS,
        )
    }

    /// The detail pane's height, below the list.
    pub open spec fn detail_rows_in(self, available: u16) -> u16 {
        fitted(
            self.detail_rows,
            (available * 45 / 100) as u16,
            available,
            MIN_DETAIL_ROWS,
            MIN_LIST_ROWS,
        )
    }

    /// Where the list and the detail pane go together, and the log pane. The
    /// log pane gets a generous share but never squeezes the list below a
    /// handful of rows.
    pub open spec fn storeys(self, body: Rect) -> (Rect, Option<Rect>) {
        if self.logs_shown() {
            let (top, logs) = halves(body, true, 4, self.log_rows_in(body.height));
            (top, Some(logs))
        } else {
            (body, None)
        }
    }

    /// The state with the log pane's dragged height cut to what the body can
    /// show.
    #[verifier::opaque]
    pub open spec fn logs_sized(self, body: Rect) -> AppState {
        AppState {
            log_rows: if self.logs_shown() && self.log_rows is Some {
                Some(self.log_rows_in(body.height))
            } else {
                self.log_rows
            },
            ..self
        }
    }

    /// Whether there is room for the detail pane.
    pub open spec fn detail_shown(self, body: Rect) -> bool {
        self.show_detail && body.width >= VERY_NARROW
    }

    /// Where the list goes, and the detail pane if it is `shown`.
    #[verifier::opaque]
    pub open spec fn list_and_detail(self, shown: bool, top: Rect) -> (Rect, Option<(Rect, bool)>) {
        if !shown {
            (top, None)
        } else if top.width >= NARROW {
            let (list, detail) = halves(top, false, 40, self.detail_cols_in(top.width));
            (list, Some((detail, true)))
        } else {
            let (list, detail) = halves(top, true, 4, self.detail_rows_in(top.height));
            (list, Some((detail, false)))
        }
    }

    /// The state with the detail pane's dragged size cut to what `top` can
    /// show.
    #[verifier::opaque]
    pub open spec fn detail_sized(self, shown: bool, top: Rect) -> AppState {
        AppState {
            detail_cols: if shown && top.width >= NARROW && self.detail_cols is Some {
                Some(self.detail_cols_in(top.width))
            } else {
                self.detail_cols
            },
            detail_rows: if shown && top.width < NARROW && self.detail_rows is Some {
                Some(self.detail_rows_in(top.height))
            } else {
                self.detail_rows
            },
            ..self
        }
    }

    /// Where everything goes.
    pub open spec fn places(self, area: Rect) -> Places {
        let (header, banner, body, footer) = quarters(area, self.banner_rows());
        let (top, logs) = self.storeys(body);
        let (list, detail) = self.logs_sized(body).list_and_detail(self.detail_shown(body), top);
        Places {
            header,
            banner: if self.daemon_error is Some {
                Some(banner)
            } else {
                None
            },
            list,
            detail,
            logs,
            footer,
        }
    }

    /// The state with the dragged sizes cut to what the terminal can show.
    pub open spec fn placed(self, area: Rect) -> AppState {
        let body = quarters(area, self.banner_rows()).2;
        self.logs_sized(body).detail_sized(self.detail_shown(body), self.storeys(body).0)
    }
}

fn daemon_down(app: &App) -> (out: bool)
    ensures
        out == (app.state().daemon_error is Some),
{
    reveal(part);
    app.daemon_error.is_some()
}

fn place_logs(app: &mut App, body: Rect) -> (out: (Rect, Option<Rect>))
    requires
        old(app).wf(),
        body.on_screen(),
    ensures
        out == old(app).state().storeys(body),
        final(app).state() == old(app).state().logs_sized(body),
        final(app).wf(),
{
    reveal(AppState::logs_sized);
    let ghost v = app.state();
    if app.tab == Tab::Containers && app.show_logs {
        let rows: u16 = app.log_height(body.height);
        proof {
            wf_carries_over(v, app.state());
        }
        let (top, logs) = cut_in_two(body, true, 4, rows);
        (top, Some(logs))
    } else {
        (body, None)
    }
}

fn place_detail(app: &mut App, shown: bool, top: Rect) -> (out: (Rect, Option<(Rect, bool)>))
    requires
        old(app).wf(),
        top.on_screen(),
    ensures
        out == old(app).state().list_and_detail(shown, top),
        final(app).state() == old(app).state().detail_sized(shown, top),
        final(app).wf(),
{
    reveal(AppState::list_and_detail);
    reveal(AppState::detail_sized);
    let ghost v = app.state();
    if !shown {
        (top, None)
    } else if top.width >= NARROW {
        let cols: u16 = app.detail_width(top.width);
        proof {
            wf_carries_over(v, app.state());
        }
        let (list, detail) = cut_in_two(top, false, 40, cols);
        (list, Some((detail, true)))
    } else {
        let rows: u16 = app.detail_height(top.height);
        proof {
            wf_carries_over(v, app.state());
        }
        let (list, detail) = cut_in_two(top, true, 4, rows);
        (list, Some((detail, false)))
    }
}

/// Say where everything goes, and cut the sizes that were dragged to what the
/// terminal can show.
pub fn place(app: &mut App, area: Rect) -> (out: Places)
    requires
        old(app).wf(),
        area.on_screen(),
        !too_small(area),
    ensures
        out == old(app).state().places(area),
        final(app).state() == old(app).state().placed(area),
        final(app).wf(),
{
    let down = daemon_down(app);
    let rows: u16 = if down {
        1
    } else {
        0
    };
    let (header, banner, body, footer) = cut_in_four(area, rows);
    let shown = app.show_detail && body.width >= VERY_NARROW;
    let (top, logs) = place_logs(app, body);
    let (list, detail) = place_detail(app, shown, top);
    Places {
        header,
        banner: if down {
            Some(banner)
        } else {
            None
        },
        list,
        detail,
        logs,
        footer,
    }
}

// ---------------------------------------------------------------------------
// Drawing
// ---------------------------------------------------------------------------

impl AppState {
    /// What the banner says.
    pub open spec fn banner(self, width: u16) -> LineView {
        ln(
            seq![
                sp(" "@ + self.symbols.unhealthy + " docker unreachable "@, strong(self.theme.danger)),
                sp(
                    self.cut(
                        match self.daemon_error {
                            Some(text) => text,
                            None => Seq::empty(),
                        },
                        minus(width, 24) as nat,
                    ),
                    self.theme.dim_style(),
                ),
            ],
        )
    }

    /// The header and the banner.
    pub open spec fn head_paints(self, places: Places) -> Seq<PaintView> {
        self.header(places.header) + (match places.banner {
            Some(area) => seq![line_in(area, self.banner(area.width))],
            None => Seq::empty(),
        })
    }

    /// The state with the detail pane recorded.
    pub open spec fn detail_noted(self, places: Places) -> AppState {
        match places.detail {
            None => self,
            Some((area, beside)) => AppState {
                hits: HitView {
                    detail: Some(area),
                    splitters: self.hits.splitters.push(
                        if beside {
                            (column_grip(area), Splitter::DetailSide)
                        } else {
                            (row_grip(area), Splitter::DetailBelow)
                        },
                    ),
                    ..self.hits
                },
                ..self
            },
        }
    }

    /// The state with the log pane recorded.
    pub open spec fn logs_noted(self, places: Places) -> AppState {
        match places.logs {
            None => self,
            Some(area) => AppState {
                hits: HitView {
                    logs: Some(area),
                    splitters: self.hits.splitters.push((row_grip(area), Splitter::Logs)),
                    ..self.hits
                },
                ..self
            },
        }
    }

    /// The panes.
    pub open spec fn body_paints(self, places: Places, widths: Seq<u16>, now: int, cpu: Seq<char>) -> Seq<
        PaintView,
    > {
        self.list(places.list, widths, now) + (match places.detail {
            Some((area, _)) => self.detail(area, now, cpu),
            None => Seq::empty(),
        }) + (match places.logs {
            Some(area) => self.log_pane(area),
            None => Seq::empty(),
        })
    }

    /// What lies over everything else.
    #[verifier::opaque]
    pub open spec fn overlaid(self, area: Rect) -> Seq<PaintView> {
        match self.mode {
            Mode::Help => self.help_overlay(area),
            Mode::Palette => self.palette_overlay(area),
            Mode::Confirm => match self.confirm {
                Some(job) => self.confirm_overlay(job, area),
                None => Seq::empty(),
            },
            Mode::Filter | Mode::Normal => Seq::empty(),
        }
    }

    /// The state with what lies over everything else recorded.
    #[verifier::opaque]
    pub open spec fn overlay_drawn(self, area: Rect) -> AppState {
        match self.mode {
            Mode::Help => self.modal_drawn(self.help_area(area)),
            Mode::Palette => self.palette_drawn(area),
            Mode::Confirm => self.confirm_drawn(area),
            Mode::Filter | Mode::Normal => self,
        }
    }

    /// The state with the panes recorded.
    #[verifier::opaque]
    pub open spec fn panes_drawn(self, places: Places) -> AppState {
        self.header_drawn(places.header).detail_noted(places).logs_noted(places)
    }

    /// The state with everything recorded.
    pub open spec fn frame_drawn(self, area: Rect, places: Places) -> AppState {
        self.panes_drawn(places).overlay_drawn(area).toasts_drawn(area)
    }

    /// Everything but what lies over it.
    #[verifier::opaque]
    pub open spec fn panes(self, places: Places, widths: Seq<u16>, now: int, cpu: Seq<char>) -> Seq<
        PaintView,
    > {
        let behind = self.header_drawn(places.header);
        self.head_paints(places) + behind.body_paints(places, widths, now, cpu) + behind.footer(
            places.footer,
        )
    }

    /// Everything, in the order in which it is painted.
    pub open spec fn frame(
        self,
        area: Rect,
        places: Places,
        widths: Seq<u16>,
        now: int,
        cpu: Seq<char>,
    ) -> Seq<PaintView> {
        let behind = self.panes_drawn(places);
        self.panes(places, widths, now, cpu) + behind.overlaid(area) + behind.overlay_drawn(
            area,
        ).toast_overlay(area)
    }

    /// What a terminal that is too small shows.
    pub open spec fn too_small_notice(self, area: Rect) -> Seq<PaintView> {
        seq![
            PaintView {
                area,
                widget: WidgetView::Text {
                    lines: seq![ln(seq![sp("terminal too small"@, plain())])],
                    wrap: Wrap::Cut,
                    style: self.theme.dim_style(),
                },
            },
        ]
    }

    /// The state with nothing recorded.
    #[verifier::opaque]
    pub open spec fn wiped(self) -> AppState {
        AppState { hits: nothing_drawn(), ..self }
    }
}

fn trouble(app: &App) -> (out: &str)
    ensures
        out@ == match app.state().daemon_error {
            Some(text) => text,
            None => Seq::<char>::empty(),
        },
{
    reveal(part);
    match &app.daemon_error {
        Some(text) => text.as_str(),
        None => {
            proof {
                reveal_strlit("");
                assert(""@ =~= Seq::<char>::empty());
            }
            ""
        },
    }
}

fn banner(app: &App, width: u16) -> (out: Line)
    ensures
        out.deep_view() == app.state().banner(width),
{
    reveal(part);
    let ghost expected = app.state().banner(width).spans;
    let head = cat3(" ", app.symbols.unhealthy, " docker unreachable ");
    let text = cut(app, trouble(app), sub_cells(width, 24) as usize);
    let spans = two(
        span(head, Style::default().fg(app.theme.danger).bold()),
        span(text, app.theme.dim()),
    );
    assert(spans.deep_view() =~= expected);
    line(spans)
}

fn note_detail(app: &mut App, places: &Places)
    requires
        old(app).wf(),
    ensures
        final(app).state() == old(app).state().detail_noted(*places),
        final(app).wf(),
{
    reveal(part);
    let ghost v = app.state();
    if let Some((area, beside)) = places.detail {
        app.hits.detail = Some(area);
        app.hits.splitters.push(
            if beside {
                (grab_column(area), Splitter::DetailSide)
            } else {
                (grab_row(area), Splitter::DetailBelow)
            },
        );
        proof {
            wf_carries_over(v, app.state());
        }
    }
}

fn note_logs(app: &mut App, places: &Places)
    requires
        old(app).wf(),
    ensures
        final(app).state() == old(app).state().logs_noted(*places),
        final(app).wf(),
{
    reveal(part);
    let ghost v = app.state();
    if let Some(area) = places.logs {
        app.hits.logs = Some(area);
        app.hits.splitters.push((grab_row(area), Splitter::Logs));
        proof {
            wf_carries_over(v, app.state());
        }
    }
}

fn draw_body(app: &App, places: &Places, widths: &Vec<u16>, now: i64, cpu: &str) -> (out: Vec<Paint>)
    requires
        app.wf(),
        widths@.len() == columns_of(app.state().tab, places.list.inside().width).len(),
    ensures
        out.deep_view() == app.state().body_paints(*places, widths@, now as int, cpu@),
{
    let mut out = list_at(app, places.list, widths, now);
    let ghost listed = out.deep_view();
    if let Some((area, _)) = places.detail {
        paint_all(&mut out, detail::draw(app, area, now, cpu));
    }
    let ghost detailed = out.deep_view();
    if let Some(area) = places.logs {
        paint_all(&mut out, logs::draw(app, area));
    }
    assert(listed + Seq::<PaintView>::empty() =~= listed);
    assert(detailed + Seq::<PaintView>::empty() =~= detailed);
    out
}

fn draw_panes(app: &mut App, places: &Places, widths: &Vec<u16>, now: i64, cpu: &str) -> (out: Vec<
    Paint,
>)
    requires
        old(app).wf(),
        widths@.len() == columns_of(old(app).state().tab, places.list.inside().width).len(),
    ensures
        out.deep_view() == old(app).state().panes(*places, widths@, now as int, cpu@),
        final(app).state() == old(app).state().panes_drawn(*places),
        final(app).wf(),
{
    reveal(AppState::panes);
    reveal(AppState::panes_drawn);
    reveal(AppState::header_drawn);
    let ghost v = app.state();
    let mut out = no_paint();
    if let Some(area) = places.banner {
        put(&mut out, paint_line(area, banner(app, area.width)));
    }
    let mut all = header::draw(app, places.header);
    paint_all(&mut all, out);
    assert(all.deep_view() =~= v.head_paints(*places));
    let body = draw_body(app, places, widths, now, cpu);
    paint_all(&mut all, body);
    let foot = footer::draw(app, places.footer);
    paint_all(&mut all, foot);
    note_detail(app, places);
    note_logs(app, places);
    all
}

fn draw_overlay(app: &mut App, area: Rect) -> (out: Vec<Paint>)
    requires
        old(app).wf(),
    ensures
        out.deep_view() == old(app).state().overlaid(area),
        final(app).state() == old(app).state().overlay_drawn(area),
        final(app).wf(),
{
    reveal(AppState::overlaid);
    reveal(AppState::overlay_drawn);
    match app.mode {
        Mode::Help => overlay::help(app, area),
        Mode::Palette => overlay::palette(app, area),
        Mode::Confirm => overlay::confirm(app, area),
        Mode::Filter | Mode::Normal => no_paint(),
    }
}

/// Draw everything where it goes. `widths` are the widths of the table's
/// columns, `now` the time in seconds, and `cpu` the processor share that the
/// selected stack's containers use together.
pub fn draw_at(
    app: &mut App,
    area: Rect,
    places: &Places,
    widths: &Vec<u16>,
    now: i64,
    cpu: &str,
) -> (out: Vec<Paint>)
    requires
        old(app).wf(),
        widths@.len() == columns_of(old(app).state().tab, places.list.inside().width).len(),
    ensures
        out.deep_view() == old(app).state().frame(area, *places, widths@, now as int, cpu@),
        final(app).state() == old(app).state().frame_drawn(area, *places),
        final(app).wf(),
{
    let mut out = draw_panes(app, places, widths, now, cpu);
    let over = draw_overlay(app, area);
    paint_all(&mut out, over);
    let notes = overlay::toasts(app, area);
    paint_all(&mut out, notes);
    out
}

fn wipe(app: &mut App)
    requires
        old(app).wf(),
    ensures
        final(app).state() == old(app).state().wiped(),
        final(app).wf(),
{
    reveal(AppState::wiped);
    let ghost v = app.state();
    app.reset_hits();
    proof {
        wf_carries_over(v, app.state());
    }
}

fn notice(app: &App, area: Rect) -> (out: Vec<Paint>)
    ensures
        out.deep_view() == app.state().too_small_notice(area),
{
    let mut out = no_paint();
    put(
        &mut out,
        Paint {
            area,
            widget: Widget::Text {
                lines: one_line(line(one(unstyled("terminal too small")))),
                wrap: Wrap::Cut,
                style: app.theme.dim(),
            },
        },
    );
    out
}

/// Draw one frame. Hit regions are rebuilt by this pass; anything left from the
/// last frame describes a layout that no longer exists. A terminal too small
/// can't show anything useful; say so rather than drawing panes with no room in
/// them.
pub fn draw(app: &mut App, area: Rect, cpu: &str) -> (out: Vec<Paint>)
    requires
        old(app).wf(),
        area.on_screen(),
    ensures
        too_small(area) ==> out.deep_view() == old(app).state().wiped().too_small_notice(area)
            && final(app).state() == old(app).state().wiped(),
        !too_small(area) ==> ({
            let v = old(app).state().wiped();
            let places = v.places(area);
            &&& final(app).state() == v.placed(area).frame_drawn(area, places)
            &&& exists|widths: Seq<u16>, now: i64|
                resolves(
                    constraints_of(v.tab, places.list.inside().width),
                    places.list.inside().width,
                    SPACING,
                    widths,
                ) && out.deep_view() == #[trigger] v.placed(area).frame(
                    area,
                    places,
                    widths,
                    now as int,
                    cpu@,
                )
        }),
        final(app).wf(),
{
    wipe(app);
    if area.width < 30 || area.height < 8 {
        return notice(app, area);
    }
    let ghost v = app.state();
    let places = place(app, area);
    assert(app.state().tab == v.tab) by {
        reveal(AppState::logs_sized);
        reveal(AppState::detail_sized);
    }
    assert(v.tab == old(app).state().tab) by {
        reveal(AppState::wiped);
    }
    let now = unix_now();
    let room: u16 = places.list.inner().width;
    let asked = constraints(app.tab, room);
    let widths = column_widths(room, &asked, SPACING);
    draw_at(app, area, &places, &widths, now, cpu)
}

} // verus!
