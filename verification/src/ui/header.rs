//! The title bar: the tab strip, and a live summary of the daemon.

use vstd::prelude::*;

use crate::app::hits::HitView;
use crate::app::state::{part, running_in, wf_carries_over, App, AppState};
use crate::app::{tab_at, Tab};
use crate::geometry::{add_cells, cells_of, least, min_cells, plus, to_cells, Rect};
use crate::text::{cat2, cat3, cat5, dec, decimal, put};
use crate::ui::screen::{
    block_in, line, line_at, line_in, ln, ln_at, no_paint, no_spans, one, one_line, paint_block,
    paint_line, raw, sp, span, styled, unstyled, Alignment, BlockView, Paint, PaintView, Span,
    SpanView,
};
use crate::ui::theme::{colored, strong, Style};
use crate::ui::{bordered, plain_box};
use crate::util::format::{text_width, width};

verus! {

broadcast use vstd::string::group_string_axioms;

impl AppState {
    /// The right-hand status text: daemon version plus how many containers are
    /// up.
    pub open spec fn summary_text(self) -> Seq<char> {
        let version = if self.daemon.version.len() == 0 {
            "connecting"@ + self.symbols.ellipsis
        } else {
            "docker "@ + self.daemon.version
        };
        let total = self.containers.len();
        if total == 0 {
            version
        } else {
            version + "  "@ + self.symbols.bullet + "  "@ + (dec(
                running_in(self.containers, total as int),
            ) + "/"@ + dec(total) + " running"@)
        }
    }

    /// The icon of a tab.
    pub open spec fn tab_icon(self, tab: Tab) -> Seq<char> {
        match tab {
            Tab::Containers => self.symbols.tab_containers,
            Tab::Images => self.symbols.tab_images,
            Tab::Volumes => self.symbols.tab_volumes,
            Tab::Networks => self.symbols.tab_networks,
        }
    }

    /// How many resources a tab has, as the strip says it.
    pub open spec fn tab_count(self, tab: Tab) -> Seq<char> {
        " "@ + dec(self.count(tab))
    }

    /// A tab in the strip. Built by hand so the icon, label and count can each
    /// carry their own style.
    pub open spec fn tab_spans(self, tab: Tab) -> Seq<SpanView> {
        let active = tab == self.tab;
        let label = if active {
            strong(self.theme.primary)
        } else {
            colored(self.theme.subtle)
        };
        let marker = if active {
            self.symbols.arrow_right
        } else {
            " "@
        };
        let front = seq![raw(" "@), sp(marker, colored(self.theme.primary)), raw(" "@)];
        let iconed = if self.tab_icon(tab).len() > 0 {
            front.push(sp(self.tab_icon(tab), label))
        } else {
            front
        };
        iconed.push(sp(tab.title_text(), label)).push(
            sp(
                self.tab_count(tab),
                if active {
                    colored(self.theme.accent)
                } else {
                    self.theme.faintest()
                },
            ),
        ).push(raw("  "@))
    }

    /// The first `n` tabs of the strip.
    pub open spec fn strip(self, n: int) -> Seq<SpanView>
        decreases n,
    {
        if n <= 0 {
            Seq::empty()
        } else {
            self.strip(n - 1) + self.tab_spans(tab_at(n - 1))
        }
    }

    /// The cells of a tab, from the leading space through the trailing gap.
    pub open spec fn tab_cells(self, tab: Tab) -> u16 {
        cells_of(
            3 + text_width(self.tab_icon(tab)) + text_width(tab.title_text()) + text_width(
                self.tab_count(tab),
            ) + 2,
        )
    }

    /// Where the `n`th tab of a strip starts.
    pub open spec fn tab_start(self, inner: Rect, n: int) -> u16
        decreases n,
    {
        if n <= 0 {
            inner.x
        } else {
            plus(self.tab_start(inner, n - 1), self.tab_cells(tab_at(n - 1)))
        }
    }

    /// The click targets of the first `n` tabs. There are no dead cells between
    /// them.
    pub open spec fn tab_targets(self, inner: Rect, n: int) -> Seq<(Rect, Tab)>
        decreases n,
    {
        if n <= 0 {
            Seq::empty()
        } else {
            let low = self.tab_targets(inner, n - 1);
            let x = self.tab_start(inner, n - 1);
            if x < inner.right_edge() {
                low.push(
                    (
                        Rect {
                            x,
                            y: inner.y,
                            width: least(
                                self.tab_cells(tab_at(n - 1)),
                                (inner.right_edge() - x) as u16,
                            ),
                            height: inner.height,
                        },
                        tab_at(n - 1),
                    ),
                )
            } else {
                low
            }
        }
    }

    /// The title bar.
    #[verifier::opaque]
    pub open spec fn header(self, area: Rect) -> Seq<PaintView> {
        seq![
            block_in(
                area,
                BlockView {
                    border: colored(self.theme.border),
                    titles: seq![
                        ln_at(
                            seq![sp(" "@ + self.summary_text() + " "@, self.theme.dim_style())],
                            Alignment::Right,
                        ),
                    ],
                    ..plain_box(self.theme)
                },
            ),
            line_in(area.inside(), ln(self.strip(4))),
        ]
    }

    /// The state with the title bar's click targets recorded.
    #[verifier::opaque]
    pub open spec fn header_drawn(self, area: Rect) -> AppState {
        AppState {
            hits: HitView {
                tabs: self.hits.tabs + self.tab_targets(area.inside(), 4),
                ..self.hits
            },
            ..self
        }
    }
}

fn summary(app: &App) -> (out: String)
    ensures
        out@ == app.state().summary_text(),
{
    reveal(part);
    let running: usize = app.running_count();
    let total: usize = app.containers.len();
    let version = if app.daemon.version.as_str().is_empty() {
        cat2("connecting", app.symbols.ellipsis)
    } else {
        cat2("docker ", &app.daemon.version)
    };
    if total == 0 {
        version
    } else {
        let up = decimal(running as u64);
        let all = decimal(total as u64);
        let mut tail = cat3(&up, "/", &all);
        tail = cat2(&tail, " running");
        cat5(&version, "  ", app.symbols.bullet, "  ", &tail)
    }
}

fn icon_of(app: &App, tab: Tab) -> (out: &'static str)
    ensures
        out@ == app.state().tab_icon(tab),
{
    reveal(part);
    match tab {
        Tab::Containers => app.symbols.tab_containers,
        Tab::Images => app.symbols.tab_images,
        Tab::Volumes => app.symbols.tab_volumes,
        Tab::Networks => app.symbols.tab_networks,
    }
}

fn count_of(app: &App, tab: Tab) -> (out: String)
    ensures
        out@ == app.state().tab_count(tab),
{
    let count = decimal(app.count(tab) as u64);
    cat2(" ", &count)
}

fn push_tab(app: &App, tab: Tab, spans: &mut Vec<Span>)
    ensures
        final(spans).deep_view() == old(spans).deep_view() + app.state().tab_spans(tab),
{
    let ghost before = spans.deep_view();
    let theme = app.theme;
    let active = tab == app.tab;
    let label = if active {
        Style::default().fg(theme.primary).bold()
    } else {
        Style::default().fg(theme.subtle)
    };
    let marker = arrow(app, active);
    let icon = icon_of(app, tab);
    put(spans, unstyled(" "));
    put(spans, styled(marker, Style::default().fg(theme.primary)));
    put(spans, unstyled(" "));
    if !icon.is_empty() {
        put(spans, styled(icon, label));
    }
    put(spans, styled(tab.title(), label));
    put(
        spans,
        span(
            count_of(app, tab),
            if active {
                Style::default().fg(theme.accent)
            } else {
                theme.faint_style()
            },
        ),
    );
    put(spans, unstyled("  "));
    assert(spans.deep_view() =~= before + app.state().tab_spans(tab));
}

fn arrow(app: &App, active: bool) -> (out: &'static str)
    ensures
        out@ == (if active {
            app.state().symbols.arrow_right
        } else {
            " "@
        }),
{
    reveal(part);
    if active {
        app.symbols.arrow_right
    } else {
        " "
    }
}

fn cells_of_tab(app: &App, tab: Tab) -> (out: u16)
    ensures
        out == app.state().tab_cells(tab),
{
    let count = count_of(app, tab);
    to_cells(
        3 + width(icon_of(app, tab)) as u128 + width(tab.title()) as u128 + width(&count) as u128
            + 2,
    )
}

fn targets(app: &App, inner: Rect) -> (out: Vec<(Rect, Tab)>)
    ensures
        out@ == app.state().tab_targets(inner, 4),
{
    let mut out: Vec<(Rect, Tab)> = Vec::new();
    let mut x: u16 = inner.x;
    let mut n: usize = 0;
    while n < 4
        invariant
            n <= 4,
            out@ == app.state().tab_targets(inner, n as int),
            x == app.state().tab_start(inner, n as int),
        decreases 4 - n,
    {
        let tab = Tab::at(n);
        let cells: u16 = cells_of_tab(app, tab);
        let right: u16 = inner.right();
        if x < right {
            out.push(
                (
                    Rect {
                        x,
                        y: inner.y,
                        width: min_cells(cells, right - x),
                        height: inner.height,
                    },
                    tab,
                ),
            );
        }
        x = add_cells(x, cells);
        n += 1;
    }
    out
}

fn strip(app: &App) -> (out: Vec<Span>)
    ensures
        out.deep_view() == app.state().strip(4),
{
    let mut out = no_spans();
    let mut n: usize = 0;
    while n < 4
        invariant
            n <= 4,
            out.deep_view() == app.state().strip(n as int),
        decreases 4 - n,
    {
        push_tab(app, Tab::at(n), &mut out);
        n += 1;
    }
    out
}

fn record(app: &mut App, tabs: Vec<(Rect, Tab)>)
    ensures
        final(app).state() == (AppState {
            hits: HitView {
                tabs: old(app).state().hits.tabs + tabs@,
                ..old(app).state().hits
            },
            ..old(app).state()
        }),
{
    reveal(part);
    let mut tabs = tabs;
    app.hits.tabs.append(&mut tabs);
}

/// Draw the title bar.
pub fn draw(app: &mut App, area: Rect) -> (out: Vec<Paint>)
    requires
        old(app).wf(),
    ensures
        out.deep_view() == old(app).state().header(area),
        final(app).state() == old(app).state().header_drawn(area),
        final(app).wf(),
{
    reveal(AppState::header);
    reveal(AppState::header_drawn);
    let ghost v = app.state();
    let text = summary(app);
    let mut block = bordered(app);
    block.border = Style::default().fg(app.theme.border);
    block.titles = one_line(
        line_at(one(span(cat3(" ", &text, " "), app.theme.dim())), Alignment::Right),
    );
    let inner = area.inner();
    let mut out = no_paint();
    put(&mut out, paint_block(area, block));
    put(&mut out, paint_line(inner, line(strip(app))));
    let tabs = targets(app, inner);
    record(app, tabs);
    proof {
        wf_carries_over(v, app.state());
    }
    out
}

} // verus!
