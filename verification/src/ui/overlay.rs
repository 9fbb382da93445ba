//! Modal surfaces: help, command palette, confirmation, and toasts.

use vstd::prelude::*;

use crate::action::{
    command_at, command_table, help_of, keys_of, name_of, scope_of, Command, Key, Scope,
    COMMAND_COUNT,
};
use crate::app::hits::HitView;
use crate::app::palette::palette_for;
use crate::app::state::{part, wf_carries_over, App, AppState};
use crate::app::{ToastKind, ToastView};
use crate::docker::actions::{prompt_of, JobView};
use crate::docker::model::DaemonView;
use crate::geometry::{
    add_cells, cells_of, least, min_cells, minus, plus, sub_cells, to_cells, Rect,
};
use crate::text::{cat2, cat3, cat4, cat5, join, joined, owned, pad_right, padded_right, put};
use crate::ui::layout::{centered, middle, rows_from, rows_of};
use crate::ui::footer::key_of;
use crate::ui::screen::{
    blank_line, block_in, gap, line, line_in, ln, no_lines, no_paint, one, one_line,
    paint_block, paint_line, paint_lines, raw, sp, span, styled, text_in, three, two, unstyled,
    Block, BlockView, Line, LineView, Paint, PaintView, Widget, WidgetView, Wrap,
};
use crate::ui::theme::{colored, filled, plain, strong, Color, Style, Theme};
use crate::ui::{bordered, cut, key_label, key_name, plain_box};
use crate::util::format::{text_width, width};

verus! {

broadcast use vstd::string::group_string_axioms;

/// Nothing, over whatever is there.
pub open spec fn cleared(area: Rect) -> PaintView {
    PaintView { area, widget: WidgetView::Clear }
}

fn clear(area: Rect) -> (out: Paint)
    ensures
        out.deep_view() == cleared(area),
{
    Paint { area, widget: Widget::Clear }
}

/// A box that stands in front of everything.
pub open spec fn dialog(theme: Theme, title: Seq<char>, border: Color, caption: Color) -> BlockView {
    BlockView {
        border: colored(border),
        fill: filled(theme.surface),
        titles: seq![ln(seq![raw(" "@), sp(title, strong(caption)), raw(" "@)])],
        ..plain_box(theme)
    }
}

fn dialog_box(app: &App, title: &str, border: Color, caption: Color) -> (out: Block)
    ensures
        out.deep_view() == dialog(app.state().theme, title@, border, caption),
{
    let mut block = bordered(app);
    block.border = Style::default().fg(border);
    block.fill = Style::default().bg(app.theme.surface);
    block.titles = one_line(
        line(
            three(unstyled(" "), styled(title, Style::default().fg(caption).bold()), unstyled(" ")),
        ),
    );
    block
}

/// Modal chrome: whatever is underneath cleared, and a bordered box.
pub open spec fn chrome(theme: Theme, area: Rect, title: Seq<char>) -> Seq<PaintView> {
    seq![
        cleared(area),
        block_in(area, dialog(theme, title, theme.border_focus, theme.primary)),
    ]
}

fn modal(app: &App, area: Rect, title: &str) -> (out: Vec<Paint>)
    ensures
        out.deep_view() == chrome(app.state().theme, area, title@),
{
    let mut out = no_paint();
    put(&mut out, clear(area));
    put(
        &mut out,
        paint_block(area, dialog_box(app, title, app.theme.border_focus, app.theme.primary)),
    );
    out
}

fn note_modal(app: &mut App, area: Rect)
    ensures
        final(app).state() == (AppState {
            hits: HitView { modal: Some(area), ..old(app).state().hits },
            ..old(app).state()
        }),
{
    reveal(part);
    app.hits.modal = Some(area);
}

// ---------------------------------------------------------------------------
// Help
// ---------------------------------------------------------------------------

/// What the daemon is, as far as it said, `dot` standing between the parts.
pub open spec fn daemon_text(d: DaemonView, dot: Seq<char>) -> Seq<char> {
    if d.version.len() == 0 {
        Seq::empty()
    } else {
        let versioned = "docker "@ + d.version;
        let spoken = if d.api_version.len() > 0 {
            versioned + " "@ + dot + " api "@ + d.api_version
        } else {
            versioned
        };
        if d.os.len() > 0 && d.arch.len() > 0 {
            spoken + " "@ + dot + " "@ + d.os + "/"@ + d.arch
        } else {
            spoken
        }
    }
}

/// Where a command means something.
pub open spec fn scope_text(scope: Scope) -> Seq<char> {
    match scope {
        Scope::Global => ""@,
        Scope::Containers => "containers"@,
        Scope::Removable => "any tab"@,
    }
}

impl AppState {
    /// Every key of a command.
    pub open spec fn keys_text(self, command: Command) -> Seq<char> {
        join(
            keys_of(command).map_values(|k: Key| key_name(self.theme.glyphs, k)),
            " / "@,
        )
    }

    /// A command's line in the help.
    pub open spec fn help_line(self, command: Command) -> LineView {
        ln(
            seq![
                sp("  "@ + pad_right(self.keys_text(command), 12), self.theme.keycap()),
                sp(pad_right(name_of(command), 28), colored(self.theme.text)),
                sp(scope_text(scope_of(command)), self.theme.faintest()),
            ],
        )
    }

    /// The help's lines.
    pub open spec fn help_lines(self) -> Seq<LineView> {
        Seq::new(COMMAND_COUNT as nat, |i: int| self.help_line(command_table()[i]))
    }

    /// Where the help goes.
    pub open spec fn help_area(self, area: Rect) -> Rect {
        middle(
            area,
            least(74, area.width),
            least((COMMAND_COUNT + 4) as u16, minus(area.height, 2)),
        )
    }

    /// The help. Its bottom line doubles as an about box — this is the only
    /// place the daemon's platform details are worth the space.
    #[verifier::opaque]
    pub open spec fn help_overlay(self, area: Rect) -> Seq<PaintView> {
        let rect = self.help_area(area);
        let inner = rect.inside();
        chrome(self.theme, rect, "keybindings"@) + seq![
            text_in(inner, self.help_lines()),
            line_in(
                rows_of(inner, minus(inner.height, 1), 1),
                ln(
                    seq![
                        sp("  any key to close"@, self.theme.faintest()),
                        sp(
                            "      "@ + daemon_text(self.daemon, self.symbols.bullet),
                            self.theme.faintest(),
                        ),
                    ],
                ),
            ),
        ]
    }

    /// The state with a modal box recorded.
    #[verifier::opaque]
    pub open spec fn modal_drawn(self, rect: Rect) -> AppState {
        AppState { hits: HitView { modal: Some(rect), ..self.hits }, ..self }
    }
}

fn daemon_line(app: &App) -> (out: String)
    ensures
        out@ == daemon_text(app.state().daemon, app.state().symbols.bullet),
{
    reveal(part);
    let d = &app.daemon;
    if d.version.as_str().is_empty() {
        let out = String::new();
        assert(out@ =~= Seq::<char>::empty());
        return out;
    }
    let mut s = cat2("docker ", &d.version);
    if !d.api_version.as_str().is_empty() {
        s = cat5(&s, " ", app.symbols.bullet, " api ", &d.api_version);
    }
    if !d.os.as_str().is_empty() && !d.arch.as_str().is_empty() {
        s = cat4(&s, " ", app.symbols.bullet, " ");
        s = cat4(&s, &d.os, "/", &d.arch);
    }
    s
}

fn scope_label(scope: Scope) -> (out: &'static str)
    ensures
        out@ == scope_text(scope),
{
    match scope {
        Scope::Global => "",
        Scope::Containers => "containers",
        Scope::Removable => "any tab",
    }
}

fn keys_text(app: &App, command: Command) -> (out: String)
    ensures
        out@ == app.state().keys_text(command),
{
    let keys = command.keys();
    let ghost glyphs = app.state().theme.glyphs;
    let ghost whole = keys_of(command).map_values(|k: Key| key_name(glyphs, k));
    let mut texts: Vec<String> = Vec::new();
    let mut i: usize = 0;
    assert(texts.deep_view() =~= whole.take(0));
    while i < keys.len()
        invariant
            i <= keys.len(),
            keys@ == keys_of(command),
            glyphs == app.state().theme.glyphs,
            whole == keys_of(command).map_values(|k: Key| key_name(glyphs, k)),
            texts.deep_view() == whole.take(i as int),
        decreases keys.len() - i,
    {
        put(&mut texts, key_label(app, &keys[i]));
        assert(whole.take(i + 1) =~= whole.take(i as int).push(whole[i as int]));
        i += 1;
    }
    assert(whole.take(whole.len() as int) =~= whole);
    assert(whole =~= keys_of(command).map_values(|k: Key| key_name(app.state().theme.glyphs, k)));
    joined(&texts, " / ")
}

fn help_line(app: &App, command: Command) -> (out: Line)
    ensures
        out.deep_view() == app.state().help_line(command),
{
    let keys = keys_text(app, command);
    let keys = padded_right(&keys, 12);
    line(
        three(
            span(cat2("  ", &keys), app.theme.key_style()),
            span(padded_right(command.name(), 28), app.theme.base()),
            styled(scope_label(command.scope()), app.theme.faint_style()),
        ),
    )
}

fn help_lines(app: &App) -> (out: Vec<Line>)
    ensures
        out.deep_view() == app.state().help_lines(),
{
    let ghost whole = app.state().help_lines();
    let mut out = no_lines();
    let mut i: usize = 0;
    assert(out.deep_view() =~= whole.take(0));
    while i < COMMAND_COUNT
        invariant
            i <= COMMAND_COUNT,
            whole == app.state().help_lines(),
            out.deep_view() == whole.take(i as int),
        decreases COMMAND_COUNT - i,
    {
        put(&mut out, help_line(app, command_at(i)));
        assert(whole.take(i + 1) =~= whole.take(i as int).push(whole[i as int]));
        i += 1;
    }
    assert(whole.take(whole.len() as int) =~= whole);
    out
}

fn place_modal(app: &mut App, rect: Rect)
    requires
        old(app).wf(),
    ensures
        final(app).state() == old(app).state().modal_drawn(rect),
        final(app).wf(),
{
    reveal(AppState::modal_drawn);
    let ghost v = app.state();
    note_modal(app, rect);
    proof {
        wf_carries_over(v, app.state());
    }
}

/// Draw the help.
pub fn help(app: &mut App, area: Rect) -> (out: Vec<Paint>)
    requires
        old(app).wf(),
    ensures
        out.deep_view() == old(app).state().help_overlay(area),
        final(app).state() == old(app).state().modal_drawn(old(app).state().help_area(area)),
        final(app).wf(),
{
    reveal(AppState::help_overlay);
    let height: u16 = min_cells(COMMAND_COUNT as u16 + 4, sub_cells(area.height, 2));
    let rect = centered(area, min_cells(74, area.width), height);
    let inner = rect.inner();
    let mut out = modal(app, rect, "keybindings");
    put(&mut out, paint_lines(inner, help_lines(app)));
    let about = daemon_line(app);
    put(
        &mut out,
        paint_line(
            rows_from(inner, sub_cells(inner.height, 1), 1),
            line(
                two(
                    styled("  any key to close", app.theme.faint_style()),
                    span(cat2("      ", &about), app.theme.faint_style()),
                ),
            ),
        ),
    );
    assert(out.deep_view() =~= app.state().help_overlay(area));
    place_modal(app, rect);
    out
}

// ---------------------------------------------------------------------------
// Command palette
// ---------------------------------------------------------------------------

impl AppState {
    /// The lines of the command table that the palette lists.
    pub open spec fn palette_matching(self) -> Seq<usize> {
        palette_for(self.palette_input.value)
    }

    /// Where the palette goes.
    pub open spec fn palette_area(self, area: Rect) -> Rect {
        let len = self.palette_matching().len();
        let visible = if len < 12 {
            len
        } else {
            12
        };
        middle(area, least(80, area.width), least((visible + 4) as u16, minus(area.height, 2)))
    }

    /// The palette's prompt.
    pub open spec fn palette_prompt(self) -> LineView {
        ln(
            seq![
                sp(" "@ + self.symbols.prompt + " "@, strong(self.theme.accent)),
                sp(self.palette_input.value, colored(self.theme.text)),
                sp(self.symbols.caret, colored(self.theme.accent)),
            ],
        )
    }

    /// The first entry in view: the cursor is kept in view when the list is
    /// longer than the box.
    pub open spec fn palette_start(self, height: u16) -> int {
        if self.palette_cursor >= height {
            self.palette_cursor - (height - 1)
        } else {
            0
        }
    }

    /// How many entries are in view.
    pub open spec fn palette_shown(self, height: u16) -> nat {
        let rest = self.palette_matching().len() - self.palette_start(height);
        if rest <= 0 {
            0
        } else if rest > height {
            height as nat
        } else {
            rest as nat
        }
    }

    /// An entry of the palette.
    pub open spec fn palette_entry(self, position: int, width: u16) -> LineView {
        let command = command_table()[self.palette_matching()[position] as int];
        let selected = position == self.palette_cursor;
        LineView {
            style: if selected {
                filled(self.theme.selection)
            } else {
                plain()
            },
            ..ln(
                seq![
                    sp(
                        if selected {
                            " "@ + self.symbols.arrow_right + " "@
                        } else {
                            "   "@
                        },
                        colored(self.theme.accent),
                    ),
                    sp(
                        pad_right(name_of(command), 28),
                        if selected {
                            strong(self.theme.selection_text)
                        } else {
                            colored(self.theme.text)
                        },
                    ),
                    sp(pad_right(self.key_shown(command), 8), self.theme.keycap()),
                    sp(
                        self.cut(help_of(command), minus(width, 42) as nat),
                        self.theme.faintest(),
                    ),
                ],
            )
        }
    }

    /// The entries in view.
    pub open spec fn palette_entries(self, list: Rect) -> Seq<LineView> {
        Seq::new(
            self.palette_shown(list.height),
            |j: int| self.palette_entry(self.palette_start(list.height) + j, list.width),
        )
    }

    /// Where the entries in view are, so they can be clicked.
    pub open spec fn palette_targets(self, list: Rect) -> Seq<(Rect, usize)> {
        Seq::new(
            self.palette_shown(list.height),
            |j: int|
                (
                    rows_of(list, j as u16, 1),
                    self.palette_matching()[self.palette_start(list.height) + j],
                ),
        )
    }

    /// Where the palette's list goes.
    pub open spec fn palette_list(self, area: Rect) -> Rect {
        let inner = self.palette_area(area).inside();
        rows_of(inner, 2, minus(inner.height, 2))
    }

    /// The palette.
    #[verifier::opaque]
    pub open spec fn palette_overlay(self, area: Rect) -> Seq<PaintView> {
        let rect = self.palette_area(area);
        let inner = rect.inside();
        let list = self.palette_list(area);
        let framed = chrome(self.theme, rect, "commands"@);
        if inner.height == 0 {
            framed
        } else {
            let prompted = framed.push(line_in(rows_of(inner, 0, 1), self.palette_prompt()));
            if list.height == 0 {
                prompted
            } else {
                prompted.push(text_in(list, self.palette_entries(list)))
            }
        }
    }

    /// The state with the palette's click targets recorded.
    #[verifier::opaque]
    pub open spec fn palette_drawn(self, area: Rect) -> AppState {
        let boxed = self.modal_drawn(self.palette_area(area));
        if self.palette_list(area).height == 0 {
            boxed
        } else {
            AppState {
                hits: HitView {
                    palette_rows: self.palette_targets(self.palette_list(area)),
                    ..boxed.hits
                },
                ..boxed
            }
        }
    }
}

fn palette_prompt(app: &App) -> (out: Line)
    ensures
        out.deep_view() == app.state().palette_prompt(),
{
    reveal(part);
    line(
        three(
            span(
                cat3(" ", app.symbols.prompt, " "),
                Style::default().fg(app.theme.accent).bold(),
            ),
            styled(&app.palette_input.value, app.theme.base()),
            styled(app.symbols.caret, Style::default().fg(app.theme.accent)),
        ),
    )
}

fn pointer(app: &App, selected: bool) -> (out: String)
    ensures
        out@ == (if selected {
            " "@ + app.state().symbols.arrow_right + " "@
        } else {
            "   "@
        }),
{
    reveal(part);
    if selected {
        cat3(" ", app.symbols.arrow_right, " ")
    } else {
        owned("   ")
    }
}

fn palette_entry(app: &App, position: usize, index: usize, width: u16) -> (out: Line)
    requires
        position < app.state().palette_matching().len(),
        index == app.state().palette_matching()[position as int],
        index < COMMAND_COUNT,
    ensures
        out.deep_view() == app.state().palette_entry(position as int, width),
{
    let command = command_at(index);
    let selected = position == app.palette_cursor;
    let theme = app.theme;
    let key = key_of(app, command);
    let mut spans = two(
        span(pointer(app, selected), Style::default().fg(theme.accent)),
        span(
            padded_right(command.name(), 28),
            if selected {
                Style::default().fg(theme.selection_text).bold()
            } else {
                theme.base()
            },
        ),
    );
    put(&mut spans, span(padded_right(&key, 8), theme.key_style()));
    put(
        &mut spans,
        span(cut(app, command.help(), sub_cells(width, 42) as usize), theme.faint_style()),
    );
    let ghost expected = app.state().palette_entry(position as int, width).spans;
    assert(command == command_table()[index as int]);
    assert(spans.deep_view() =~= expected);
    let mut out = line(spans);
    if selected {
        out.style = Style::default().bg(theme.selection);
    }
    out
}

fn palette_start(app: &App, height: u16) -> (out: usize)
    requires
        height > 0,
    ensures
        out == app.state().palette_start(height),
{
    let cursor: usize = app.palette_cursor;
    if cursor >= height as usize {
        cursor - (height as usize - 1)
    } else {
        0
    }
}

fn palette_list_lines(app: &App, matches: &Vec<usize>, list: Rect) -> (out: (
    Vec<Line>,
    Vec<(Rect, usize)>,
))
    requires
        matches@ == app.state().palette_matching(),
        forall|k: int| 0 <= k < matches@.len() ==> #[trigger] matches@[k] < COMMAND_COUNT,
        list.height > 0,
    ensures
        out.0.deep_view() == app.state().palette_entries(list),
        out.1@ == app.state().palette_targets(list),
        forall|k: int| 0 <= k < out.1@.len() ==> (#[trigger] out.1@[k]).1 < COMMAND_COUNT,
{
    let ghost v = app.state();
    let ghost entries = v.palette_entries(list);
    let ghost targets = v.palette_targets(list);
    let start: usize = palette_start(app, list.height);
    let mut lines = no_lines();
    let mut rows: Vec<(Rect, usize)> = Vec::new();
    let mut j: u16 = 0;
    assert(lines.deep_view() =~= entries.take(0));
    assert(rows@ =~= targets.take(0));
    while j < list.height && start < matches.len() && (j as usize) < matches.len() - start
        invariant
            v == app.state(),
            start == v.palette_start(list.height),
            matches@ == v.palette_matching(),
            forall|k: int| 0 <= k < matches@.len() ==> #[trigger] matches@[k] < COMMAND_COUNT,
            entries == v.palette_entries(list),
            targets == v.palette_targets(list),
            j <= v.palette_shown(list.height),
            lines.deep_view() == entries.take(j as int),
            rows@ == targets.take(j as int),
            forall|k: int| 0 <= k < rows@.len() ==> (#[trigger] rows@[k]).1 < COMMAND_COUNT,
        decreases list.height - j,
    {
        let position: usize = start + j as usize;
        let index: usize = matches[position];
        put(&mut lines, palette_entry(app, position, index, list.width));
        rows.push((rows_from(list, j, 1), index));
        assert(entries.take(j + 1) =~= entries.take(j as int).push(entries[j as int]));
        assert(targets.take(j + 1) =~= targets.take(j as int).push(targets[j as int]));
        j += 1;
    }
    assert(entries.take(entries.len() as int) =~= entries);
    assert(targets.take(targets.len() as int) =~= targets);
    (lines, rows)
}

fn note_palette(app: &mut App, rows: Vec<(Rect, usize)>)
    ensures
        final(app).state() == (AppState {
            hits: HitView { palette_rows: rows@, ..old(app).state().hits },
            ..old(app).state()
        }),
{
    reveal(part);
    app.hits.palette_rows = rows;
}

/// Draw the palette.
pub fn palette(app: &mut App, area: Rect) -> (out: Vec<Paint>)
    requires
        old(app).wf(),
    ensures
        out.deep_view() == old(app).state().palette_overlay(area),
        final(app).state() == old(app).state().palette_drawn(area),
        final(app).wf(),
{
    reveal(AppState::palette_overlay);
    reveal(AppState::palette_drawn);
    let ghost v = app.state();
    let matches = app.palette_matches();
    let visible: u16 = if matches.len() < 12 {
        matches.len() as u16
    } else {
        12
    };
    let height: u16 = min_cells(visible + 4, sub_cells(area.height, 2));
    let rect = centered(area, min_cells(80, area.width), height);
    let inner = rect.inner();
    let mut out = modal(app, rect, "commands");
    let list = rows_from(inner, 2, sub_cells(inner.height, 2));
    assert(rect == v.palette_area(area));
    assert(list == v.palette_list(area));
    if inner.height > 0 {
        put(&mut out, paint_line(rows_from(inner, 0, 1), palette_prompt(app)));
    }
    if list.height > 0 {
        let (lines, rows) = palette_list_lines(app, &matches, list);
        put(&mut out, paint_lines(list, lines));
        place_modal(app, rect);
        let ghost w = app.state();
        note_palette(app, rows);
        proof {
            wf_carries_over(w, app.state());
        }
    } else {
        place_modal(app, rect);
    }
    out
}

// ---------------------------------------------------------------------------
// Confirmation
// ---------------------------------------------------------------------------

/// The button that says yes.
pub open spec fn yes_text() -> Seq<char> {
    "  y  yes  "@
}

/// The button that says no.
pub open spec fn no_text() -> Seq<char> {
    "  n / esc  cancel  "@
}

/// Where the question goes.
pub open spec fn confirm_area(area: Rect) -> Rect {
    middle(area, least(60, area.width), least(8, area.height))
}

/// The cells that both buttons take, and the two between them.
pub open spec fn buttons_width() -> u16 {
    plus(plus(cells_of(text_width(yes_text())), cells_of(text_width(no_text()))), 2)
}

/// Where the two buttons go, if there is room for them. They are two discrete
/// buttons rather than one centred sentence, so each has a rectangle the mouse
/// can be tested against.
pub open spec fn buttons(area: Rect) -> Option<(Rect, Rect)> {
    let inner = confirm_area(area).inside();
    let yes_w = cells_of(text_width(yes_text()));
    if buttons_width() <= inner.width {
        let x = plus(inner.x, minus(inner.width, buttons_width()) / 2);
        let y = plus(inner.y, minus(inner.height, 1));
        Some(
            (
                Rect { x, y, width: yes_w, height: 1 },
                Rect {
                    x: plus(plus(x, yes_w), 2),
                    y,
                    width: cells_of(text_width(no_text())),
                    height: 1,
                },
            ),
        )
    } else {
        None
    }
}

impl AppState {
    /// The question about a job. Of the two buttons the focused one is filled.
    #[verifier::opaque]
    pub open spec fn confirm_overlay(self, job: JobView, area: Rect) -> Seq<PaintView> {
        let t = self.theme;
        let rect = confirm_area(area);
        seq![
            cleared(rect),
            block_in(rect, dialog(t, prompt_of(job).0, t.danger, t.danger)),
            PaintView {
                area: rect.inside(),
                widget: WidgetView::Text {
                    lines: seq![gap(), ln(seq![sp(prompt_of(job).1, colored(t.text))])],
                    wrap: Wrap::Trim,
                    style: plain(),
                },
            },
        ] + (match buttons(area) {
            Some((yes, no)) => seq![
                line_in(
                    yes,
                    ln(seq![sp(yes_text(), t.button(self.confirm_accept, true))]),
                ),
                line_in(
                    no,
                    ln(seq![sp(no_text(), t.button(!self.confirm_accept, false))]),
                ),
            ],
            None => Seq::empty(),
        })
    }

    /// The state with the question's click targets recorded.
    #[verifier::opaque]
    pub open spec fn confirm_drawn(self, area: Rect) -> AppState {
        match self.confirm {
            None => self,
            Some(_) => AppState {
                hits: HitView {
                    modal: Some(confirm_area(area)),
                    confirm_yes: match buttons(area) {
                        Some((yes, _)) => Some(yes),
                        None => self.hits.confirm_yes,
                    },
                    confirm_no: match buttons(area) {
                        Some((_, no)) => Some(no),
                        None => self.hits.confirm_no,
                    },
                    ..self.hits
                },
                ..self
            },
        }
    }
}

fn button_areas(area: Rect) -> (out: Option<(Rect, Rect)>)
    ensures
        out == buttons(area),
{
    let inner = centered(area, min_cells(60, area.width), min_cells(8, area.height)).inner();
    let yes_w: u16 = to_cells(width("  y  yes  ") as u128);
    let no_w: u16 = to_cells(width("  n / esc  cancel  ") as u128);
    let total: u16 = add_cells(add_cells(yes_w, no_w), 2);
    if total <= inner.width {
        let x: u16 = add_cells(inner.x, sub_cells(inner.width, total) / 2);
        let y: u16 = add_cells(inner.y, sub_cells(inner.height, 1));
        Some(
            (
                Rect { x, y, width: yes_w, height: 1 },
                Rect { x: add_cells(add_cells(x, yes_w), 2), y, width: no_w, height: 1 },
            ),
        )
    } else {
        None
    }
}

fn question(app: &App) -> (out: Option<(String, String)>)
    ensures
        match out {
            Some((title, body)) => app.state().confirm matches Some(job) && prompt_of(job) == (
                title@,
                body@,
            ),
            None => app.state().confirm is None,
        },
{
    reveal(part);
    match &app.confirm {
        Some(job) => Some(job.confirm_prompt()),
        None => None,
    }
}

fn note_confirm(app: &mut App, rect: Rect, areas: Option<(Rect, Rect)>)
    ensures
        final(app).state() == (AppState {
            hits: HitView {
                modal: Some(rect),
                confirm_yes: match areas {
                    Some((yes, _)) => Some(yes),
                    None => old(app).state().hits.confirm_yes,
                },
                confirm_no: match areas {
                    Some((_, no)) => Some(no),
                    None => old(app).state().hits.confirm_no,
                },
                ..old(app).state().hits
            },
            ..old(app).state()
        }),
{
    reveal(part);
    app.hits.modal = Some(rect);
    if let Some((yes, no)) = areas {
        app.hits.confirm_yes = Some(yes);
        app.hits.confirm_no = Some(no);
    }
}

/// Draw the question about the job that waits for an answer, if one does.
pub fn confirm(app: &mut App, area: Rect) -> (out: Vec<Paint>)
    requires
        old(app).wf(),
    ensures
        out.deep_view() == match old(app).state().confirm {
            Some(job) => old(app).state().confirm_overlay(job, area),
            None => Seq::<PaintView>::empty(),
        },
        final(app).state() == old(app).state().confirm_drawn(area),
        final(app).wf(),
{
    reveal(AppState::confirm_overlay);
    reveal(AppState::confirm_drawn);
    let ghost v = app.state();
    let mut out = no_paint();
    let (heading, body) = match question(app) {
        Some(q) => q,
        None => {
            return out;
        },
    };
    let theme = app.theme;
    let rect = centered(area, min_cells(60, area.width), min_cells(8, area.height));
    put(&mut out, clear(rect));
    put(
        &mut out,
        paint_block(rect, dialog_box(app, &heading, theme.danger, theme.danger)),
    );
    let mut lines = one_line(blank_line());
    let ghost said = body@;
    put(&mut lines, line(one(span(body, theme.base()))));
    assert(lines.deep_view() =~= seq![gap(), ln(seq![sp(said, colored(theme.text))])]);
    put(
        &mut out,
        Paint {
            area: rect.inner(),
            widget: Widget::Text { lines, wrap: Wrap::Trim, style: Style::default() },
        },
    );
    let areas = button_areas(area);
    if let Some((yes, no)) = areas {
        let accept = theme.button_style(app.confirm_accept, true);
        let refuse = theme.button_style(!app.confirm_accept, false);
        put(&mut out, paint_line(yes, line(one(styled("  y  yes  ", accept)))));
        put(&mut out, paint_line(no, line(one(styled("  n / esc  cancel  ", refuse)))));
    }
    assert(out.deep_view() =~= v.confirm_overlay(v.confirm->0, area));
    note_confirm(app, rect, areas);
    proof {
        wf_carries_over(v, app.state());
    }
    out
}

// ---------------------------------------------------------------------------
// Toasts
// ---------------------------------------------------------------------------

/// The widest a message gets. Daemon errors are wordy; they get room rather than
/// losing the part that says what actually went wrong.
pub open spec fn toast_room(area: Rect) -> u16 {
    least(minus(area.width, 4), 100)
}

impl AppState {
    /// How many messages are shown.
    pub open spec fn toast_count(self) -> nat {
        if self.toasts.len() < 4 {
            self.toasts.len()
        } else {
            4
        }
    }

    /// The `row`th of the messages shown.
    pub open spec fn toast_at(self, row: int) -> ToastView {
        self.toasts[self.toasts.len() - self.toast_count() + row]
    }

    /// What the `row`th message says.
    pub open spec fn toast_text(self, area: Rect, row: int) -> Seq<char> {
        self.cut(self.toast_at(row).text, minus(toast_room(area), 6) as nat)
    }

    /// Where the `row`th message goes: they stack upwards from just above the
    /// footer, newest at the bottom.
    pub open spec fn toast_area(self, area: Rect, row: int) -> Rect {
        let width = least(
            cells_of(text_width(self.toast_text(area, row)) + 6),
            toast_room(area),
        );
        Rect {
            x: plus(area.x, minus(area.width, plus(width, 1))),
            y: minus(
                plus(area.y, minus(area.height, 2)),
                (self.toast_count() - 1 - row) as u16,
            ),
            width,
            height: 1,
        }
    }

    /// The `row`th message.
    pub open spec fn toast_paint(self, area: Rect, row: int) -> Seq<PaintView> {
        let t = self.theme;
        let rect = self.toast_area(area, row);
        let (icon, color) = match self.toast_at(row).kind {
            ToastKind::Success => (self.symbols.check, t.success),
            ToastKind::Error => (self.symbols.cross, t.danger),
            ToastKind::Info => (self.symbols.bullet, t.info),
        };
        seq![
            cleared(rect),
            PaintView {
                area: rect,
                widget: WidgetView::Text {
                    lines: seq![
                        ln(
                            seq![
                                sp(" "@ + icon + " "@, strong(color)),
                                sp(self.toast_text(area, row), colored(t.text)),
                                raw(" "@),
                            ],
                        ),
                    ],
                    wrap: Wrap::Cut,
                    style: filled(t.surface_alt),
                },
            },
        ]
    }

    /// The first `n` messages, as far as they are on screen.
    pub open spec fn toast_paints(self, area: Rect, n: int) -> Seq<PaintView>
        decreases n,
    {
        if n <= 0 {
            Seq::empty()
        } else if self.toast_area(area, n - 1).y < area.y {
            self.toast_paints(area, n - 1)
        } else {
            self.toast_paints(area, n - 1) + self.toast_paint(area, n - 1)
        }
    }

    /// Where the first `n` messages are, as far as they are on screen.
    pub open spec fn toast_targets(self, area: Rect, n: int) -> Seq<(Rect, usize)>
        decreases n,
    {
        if n <= 0 {
            Seq::empty()
        } else if self.toast_area(area, n - 1).y < area.y {
            self.toast_targets(area, n - 1)
        } else {
            self.toast_targets(area, n - 1).push(
                (
                    self.toast_area(area, n - 1),
                    (self.toasts.len() - self.toast_count() + n - 1) as usize,
                ),
            )
        }
    }

    /// Whether messages are shown at all.
    pub open spec fn toasting(self, area: Rect) -> bool {
        self.toasts.len() > 0 && toast_room(area) >= 12
    }

    /// The messages.
    #[verifier::opaque]
    pub open spec fn toast_overlay(self, area: Rect) -> Seq<PaintView> {
        if self.toasting(area) {
            self.toast_paints(area, self.toast_count() as int)
        } else {
            Seq::empty()
        }
    }

    /// The state with the messages' click targets recorded.
    #[verifier::opaque]
    pub open spec fn toasts_drawn(self, area: Rect) -> AppState {
        if self.toasting(area) {
            AppState {
                hits: HitView {
                    toasts: self.toast_targets(area, self.toast_count() as int),
                    ..self.hits
                },
                ..self
            }
        } else {
            self
        }
    }
}

fn toast_parts(app: &App, index: usize, room: u16) -> (out: (&'static str, Color, String))
    requires
        index < app.state().toasts.len(),
    ensures
        ({
            let toast = app.state().toasts[index as int];
            let t = app.state().theme;
            (out.0@, out.1) == match toast.kind {
                ToastKind::Success => (app.state().symbols.check, t.success),
                ToastKind::Error => (app.state().symbols.cross, t.danger),
                ToastKind::Info => (app.state().symbols.bullet, t.info),
            }
        }),
        out.2@ == app.state().cut(app.state().toasts[index as int].text, minus(room, 6) as nat),
{
    reveal(part);
    let toast = &app.toasts[index];
    assert(app.state().toasts[index as int] == toast.deep_view());
    let (icon, color) = match toast.kind {
        ToastKind::Success => (app.symbols.check, app.theme.success),
        ToastKind::Error => (app.symbols.cross, app.theme.danger),
        ToastKind::Info => (app.symbols.bullet, app.theme.info),
    };
    (icon, color, cut(app, &toast.text, sub_cells(room, 6) as usize))
}

fn toast_total(app: &App) -> (out: usize)
    ensures
        out == app.state().toasts.len(),
{
    reveal(part);
    app.toasts.len()
}

fn push_toast(app: &App, area: Rect, row: u16, count: u16, out: &mut Vec<Paint>) -> (placed: Option<
    (Rect, usize),
>)
    requires
        app.state().toasting(area),
        count == app.state().toast_count(),
        row < count,
    ensures
        ({
            let v = app.state();
            let rect = v.toast_area(area, row as int);
            if rect.y < area.y {
                placed is None && final(out).deep_view() == old(out).deep_view()
            } else {
                placed == Some(
                    (rect, (v.toasts.len() - v.toast_count() + row) as usize),
                ) && final(out).deep_view() == old(out).deep_view() + v.toast_paint(
                    area,
                    row as int,
                )
            }
        }),
{
    let ghost v = app.state();
    let ghost before = out.deep_view();
    let room: u16 = min_cells(sub_cells(area.width, 4), 100);
    let total: usize = toast_total(app);
    let index: usize = total - count as usize + row as usize;
    let (icon, color, text) = toast_parts(app, index, room);
    assert(text@ == v.toast_text(area, row as int));
    let cells: u16 = min_cells(to_cells(width(&text) as u128 + 6), room);
    let bottom: u16 = add_cells(area.y, sub_cells(area.height, 2));
    let rect = Rect {
        x: add_cells(area.x, sub_cells(area.width, add_cells(cells, 1))),
        y: sub_cells(bottom, count - 1 - row),
        width: cells,
        height: 1,
    };
    assert(rect == v.toast_area(area, row as int));
    if rect.y < area.y {
        return None;
    }
    let theme = app.theme;
    put(out, clear(rect));
    let spans = three(
        span(cat3(" ", icon, " "), Style::default().fg(color).bold()),
        span(text, Style::default().fg(theme.text)),
        unstyled(" "),
    );
    put(
        out,
        Paint {
            area: rect,
            widget: Widget::Text {
                lines: one_line(line(spans)),
                wrap: Wrap::Cut,
                style: Style::default().bg(theme.surface_alt),
            },
        },
    );
    assert(out.deep_view() =~= before + v.toast_paint(area, row as int));
    Some((rect, index))
}

fn note_toasts(app: &mut App, placed: Vec<(Rect, usize)>)
    ensures
        final(app).state() == (AppState {
            hits: HitView { toasts: placed@, ..old(app).state().hits },
            ..old(app).state()
        }),
{
    reveal(part);
    app.hits.toasts = placed;
}

/// Draw the messages.
pub fn toasts(app: &mut App, area: Rect) -> (out: Vec<Paint>)
    requires
        old(app).wf(),
    ensures
        out.deep_view() == old(app).state().toast_overlay(area),
        final(app).state() == old(app).state().toasts_drawn(area),
        final(app).wf(),
{
    reveal(AppState::toast_overlay);
    reveal(AppState::toasts_drawn);
    let ghost v = app.state();
    let mut out = no_paint();
    let total: usize = toast_total(app);
    let room: u16 = min_cells(sub_cells(area.width, 4), 100);
    if total == 0 || room < 12 {
        return out;
    }
    let count: u16 = if total < 4 {
        total as u16
    } else {
        4
    };
    let mut placed: Vec<(Rect, usize)> = Vec::new();
    let mut row: u16 = 0;
    while row < count
        invariant
            row <= count,
            v == app.state(),
            v.toasting(area),
            count == v.toast_count(),
            out.deep_view() == v.toast_paints(area, row as int),
            placed@ == v.toast_targets(area, row as int),
        decreases count - row,
    {
        match push_toast(app, area, row, count, &mut out) {
            Some(p) => {
                placed.push(p);
            },
            None => {},
        }
        row += 1;
    }
    note_toasts(app, placed);
    proof {
        wf_carries_over(v, app.state());
    }
    out
}

} // verus!
