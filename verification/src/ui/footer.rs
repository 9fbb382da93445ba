//! The contextual key bar, and the filter prompt that replaces it while typing.

use vstd::prelude::*;
use vstd::utf8::encode_utf8;

use crate::action::{
    command_at, command_table, in_footer, keys_of, scope_of, Command, Scope, COMMAND_COUNT,
};
use crate::app::state::{part, App, AppState};
use crate::app::{Mode, Tab};
use crate::geometry::Rect;
use crate::text::{cat2, cat3, dec, decimal, put};
use crate::ui::screen::{
    line, line_in, ln, no_paint, one, paint_line, raw, sp, span, styled, unstyled, Paint,
    PaintView, Span, SpanView,
};
use crate::ui::theme::{colored, strong, Style};
use crate::ui::{key_label, key_name};
use crate::util::format::{text_width, width};

verus! {

broadcast use vstd::string::group_string_axioms;

/// Whether a command of some scope means anything on a tab.
pub open spec fn applies_to(scope: Scope, tab: Tab) -> bool {
    scope == Scope::Containers ==> tab == Tab::Containers
}

impl AppState {
    /// The filter prompt.
    pub open spec fn prompt_spans(self) -> Seq<SpanView> {
        let matched = self.rows().len();
        seq![
            sp(" "@ + self.symbols.prompt + " "@, strong(self.theme.accent)),
            sp(self.filter.at(self.tab).value, colored(self.theme.text)),
            sp(self.symbols.caret, colored(self.theme.accent)),
            sp(
                "   "@ + dec(matched) + (if matched == 1 {
                    " match"@
                } else {
                    " matches"@
                }),
                self.theme.faintest(),
            ),
            sp("   "@ + self.symbols.enter + " keep   esc clear"@, self.theme.faintest()),
        ]
    }

    /// Footer labels are terser than the help text, and a couple of them change
    /// with state so the bar always describes what the key will actually do.
    pub open spec fn short_label_of(self, command: Command) -> Seq<char> {
        match command {
            Command::ToggleDetail => if self.show_detail {
                "hide details"@
            } else {
                "details"@
            },
            Command::ToggleLogs => if self.show_logs {
                "hide logs"@
            } else {
                "logs"@
            },
            Command::Start => "start"@,
            Command::Stop => "stop"@,
            Command::Restart => "restart"@,
            Command::Exec => "shell"@,
            Command::Remove => "delete"@,
            Command::Filter => "filter"@,
            Command::Help => "help"@,
            Command::Quit => "quit"@,
            Command::ToggleGroup => if self.grouping() {
                "ungroup"@
            } else {
                "group"@
            },
            _ => ""@,
        }
    }

    /// Whether the bar offers a command. `start` and `stop` are mutually
    /// exclusive in practice; it shows the one that would actually do something
    /// to the selected container.
    pub open spec fn offers(self, command: Command) -> bool {
        &&& in_footer(command)
        &&& applies_to(scope_of(command), self.tab)
        &&& match self.container() {
            Some(c) => !(command == Command::Start && c.state.live()) && !(command
                == Command::Stop && !c.state.live()),
            None => true,
        }
    }

    /// The key the bar names for a command.
    pub open spec fn key_shown(self, command: Command) -> Seq<char> {
        if keys_of(command).len() > 0 {
            key_name(self.theme.glyphs, keys_of(command)[0])
        } else {
            Seq::empty()
        }
    }

    /// One hint: a key and what it does.
    pub open spec fn hint(self, key: Seq<char>, label: Seq<char>) -> Seq<SpanView> {
        seq![
            sp(key, self.theme.keycap()),
            raw(" "@),
            sp(label, self.theme.dim_style()),
            raw("   "@),
        ]
    }

    /// The hints from the `i`th line of the command table on, as far as there is
    /// room for them after `used` cells.
    pub open spec fn hints_from(self, room: u16, i: int, used: nat) -> Seq<SpanView>
        decreases COMMAND_COUNT - i,
    {
        if i >= COMMAND_COUNT {
            Seq::empty()
        } else {
            let command = command_table()[i];
            let key = self.key_shown(command);
            let label = self.short_label_of(command);
            if !self.offers(command) {
                self.hints_from(room, i + 1, used)
            } else if used + encode_utf8(key).len() + encode_utf8(label).len() + 3 > room {
                Seq::empty()
            } else {
                self.hint(key, label) + self.hints_from(
                    room,
                    i + 1,
                    used + text_width(key) + text_width(label) + 4,
                )
            }
        }
    }

    /// The keys that move. They are always first — it's the one hint that's
    /// never contextual.
    pub open spec fn move_keys(self) -> Seq<char> {
        self.symbols.key_up + self.symbols.key_down
    }

    /// The key bar.
    pub open spec fn key_spans(self, room: u16) -> Seq<SpanView> {
        seq![raw(" "@)] + self.hint(self.move_keys(), "move"@) + self.hint("tab"@, "switch"@)
            + self.hints_from(
            room,
            0,
            1 + (text_width(self.move_keys()) + text_width("move"@) + 4) + (text_width("tab"@)
                + text_width("switch"@) + 4),
        )
    }

    /// The bottom line.
    #[verifier::opaque]
    pub open spec fn footer(self, area: Rect) -> Seq<PaintView> {
        seq![
            line_in(
                area,
                ln(
                    if self.mode == Mode::Filter {
                        self.prompt_spans()
                    } else {
                        self.key_spans(area.width)
                    },
                ),
            ),
        ]
    }
}

fn filter_spans(app: &App) -> (out: Vec<Span>)
    ensures
        out.deep_view() == app.state().prompt_spans(),
{
    reveal(part);
    let theme = app.theme;
    let matched: usize = app.view().len();
    let count = decimal(matched as u64);
    let mut out = one(
        span(cat3(" ", app.symbols.prompt, " "), Style::default().fg(theme.accent).bold()),
    );
    put(&mut out, styled(&app.filter.get(app.tab).value, Style::default().fg(theme.text)));
    put(&mut out, styled(app.symbols.caret, Style::default().fg(theme.accent)));
    put(
        &mut out,
        span(
            cat3(
                "   ",
                &count,
                if matched == 1 {
                    " match"
                } else {
                    " matches"
                },
            ),
            theme.faint_style(),
        ),
    );
    put(
        &mut out,
        span(cat3("   ", app.symbols.enter, " keep   esc clear"), theme.faint_style()),
    );
    out
}

fn short_label(command: Command, app: &App) -> (out: &'static str)
    ensures
        out@ == app.state().short_label_of(command),
{
    match command {
        Command::ToggleDetail => if app.show_detail {
            "hide details"
        } else {
            "details"
        },
        Command::ToggleLogs => if app.show_logs {
            "hide logs"
        } else {
            "logs"
        },
        Command::Start => "start",
        Command::Stop => "stop",
        Command::Restart => "restart",
        Command::Exec => "shell",
        Command::Remove => "delete",
        Command::Filter => "filter",
        Command::Help => "help",
        Command::Quit => "quit",
        Command::ToggleGroup => if app.grouping() {
            "ungroup"
        } else {
            "group"
        },
        _ => "",
    }
}

fn applies(scope: Scope, tab: Tab) -> (out: bool)
    ensures
        out == applies_to(scope, tab),
{
    match scope {
        Scope::Global => true,
        Scope::Containers => tab == Tab::Containers,
        Scope::Removable => true,
    }
}

fn is_offered(app: &App, command: Command) -> (out: bool)
    ensures
        out == app.state().offers(command),
{
    if !command.footer() || !applies(command.scope(), app.tab) {
        return false;
    }
    match app.selected_container() {
        Some(c) => {
            let live = c.state.is_live();
            !(command == Command::Start && live) && !(command == Command::Stop && !live)
        },
        None => true,
    }
}

/// The key the bar names for a command.
pub(crate) fn key_of(app: &App, command: Command) -> (out: String)
    ensures
        out@ == app.state().key_shown(command),
{
    let keys = command.keys();
    if keys.len() > 0 {
        key_label(app, &keys[0])
    } else {
        let out = String::new();
        assert(out@ =~= Seq::<char>::empty());
        out
    }
}

fn push_hint(spans: &mut Vec<Span>, app: &App, key: &str, label: &str)
    ensures
        final(spans).deep_view() == old(spans).deep_view() + app.state().hint(key@, label@),
{
    let ghost before = spans.deep_view();
    put(spans, styled(key, app.theme.key_style()));
    put(spans, unstyled(" "));
    put(spans, styled(label, app.theme.dim()));
    put(spans, unstyled("   "));
    assert(spans.deep_view() =~= before + app.state().hint(key@, label@));
}

fn hint_cells(key: &str, label: &str) -> (out: u128)
    ensures
        out == text_width(key@) + text_width(label@) + 4,
        out <= 0x2_0000_0000_0000_0010,
{
    width(key) as u128 + width(label) as u128 + 4
}

fn key_hints(app: &App, room: u16) -> (out: Vec<Span>)
    ensures
        out.deep_view() == app.state().key_spans(room),
{
    let ghost v = app.state();
    let mut spans = one(unstyled(" "));
    let moves = move_keys(app);
    push_hint(&mut spans, app, &moves, "move");
    push_hint(&mut spans, app, "tab", "switch");
    let mut used: u128 = 1 + hint_cells(&moves, "move") + hint_cells("tab", "switch");
    let ghost whole = v.key_spans(room);
    let mut i: usize = 0;
    assert(whole =~= spans.deep_view() + v.hints_from(room, 0, used as nat));
    while i < COMMAND_COUNT
        invariant
            i <= COMMAND_COUNT,
            v == app.state(),
            whole == v.key_spans(room),
            whole == spans.deep_view() + v.hints_from(room, i as int, used as nat),
            used <= (i + 2) * 0x2_0000_0000_0000_0011,
        decreases COMMAND_COUNT - i,
    {
        let command = command_at(i);
        if is_offered(app, command) {
            let key = key_of(app, command);
            let label = short_label(command, app);
            if used + key.as_str().as_bytes().len() as u128 + label.as_bytes().len() as u128 + 3
                > room as u128 {
                assert(v.hints_from(room, i as int, used as nat) =~= Seq::<SpanView>::empty());
                assert(whole =~= spans.deep_view());
                return spans;
            }
            push_hint(&mut spans, app, &key, label);
            used = used + hint_cells(&key, label);
            assert(whole =~= spans.deep_view() + v.hints_from(room, i + 1, used as nat));
        }
        i += 1;
    }
    assert(whole =~= spans.deep_view());
    spans
}

fn move_keys(app: &App) -> (out: String)
    ensures
        out@ == app.state().move_keys(),
{
    reveal(part);
    cat2(app.symbols.key_up, app.symbols.key_down)
}

/// Draw the bottom line.
pub fn draw(app: &App, area: Rect) -> (out: Vec<Paint>)
    ensures
        out.deep_view() == app.state().footer(area),
{
    reveal(AppState::footer);
    let spans = if app.mode == Mode::Filter {
        filter_spans(app)
    } else {
        key_hints(app, area.width)
    };
    let mut out = no_paint();
    put(&mut out, paint_line(area, line(spans)));
    out
}

} // verus!
