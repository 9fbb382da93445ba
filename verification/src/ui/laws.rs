//! What holds of every frame.

use vstd::prelude::*;

use crate::action::{line_of, the_table_is_complete, Command};
use crate::app::hits::{first_hit, HitView};
use crate::app::palette::{palette_for, palette_is_exact};
use crate::app::state::AppState;
use crate::app::Tab;
use crate::docker::actions::JobView;
use crate::geometry::{Position, Rect};
use crate::ui::frame::NARROW;
use crate::ui::layout::{
    agreed, fixed, halves, hundredths, length_along, pressed, pull, pulls, quarters,
    stretches_alone, stretches_by_weight, Constraint,
};
use crate::ui::overlay::buttons;
use crate::ui::rows::constraints_of;
use crate::ui::screen::InkView;
use crate::ui::tables::SPACING;
use crate::ui::theme::{spin_text, symbols_of, theme_of, Color, Glyphs, Palette, Style, Theme};

verus! {

/// A hit region never outlives the frame that drew it: what the last frame
/// recorded makes no difference to the next.
pub proof fn frames_forget_the_last(v: AppState, hits: HitView)
    ensures
        (AppState { hits, ..v }).wiped() == v.wiped(),
{
    reveal(AppState::wiped);
}

/// The help has a line for every command.
pub proof fn the_help_names_every_command(v: AppState, command: Command)
    ensures
        v.help_lines().contains(v.help_line(command)),
{
    the_table_is_complete(command, 0);
    assert(v.help_lines()[line_of(command)] == v.help_line(command));
}

/// The bar never offers a key without saying what it does.
pub proof fn offered_commands_have_a_label(v: AppState, command: Command)
    requires
        v.offers(command),
    ensures
        v.short_label_of(command).len() > 0,
{
    reveal_strlit("hide details");
    reveal_strlit("details");
    reveal_strlit("hide logs");
    reveal_strlit("logs");
    reveal_strlit("start");
    reveal_strlit("stop");
    reveal_strlit("restart");
    reveal_strlit("shell");
    reveal_strlit("delete");
    reveal_strlit("filter");
    reveal_strlit("help");
    reveal_strlit("quit");
    reveal_strlit("group");
    reveal_strlit("ungroup");
}

/// The palette offers every command when nothing was typed.
pub proof fn the_palette_offers_every_command(command: Command)
    ensures
        palette_for(Seq::empty()).contains(line_of(command) as usize),
{
    the_table_is_complete(command, 0);
    palette_is_exact(Seq::empty(), line_of(command) as usize);
}

// ---------------------------------------------------------------------------
// Panes
// ---------------------------------------------------------------------------

/// From how many cells on the columns of a list all get what they ask for.
pub open spec fn roomy(tab: Tab) -> u16 {
    match tab {
        Tab::Containers => 16,
        Tab::Images => 78,
        Tab::Volumes => 57,
        Tab::Networks => 45,
    }
}

/// How wide the columns of a list come out is settled wherever there is room for
/// what they ask for; and in less room, down to the least that the name asks for,
/// they still fill it exactly, the name has its least, and no other column is wider
/// than it asks to be.
pub proof fn list_columns_are_settled(tab: Tab, w: u16)
    ensures
        w >= roomy(tab) ==> agreed(constraints_of(tab, w), w, SPACING),
        !(tab is Containers) && 26 <= w < roomy(tab) ==> pressed(
            constraints_of(tab, w),
            w,
            SPACING,
            1,
        ),
{
    let parts = constraints_of(tab, w);
    let none = Seq::<Constraint>::empty();
    match tab {
        Tab::Containers => {
            let front = seq![Constraint::Length(2), Constraint::Fill(3)];
            assert(front =~= none.push(Constraint::Length(2)).push(Constraint::Fill(3)));
            assert(fixed(none) == 0 && pulls(none) == 0 && hundredths(none) == 0);
            one_more(none, Constraint::Length(2));
            one_more(none.push(Constraint::Length(2)), Constraint::Fill(3));
            let named = if w >= 70 {
                one_more(front, Constraint::Fill(4));
                front.push(Constraint::Fill(4))
            } else {
                front
            };
            one_more(named, Constraint::Length(12));
            let stated = named.push(Constraint::Length(12));
            one_more(stated, Constraint::Length(7));
            one_more(stated.push(Constraint::Length(7)), Constraint::Length(8));
            let loaded = stated.push(Constraint::Length(7)).push(Constraint::Length(8));
            one_more(loaded, Constraint::Fill(4));
            share_taken(parts, w, 0);
            assert(stretches_by_weight(parts));
        },
        Tab::Images => {
            all_in(parts);
            share_taken(parts, w, 0);
            assert(stretches_alone(parts, 1));
        },
        Tab::Volumes => {
            all_in(parts);
            share_taken(
                parts,
                w,
                if w >= 90 {
                    30
                } else {
                    0
                },
            );
            assert(stretches_alone(parts, 1));
        },
        Tab::Networks => {
            all_in(parts);
            share_taken(
                parts,
                w,
                if w >= 84 {
                    28
                } else {
                    0
                },
            );
            assert(stretches_alone(parts, 1));
        },
    }
}

proof fn share_taken(parts: Seq<Constraint>, w: u16, n: nat)
    requires
        hundredths(parts) == n,
    ensures
        hundredths(parts) * w == n * w,
{
}

proof fn one_more(s: Seq<Constraint>, x: Constraint)
    ensures
        fixed(s.push(x)) == fixed(s) + match x {
            Constraint::Length(n) => n as nat,
            _ => 0,
        },
        pulls(s.push(x)) == pulls(s) + pull(x),
        hundredths(s.push(x)) == hundredths(s) + match x {
            Constraint::Percentage(n) => n as nat,
            _ => 0,
        },
{
    assert(s.push(x).drop_last() =~= s);
}

proof fn all_in(parts: Seq<Constraint>)
    requires
        5 <= parts.len() <= 7,
    ensures
        fixed(parts) == length_in(parts, 0) + length_in(parts, 1) + length_in(parts, 2) + length_in(
            parts,
            3,
        ) + length_in(parts, 4) + length_in(parts, 5) + length_in(parts, 6),
        hundredths(parts) == percent_in(parts, 0) + percent_in(parts, 1) + percent_in(parts, 2)
            + percent_in(parts, 3) + percent_in(parts, 4) + percent_in(parts, 5) + percent_in(
            parts,
            6,
        ),
{
    let n = parts.len() as int;
    let none = Seq::<Constraint>::empty();
    assert(parts.take(0) =~= none);
    assert(parts.take(1) =~= parts.take(0).push(parts[0]));
    assert(parts.take(2) =~= parts.take(1).push(parts[1]));
    assert(parts.take(3) =~= parts.take(2).push(parts[2]));
    assert(parts.take(4) =~= parts.take(3).push(parts[3]));
    assert(parts.take(5) =~= parts.take(4).push(parts[4]));
    one_more(parts.take(0), parts[0]);
    one_more(parts.take(1), parts[1]);
    one_more(parts.take(2), parts[2]);
    one_more(parts.take(3), parts[3]);
    one_more(parts.take(4), parts[4]);
    if n >= 6 {
        assert(parts.take(6) =~= parts.take(5).push(parts[5]));
        one_more(parts.take(5), parts[5]);
    }
    if n == 7 {
        assert(parts.take(7) =~= parts.take(6).push(parts[6]));
        one_more(parts.take(6), parts[6]);
    }
    assert(parts.take(n) =~= parts);
}

spec fn length_in(parts: Seq<Constraint>, k: int) -> nat {
    if k < parts.len() {
        match parts[k] {
            Constraint::Length(n) => n as nat,
            _ => 0,
        }
    } else {
        0
    }
}

spec fn percent_in(parts: Seq<Constraint>, k: int) -> nat {
    if k < parts.len() {
        match parts[k] {
            Constraint::Percentage(n) => n as nat,
            _ => 0,
        }
    } else {
        0
    }
}

/// An area that is cut in two is cut without a gap or an overlap, and the first
/// part keeps its least length as long as there is one.
pub proof fn halves_fill_the_whole(area: Rect, vertical: bool, floor: u16, length: u16)
    requires
        area.on_screen(),
    ensures
        ({
            let (first, second) = halves(area, vertical, floor, length);
            let total = length_along(area, vertical);
            &&& length_along(first, vertical) + length_along(second, vertical) == total
            &&& floor <= total ==> length_along(first, vertical) >= floor
            &&& floor > total ==> length_along(first, vertical) == total
            &&& first.x == area.x && first.y == area.y
            &&& if vertical {
                second.y == first.bottom_edge() && second.x == area.x
            } else {
                second.x == first.right_edge() && second.y == area.y
            }
        }),
{
}

/// A size that was cut to fit stays as it is: laying the same screen out again
/// moves nothing.
pub proof fn sizes_settle(v: AppState, area: Rect)
    ensures
        v.placed(area).places(area) == v.places(area),
        v.placed(area).placed(area) == v.placed(area),
{
    reveal(AppState::logs_sized);
    reveal(AppState::detail_sized);
    reveal(AppState::list_and_detail);
    let body = quarters(area, v.banner_rows()).2;
    let top = v.storeys(body).0;
    let w = v.placed(area);
    assert(w.log_rows_in(body.height) == v.log_rows_in(body.height) || !v.logs_shown());
    assert(w.storeys(body) == v.storeys(body));
    assert(w.detail_shown(body) == v.detail_shown(body));
    if v.detail_shown(body) {
        if top.width >= NARROW {
            assert(w.detail_cols_in(top.width) == v.detail_cols_in(top.width));
        } else {
            assert(w.detail_rows_in(top.height) == v.detail_rows_in(top.height));
        }
    }
}

// ---------------------------------------------------------------------------
// Click targets
// ---------------------------------------------------------------------------

proof fn tabs_lie_apart(v: AppState, inner: Rect, n: int, k: int)
    requires
        0 <= k < v.tab_targets(inner, n).len(),
    ensures
        v.tab_targets(inner, n)[k].0.right_edge() <= v.tab_start(inner, n),
        forall|i: int|
            0 <= i < k ==> (#[trigger] v.tab_targets(inner, n)[i]).0.right_edge() <= v.tab_targets(
                inner,
                n,
            )[k].0.x,
    decreases n,
{
    if n > 0 {
        let low = v.tab_targets(inner, n - 1);
        let all = v.tab_targets(inner, n);
        if k < low.len() {
            tabs_lie_apart(v, inner, n - 1, k);
            assert forall|i: int| 0 <= i < k implies (#[trigger] all[i]).0.right_edge()
                <= all[k].0.x by {
                assert(all[i] == low[i]);
            }
        } else {
            assert forall|i: int| 0 <= i < k implies (#[trigger] all[i]).0.right_edge()
                <= all[k].0.x by {
                tabs_lie_apart(v, inner, n - 1, i);
                assert(all[i] == low[i]);
            }
        }
    }
}

/// A click anywhere on a tab that was drawn finds that tab and no other.
pub proof fn tabs_are_hit_where_they_are_drawn(v: AppState, inner: Rect, k: int, at: Position)
    requires
        0 <= k < v.tab_targets(inner, 4).len(),
        v.tab_targets(inner, 4)[k].0.holds(at),
    ensures
        first_hit(v.tab_targets(inner, 4), at, 0) == Some(v.tab_targets(inner, 4)[k].1),
{
    tabs_lie_apart(v, inner, 4, k);
    first_is_found(v.tab_targets(inner, 4), at, 0, k);
}

proof fn first_is_found<T>(regions: Seq<(Rect, T)>, at: Position, from: int, k: int)
    requires
        0 <= from <= k < regions.len(),
        regions[k].0.holds(at),
        forall|i: int| from <= i < k ==> !(#[trigger] regions[i]).0.holds(at),
    ensures
        first_hit(regions, at, from) == Some(regions[k].1),
    decreases k - from,
{
    if from < k {
        assert(!regions[from].0.holds(at));
        first_is_found(regions, at, from + 1, k);
    }
}

/// The palette's cursor is always in view.
pub proof fn the_palette_keeps_its_cursor_in_view(v: AppState, height: u16)
    requires
        height > 0,
        v.palette_cursor < v.palette_matching().len(),
    ensures
        v.palette_start(height) <= v.palette_cursor < v.palette_start(height) + v.palette_shown(
            height,
        ),
{
}

/// Of the two buttons of a question exactly the focused one is filled, in every
/// theme.
pub proof fn focus_shows(theme: Theme, accept: bool)
    ensures
        theme.button(accept, true) != theme.button(!accept, true),
        theme.button(accept, true).bold == accept,
        theme.button(!accept, false).bold == !accept,
{
}

/// Moving between the buttons of a question changes what is on the screen, wherever
/// there is room for them.
pub proof fn moving_the_focus_shows(v: AppState, job: JobView, area: Rect)
    requires
        buttons(area) is Some,
    ensures
        (AppState { confirm_accept: !v.confirm_accept, ..v }).confirm_overlay(job, area)
            != v.confirm_overlay(job, area),
{
    reveal(AppState::confirm_overlay);
    let w = AppState { confirm_accept: !v.confirm_accept, ..v };
    focus_shows(v.theme, v.confirm_accept);
    let (a, b) = (v.confirm_overlay(job, area)[3], w.confirm_overlay(job, area)[3]);
    assert(a.widget->lines[0].spans[0].ink == InkView::Theme(
        v.theme.button(v.confirm_accept, true),
    ));
    assert(b.widget->lines[0].spans[0].ink == InkView::Theme(
        v.theme.button(!v.confirm_accept, true),
    ));
}

/// Newer messages lie below older ones.
pub proof fn newer_messages_lie_lower(v: AppState, area: Rect, i: int, j: int)
    requires
        0 <= i < j < v.toast_count(),
        v.toast_area(area, i).y > 0,
    ensures
        v.toast_area(area, i).y < v.toast_area(area, j).y,
{
}

// ---------------------------------------------------------------------------
// Appearance
// ---------------------------------------------------------------------------

/// Whether a style asks for no colour.
pub open spec fn colorless(style: Style) -> bool {
    (style.fg is None || style.fg == Some(Color::Reset)) && (style.bg is None || style.bg == Some(
        Color::Reset,
    ))
}

/// Without colour there is none: neither in a role nor in a ready-made style.
pub proof fn mono_has_no_color(glyphs: Glyphs, focused: bool, destructive: bool, index: int)
    ensures
        ({
            let t = theme_of(Palette::Mono, glyphs);
            &&& t.text == Color::Reset && t.subtle == Color::Reset && t.faint == Color::Reset
            &&& t.border == Color::Reset && t.border_focus == Color::Reset
            &&& t.surface == Color::Reset && t.surface_alt == Color::Reset
            &&& t.selection == Color::Reset && t.selection_text == Color::Reset
            &&& t.primary == Color::Reset && t.accent == Color::Reset
            &&& t.success == Color::Reset && t.warn == Color::Reset
            &&& t.danger == Color::Reset && t.info == Color::Reset
            &&& colorless(t.dim_style()) && colorless(t.faintest()) && colorless(t.edge(focused))
            &&& colorless(t.caption(focused)) && colorless(t.highlight(focused))
            &&& colorless(t.button(focused, destructive)) && colorless(t.keycap())
            &&& t.stripe_at(index) is None || t.stripe_at(index) == Some(Color::Reset)
        }),
{
}

/// Where there is colour, what is well, what is doubtful and what is wrong look
/// different; and a list that has the focus looks different from one that has not.
pub proof fn colors_tell_things_apart(palette: Palette, glyphs: Glyphs)
    requires
        palette != Palette::Mono,
    ensures
        ({
            let t = theme_of(palette, glyphs);
            &&& t.success != t.warn && t.warn != t.danger && t.success != t.danger
            &&& t.info != t.danger && t.info != t.success && t.info != t.warn
            &&& t.highlight(true) != t.highlight(false)
            &&& t.edge(true) != t.edge(false)
            &&& t.button(true, true) != t.button(true, false)
        }),
{
}

/// The spinner goes round: one frame differs from the next, and after four frames in
/// ASCII, or ten otherwise, it is where it was.
pub proof fn spinners_go_round(frame: int)
    requires
        frame >= 0,
    ensures
        spin_text(true, frame + 4) == spin_text(true, frame),
        spin_text(false, frame + 10) == spin_text(false, frame),
        spin_text(true, frame) != spin_text(true, frame + 1),
{
    reveal_strlit("|");
    reveal_strlit("/");
    reveal_strlit("-");
    reveal_strlit("\\");
    assert("|"@[0] == '|' && "/"@[0] == '/' && "-"@[0] == '-' && "\\"@[0] == '\\');
}

/// Stripes alternate, and there are none without true colour.
pub proof fn stripes_alternate(glyphs: Glyphs, index: int)
    ensures
        theme_of(Palette::TrueColor, glyphs).stripe_at(index) is Some
            <==> theme_of(Palette::TrueColor, glyphs).stripe_at(index + 1) is None,
        theme_of(Palette::Ansi, glyphs).stripe_at(index) is None,
        theme_of(Palette::TrueColor, glyphs).stripe_at(0) is None,
{
}

/// The states of a container have glyphs of their own, whatever the terminal can show.
pub proof fn glyphs_tell_states_apart(glyphs: Glyphs)
    ensures
        ({
            let s = symbols_of(glyphs);
            &&& s.running != s.stopped && s.running != s.paused && s.running != s.unhealthy
            &&& s.running != s.dead && s.stopped != s.paused && s.stopped != s.dead
            &&& s.stopped != s.unhealthy && s.arrow_down != s.arrow_up && s.check != s.cross
            &&& s.ascii <==> glyphs == Glyphs::Ascii
        }),
{
    reveal_strlit("*");
    reveal_strlit("-");
    reveal_strlit("=");
    reveal_strlit("x");
    reveal_strlit("!");
    reveal_strlit("v");
    reveal_strlit("^");
    reveal_strlit("ok");
    reveal_strlit("●");
    reveal_strlit("○");
    reveal_strlit("◐");
    reveal_strlit("✖");
    reveal_strlit("▲");
    reveal_strlit("▾");
    reveal_strlit("▴");
    reveal_strlit("✓");
    reveal_strlit("✗");
    reveal_strlit("\u{f00c}");
    reveal_strlit("\u{f00d}");
    let s = symbols_of(glyphs);
    assert(s.running[0] != s.stopped[0] && s.running[0] != s.paused[0]);
    assert(s.running[0] != s.unhealthy[0] && s.running[0] != s.dead[0]);
    assert(s.stopped[0] != s.paused[0] && s.stopped[0] != s.dead[0]);
    assert(s.stopped[0] != s.unhealthy[0] && s.arrow_down[0] != s.arrow_up[0]);
    assert(s.check[0] != s.cross[0]);
}

} // verus!
