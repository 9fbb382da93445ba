//! Where everything goes on the screen, and that what can be hit is where it is drawn.

use vstd::prelude::*;

use crate::action::{command_table, help_of, name_of, scope_of, Command, Scope};
use crate::app::hits::first_hit;
use crate::app::state::AppState;
use crate::app::{Mode, Splitter, Tab, ToastKind};
use crate::docker::actions::{prompt_of, JobView};
use crate::geometry::{minus, Position, Rect};
use crate::text::{dec, pad_right};
use crate::ui::frame::too_small;
use crate::ui::layout::{column_grip, row_grip};
use crate::ui::overlay::{buttons, confirm_area, no_text, yes_text};
use crate::ui::screen::WidgetView;
use crate::ui::theme::{filled, plain, strong};

verus! {

broadcast use vstd::string::group_string_axioms;

// ---------------------------------------------------------------------------
// Panes
// ---------------------------------------------------------------------------

/// A pane gets the size that it was dragged to, and two fifths of the height for the
/// logs, or 38 or 45 percent for the details, if it never was: as far as it keeps a
/// least size of its own and leaves the list one.
pub proof fn panes_get_the_size_that_was_asked_for(v: AppState, available: u16)
    requires
        available >= 64,
        available <= 1_000,
    ensures
        5 <= v.log_rows_in(available) <= available - 6,
        24 <= v.detail_cols_in(available) <= available - 40,
        4 <= v.detail_rows_in(available) <= available - 6,
        v.log_rows matches Some(n) ==> 5 <= n <= available - 6 ==> v.log_rows_in(available) == n,
        v.detail_cols matches Some(n) ==> 24 <= n <= available - 40 ==> v.detail_cols_in(available)
            == n,
        v.detail_rows matches Some(n) ==> 4 <= n <= available - 6 ==> v.detail_rows_in(available)
            == n,
        v.log_rows is None ==> v.log_rows_in(available) == available / 5 * 2,
        v.detail_rows is None ==> v.detail_rows_in(available) == available * 45 / 100,
        v.detail_cols is None && available >= 66 ==> v.detail_cols_in(available) == available * 38
            / 100,
{
}

/// The header is on top and the footer at the bottom, each over the whole width. What is
/// wrong with the daemon is said in a line below the header, while something is.
pub proof fn the_body_lies_between_header_and_footer(v: AppState, area: Rect)
    requires
        area.on_screen(),
        !too_small(area),
    ensures
        ({
            let p = v.places(area);
            &&& p.header.y == area.y && p.header.height == 3 && p.header.x == area.x
            &&& p.header.width == area.width
            &&& p.footer.y + 1 == area.y + area.height && p.footer.height == 1
            &&& p.footer.x == area.x && p.footer.width == area.width
            &&& p.banner is Some <==> v.daemon_error is Some
            &&& p.banner matches Some(b) ==> b.y == area.y + 3 && b.height == 1
            &&& p.list.x == area.x
            &&& v.daemon_error is None ==> p.list.y == area.y + 3
            &&& v.daemon_error is Some ==> p.list.y == area.y + 4
        }),
{
    reveal(AppState::logs_sized);
    reveal(AppState::list_and_detail);
}

/// The log pane is there on the containers tab, unless it is hidden: below the list, over
/// the whole width, down to the footer.
pub proof fn the_logs_lie_below(v: AppState, area: Rect)
    requires
        area.on_screen(),
        !too_small(area),
    ensures
        ({
            let p = v.places(area);
            &&& p.logs is Some <==> v.tab == Tab::Containers && v.show_logs
            &&& p.logs matches Some(logs) ==> {
                &&& logs.x == area.x && logs.width == area.width
                &&& logs.y + logs.height == p.footer.y
                &&& p.list.y + p.list.height <= logs.y
            }
        }),
{
    reveal(AppState::logs_sized);
    reveal(AppState::list_and_detail);
}

/// The details are there unless they are hidden or the screen is narrower than sixty
/// cells: beside the list from ninety-six cells on, and below it otherwise.
pub proof fn the_details_lie_beside_or_below(v: AppState, area: Rect)
    requires
        area.on_screen(),
        !too_small(area),
    ensures
        ({
            let p = v.places(area);
            &&& p.detail is Some <==> v.show_detail && area.width >= 60
            &&& p.detail matches Some((detail, beside)) ==> {
                &&& beside <==> area.width >= 96
                &&& beside ==> detail.x == p.list.x + p.list.width && detail.y == p.list.y
                    && detail.height == p.list.height && p.list.width + detail.width == area.width
                &&& !beside ==> detail.y == p.list.y + p.list.height && detail.x == p.list.x
                    && detail.width == area.width && p.list.width == area.width
            }
        }),
{
    reveal(AppState::logs_sized);
    reveal(AppState::list_and_detail);
}

/// A terminal narrower than thirty cells or lower than eight is too small, and no other.
pub proof fn small_terminals_are_told(area: Rect)
    ensures
        too_small(area) <==> area.width < 30 || area.height < 8,
{
}

/// The boundary of a pane can be grabbed on either side of it: on the pane's own edge and
/// on the line before, and nowhere else.
pub proof fn boundaries_are_where_the_panes_meet(pane: Rect, at: Position)
    requires
        pane.on_screen(),
        pane.x > 0,
        pane.y > 0,
        pane.width >= 1,
        pane.height >= 1,
    ensures
        row_grip(pane).holds(at) <==> (at.y == pane.y || at.y + 1 == pane.y) && pane.x <= at.x
            < pane.x + pane.width,
        column_grip(pane).holds(at) <==> (at.x == pane.x || at.x + 1 == pane.x) && pane.y <= at.y
            < pane.y + pane.height,
{
}

/// What a frame notes of its panes is where they are, each with its own boundary.
pub proof fn panes_are_hit_where_they_are_drawn(v: AppState, area: Rect)
    ensures
        ({
            let p = v.places(area);
            let w = v.panes_drawn(p);
            &&& p.logs matches Some(logs) ==> w.hits.logs == Some(logs) && w.hits.splitters.contains(
                (row_grip(logs), Splitter::Logs),
            )
            &&& p.detail matches Some((detail, beside)) ==> w.hits.detail == Some(detail)
            &&& p.detail matches Some((detail, beside)) ==> beside
                ==> w.hits.splitters.contains((column_grip(detail), Splitter::DetailSide))
            &&& p.detail matches Some((detail, beside)) ==> !beside
                ==> w.hits.splitters.contains((row_grip(detail), Splitter::DetailBelow))
        }),
{
    reveal(AppState::panes_drawn);
    reveal(AppState::header_drawn);
    let p = v.places(area);
    let w = v.panes_drawn(p);
    let n = v.hits.splitters.len() as int;
    if p.detail is Some {
        assert(w.hits.splitters[n] == v.header_drawn(p.header).detail_noted(
            p,
        ).hits.splitters[n]);
        if p.logs is Some {
            assert(w.hits.splitters[n + 1] == (row_grip(p.logs->0), Splitter::Logs));
        }
    } else if p.logs is Some {
        assert(w.hits.splitters[n] == (row_grip(p.logs->0), Splitter::Logs));
    }
}

/// Of several regions, the first that holds a position is the one that is hit; where
/// none does, none is.
pub proof fn the_first_region_is_hit<T>(regions: Seq<(Rect, T)>, at: Position, from: int)
    requires
        0 <= from <= regions.len(),
    ensures
        first_hit(regions, at, from) matches Some(found) ==> exists|k: int|
            from <= k < regions.len() && (#[trigger] regions[k]).0.holds(at) && regions[k].1
                == found && forall|j: int|
                from <= j < k ==> !(#[trigger] regions[j]).0.holds(at),
        first_hit(regions, at, from) is None <==> forall|k: int|
            from <= k < regions.len() ==> !(#[trigger] regions[k]).0.holds(at),
    decreases regions.len() - from,
{
    if from < regions.len() {
        the_first_region_is_hit(regions, at, from + 1);
        if regions[from].0.holds(at) {
            assert(regions[from].1 == first_hit(regions, at, from)->0);
        }
    }
}

// ---------------------------------------------------------------------------
// What lies in front
// ---------------------------------------------------------------------------

/// What lies in front of the panes is what the mode is about, and nothing lies there
/// while lists are browsed or filtered.
pub proof fn the_mode_is_in_front(v: AppState, area: Rect, job: JobView)
    ensures
        v.mode == Mode::Help ==> v.overlaid(area) == v.help_overlay(area),
        v.mode == Mode::Palette ==> v.overlaid(area) == v.palette_overlay(area),
        v.mode == Mode::Confirm && v.confirm == Some(job) ==> v.overlaid(area)
            == v.confirm_overlay(job, area),
        v.mode == Mode::Normal || v.mode == Mode::Filter ==> v.overlaid(area).len() == 0,
{
    reveal(AppState::overlaid);
}

/// A question is put in the job's own words. Its buttons are hit where they are drawn,
/// side by side: yes to the left and no to the right of it, two cells apart.
pub proof fn questions_are_hit_where_they_are_drawn(v: AppState, job: JobView, area: Rect)
    requires
        v.confirm == Some(job),
        area.on_screen(),
        buttons(area) is Some,
    ensures
        ({
            let paints = v.confirm_overlay(job, area);
            let w = v.confirm_drawn(area);
            &&& paints.len() == 5
            &&& paints[1].widget matches WidgetView::Block(b) && b.titles[0].spans[1].text
                == prompt_of(job).0
            &&& paints[2].widget matches WidgetView::Text { lines, .. } && lines[1].spans[0].text
                == prompt_of(job).1
            &&& paints[3].widget matches WidgetView::Text { lines, .. } && lines[0].spans[0].text
                == yes_text()
            &&& paints[4].widget matches WidgetView::Text { lines, .. } && lines[0].spans[0].text
                == no_text()
            &&& w.hits.confirm_yes == Some(paints[3].area)
            &&& w.hits.confirm_no == Some(paints[4].area)
            &&& w.hits.modal == Some(confirm_area(area))
            &&& paints[3].area.y == paints[4].area.y
            &&& paints[3].area.x + paints[3].area.width + 2 == paints[4].area.x
        }),
{
    reveal(AppState::confirm_overlay);
    reveal(AppState::confirm_drawn);
}

/// Each line of the palette names the command that choosing it runs, and is hit where it
/// is drawn; the one under the cursor, and no other, is picked out.
pub proof fn the_palette_is_hit_where_it_is_drawn(v: AppState, list: Rect, j: int)
    requires
        0 <= j < v.palette_shown(list.height),
        list.y + list.height <= u16::MAX,
    ensures
        v.palette_entries(list).len() == v.palette_targets(list).len(),
        ({
            let entry = v.palette_entries(list)[j];
            let target = v.palette_targets(list)[j];
            let command = command_table()[target.1 as int];
            let position = v.palette_start(list.height) + j;
            &&& entry.spans[1].text == pad_right(name_of(command), 28)
            &&& entry.spans[3].text == v.cut(help_of(command), minus(list.width, 42) as nat)
            &&& target.0.y == list.y + j && target.0.height == 1 && target.0.x == list.x
                && target.0.width == list.width
            &&& position == v.palette_cursor ==> entry.style == filled(v.theme.selection)
                && entry.spans[0].text == " "@ + v.symbols.arrow_right + " "@
            &&& position != v.palette_cursor ==> entry.style == plain() && entry.spans[0].text
                == "   "@
        }),
{
    assert(v.palette_shown(list.height) <= list.height);
}

/// The messages shown are the newest. Each says its own text, marked by whether it is a
/// success, an error or neither, and closing it where it is drawn closes that message.
pub proof fn messages_are_hit_where_they_are_drawn(v: AppState, area: Rect, n: int, k: int)
    requires
        0 <= n <= v.toast_count(),
        0 <= k < v.toast_targets(area, n).len(),
        v.toasts.len() <= usize::MAX,
    ensures
        v.toast_targets(area, n)[k].1 < v.toasts.len(),
        exists|row: int|
            0 <= row < n && v.toast_targets(area, n)[k].0 == #[trigger] v.toast_area(area, row)
                && v.toasts[v.toast_targets(area, n)[k].1 as int] == v.toast_at(row),
    decreases n,
{
    let low = v.toast_targets(area, n - 1);
    let all = v.toast_targets(area, n);
    if k < low.len() {
        messages_are_hit_where_they_are_drawn(v, area, n - 1, k);
        assert(all[k] == low[k]);
        let row = choose|row: int|
            0 <= row < n - 1 && low[k].0 == #[trigger] v.toast_area(area, row)
                && v.toasts[low[k].1 as int] == v.toast_at(row);
        assert(all[k].0 == v.toast_area(area, row));
    } else {
        assert(all[k].0 == v.toast_area(area, n - 1));
    }
}

/// A message is marked by its kind, and the newest one is at the bottom, just above the
/// footer.
pub proof fn messages_show_their_kind(v: AppState, area: Rect, row: int)
    requires
        0 <= row < v.toast_count(),
        area.on_screen(),
        area.height >= 8,
    ensures
        v.toast_paint(area, row)[1].widget matches WidgetView::Text { lines, .. } && ({
            let mark = lines[0].spans[0];
            &&& lines[0].spans[1].text == v.toast_text(area, row)
            &&& v.toast_at(row).kind == ToastKind::Error ==> mark.text == " "@ + v.symbols.cross
                + " "@ && mark.ink == crate::ui::screen::InkView::Theme(strong(v.theme.danger))
            &&& v.toast_at(row).kind == ToastKind::Success ==> mark.text == " "@ + v.symbols.check
                + " "@ && mark.ink == crate::ui::screen::InkView::Theme(strong(v.theme.success))
        }),
        v.toast_at(v.toast_count() - 1) == v.toasts.last(),
        v.toast_area(area, v.toast_count() - 1).y + 2 == area.y + area.height,
{
}

// ---------------------------------------------------------------------------
// The bottom line
// ---------------------------------------------------------------------------

/// The bar offers what would do something: starting to what is down, stopping to what is
/// up, and what is about containers on their tab only.
pub proof fn the_bar_offers_what_works(v: AppState, command: Command)
    ensures
        v.container() matches Some(c) ==> c.state.live() ==> !v.offers(Command::Start),
        v.container() matches Some(c) ==> !c.state.live() ==> !v.offers(Command::Stop),
        scope_of(command) == Scope::Containers && v.tab != Tab::Containers ==> !v.offers(command),
        v.tab == Tab::Containers && (v.container() matches Some(c) && c.state.live()) ==> v.offers(
            Command::Stop,
        ),
        v.tab == Tab::Containers && (v.container() matches Some(c) && !c.state.live())
            ==> v.offers(Command::Start),
{
}

/// While a filter is typed the bottom line shows it, with how many rows it leaves.
pub proof fn the_prompt_shows_what_was_typed(v: AppState)
    ensures
        v.prompt_spans()[1].text == v.filter.at(v.tab).value,
        v.rows().len() == 1 ==> v.prompt_spans()[3].text == "   "@ + dec(1) + " match"@,
        v.rows().len() != 1 ==> v.prompt_spans()[3].text == "   "@ + dec(v.rows().len())
            + " matches"@,
{
}

/// The labels that depend on what is on screen say what the key would do next.
pub proof fn labels_say_what_comes_next(v: AppState)
    ensures
        v.show_detail ==> v.short_label_of(Command::ToggleDetail) == "hide details"@,
        !v.show_detail ==> v.short_label_of(Command::ToggleDetail) == "details"@,
        v.show_logs ==> v.short_label_of(Command::ToggleLogs) == "hide logs"@,
        !v.show_logs ==> v.short_label_of(Command::ToggleLogs) == "logs"@,
        v.grouping() ==> v.short_label_of(Command::ToggleGroup) == "ungroup"@,
        !v.grouping() ==> v.short_label_of(Command::ToggleGroup) == "group"@,
{
}

} // verus!
