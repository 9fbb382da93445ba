//! What the mouse comes to, in terms of what the last frame drew where.

use vstd::prelude::*;

use crate::action::command_table;
use crate::app::acting::{rebuilding_keeps, rows_have_groups, selects, setting_selects};
use crate::app::hits::{first_hit, hits};
use crate::app::mouse::{MouseButton, MouseEvent, MouseEventKind};
use crate::app::state::{group_by_key, AppState};
use crate::app::{cycle_of, Focus, Mode, Sort, Splitter, Tab, ViewRow};
use crate::geometry::{Position, Rect};
use crate::ui::screen::ColView;

verus! {

broadcast use vstd::string::group_string_axioms;

/// The left button pressed somewhere.
pub open spec fn press(at: Position) -> MouseEvent {
    MouseEvent { kind: MouseEventKind::Down(MouseButton::Left), column: at.x, row: at.y }
}

impl AppState {
    /// Whether nothing lies in front of the lists.
    pub open spec fn lists_in_front(self) -> bool {
        self.mode == Mode::Normal || self.mode == Mode::Filter
    }

    /// Whether the last frame drew nothing at `at` that takes a click before the body of
    /// the list does.
    pub open spec fn only_the_list_at(self, at: Position) -> bool {
        &&& first_hit(self.hits.toasts, at, 0) is None
        &&& first_hit(self.hits.tabs, at, 0) is None
        &&& first_hit(self.hits.list_headers, at, 0) is None
        &&& first_hit(self.hits.splitters, at, 0) is None
        &&& !hits(self.hits.logs, at)
    }
}

// ---------------------------------------------------------------------------
// Clicks
// ---------------------------------------------------------------------------

/// A click on the body of the list selects the row that the last frame drew there: where
/// it drew the table in `area` from row `offset` on, under a header of one line, a click
/// `k` lines below the header puts the cursor on row `offset + k`. The list is focused by
/// it; and on the header of a stack it folds or unfolds that stack and no other.
pub proof fn clicks_select_what_was_drawn_there(
    v: AppState,
    area: Rect,
    cols: Seq<ColView>,
    widths: Seq<u16>,
    offset: usize,
    x: u16,
    k: int,
    now: u64,
)
    requires
        v.table_recorded(area, cols, widths, offset).wf(),
        v.table_recorded(area, cols, widths, offset).lists_in_front(),
        area.on_screen(),
        area.x <= x < area.x + area.width,
        0 <= k,
        k + 1 < area.height,
        offset + k < v.rows().len(),
        v.table_recorded(area, cols, widths, offset).only_the_list_at(
            Position { x, y: (area.y + 1 + k) as u16 },
        ),
        v.rows()[offset + k] is Group ==> v.grouping(),
    ensures
        ({
            let drawn = v.table_recorded(area, cols, widths, offset);
            let at = Position { x, y: (area.y + 1 + k) as u16 };
            let after = drawn.moused(press(at), now);
            &&& after.focus == Focus::List
            &&& v.rows()[offset + k] is Item ==> selects(v, after, offset + k)
            &&& v.rows()[offset + k] matches ViewRow::Group(g) ==> {
                let key = v.groups[g as int].key;
                &&& after.collapsed.contains(key) != v.collapsed.contains(key)
                &&& forall|other: Seq<char>|
                    other != key ==> after.collapsed.contains(other) == #[trigger]
                        v.collapsed.contains(other)
            }
        }),
{
    let drawn = v.table_recorded(area, cols, widths, offset);
    reveal(AppState::table_recorded);
    let at = Position { x, y: (area.y + 1 + k) as u16 };
    body_clicked(drawn, drawn.hits.list_body->0, at, offset + k, now);
}

proof fn body_clicked(w: AppState, body: Rect, at: Position, row: int, now: u64)
    requires
        w.wf(),
        w.lists_in_front(),
        w.only_the_list_at(at),
        w.hits.list_body == Some(body),
        body.holds(at),
        row == w.hits.list_offset + (at.y - body.y),
        row < w.rows().len(),
        w.rows()[row] is Group ==> w.grouping(),
    ensures
        ({
            let after = w.moused(press(at), now);
            &&& after.focus == Focus::List
            &&& w.rows()[row] is Item ==> selects(w, after, row)
            &&& w.rows()[row] matches ViewRow::Group(g) ==> {
                let key = w.groups[g as int].key;
                &&& after.collapsed.contains(key) != w.collapsed.contains(key)
                &&& forall|other: Seq<char>|
                    other != key ==> after.collapsed.contains(other) == #[trigger]
                        w.collapsed.contains(other)
            }
            &&& w.rows()[row] is Item ==> after.show_detail == (w.show_detail
                != w.clicked_before(at, now))
        }),
{
    let noted = w.focused(Focus::List).click_noted(at, now);
    let moved = noted.cursor_set(row, now);
    assert(w.moused(press(at), now) == w.list_clicked(body, at, now).woken()) by {
        reveal(AppState::moused);
        reveal(AppState::clicked);
        reveal(AppState::panes_clicked);
    }
    assert(noted == (AppState { focus: Focus::List, last_click: Some((now, at)), ..w })) by {
        reveal(AppState::focused);
        reveal(AppState::click_noted);
    }
    assert(w.list_clicked(body, at, now) == match w.rows()[row] {
        ViewRow::Group(_) => moved.collapse_toggled(),
        ViewRow::Item(_) => if w.clicked_before(at, now) {
            moved.detail_turned()
        } else {
            moved
        },
    }) by {
        reveal(AppState::list_clicked);
    }
    rows_have_groups(w, row);
    setting_selects(noted, row, now);
    match w.rows()[row] {
        ViewRow::Group(g) => {
            stack_toggled(moved, g as int);
            reveal(AppState::woken);
        },
        ViewRow::Item(i) => {
            reveal(AppState::detail_turned);
            reveal(AppState::woken);
        },
    }
}

proof fn stack_toggled(v: AppState, g: int)
    requires
        0 <= g < v.groups.len(),
        v.grouping(),
        v.selected_group == Some(v.groups[g].key),
    ensures
        ({
            let after = v.collapse_toggled();
            let key = v.groups[g].key;
            &&& after.focus == v.focus
            &&& after.collapsed.contains(key) != v.collapsed.contains(key)
            &&& forall|other: Seq<char>|
                other != key ==> after.collapsed.contains(other) == #[trigger] v.collapsed.contains(
                    other,
                )
        }),
{
    reveal(AppState::collapse_toggled);
    let key = v.groups[g].key;
    group_is_found(v.groups, g);
    let folded = AppState {
        collapsed: if v.collapsed.contains(key) {
            v.collapsed.remove(key)
        } else {
            v.collapsed.insert(key)
        },
        selected_group: Some(key),
        ..v
    };
    rebuilding_keeps(folded, Tab::Containers);
}

pub(crate) proof fn group_is_found(groups: Seq<crate::app::GroupView>, g: int)
    requires
        0 <= g < groups.len(),
    ensures
        group_by_key(groups, groups[g].key) matches Some(found) && found.key == groups[g].key,
    decreases groups.len(),
{
    if groups[0].key != groups[g].key {
        assert(groups.drop_first()[g - 1] == groups[g]);
        group_is_found(groups.drop_first(), g - 1);
    }
}

/// Clicking a row again at the same place, soon enough, opens or closes the details;
/// a first click does not.
pub proof fn double_clicks_turn_the_details(v: AppState, at: Position, row: int, now: u64)
    requires
        v.wf(),
        v.lists_in_front(),
        v.only_the_list_at(at),
        v.hits.list_body matches Some(body) && body.holds(at) && row == v.hits.list_offset + (at.y
            - body.y),
        row < v.rows().len(),
        v.rows()[row] is Item,
    ensures
        v.last_click matches Some((when, place)) && place == at && when <= now && now - when
            < 400 ==> v.moused(press(at), now).show_detail != v.show_detail,
        v.last_click is None ==> v.moused(press(at), now).show_detail == v.show_detail,
        v.last_click matches Some((when, place)) && (place != at || now >= when + 400)
            ==> v.moused(press(at), now).show_detail == v.show_detail,
{
    body_clicked(v, v.hits.list_body->0, at, row, now);
}

/// A click below the last row moves nothing.
pub proof fn clicks_below_the_rows_move_nothing(v: AppState, at: Position, now: u64)
    requires
        v.lists_in_front(),
        v.only_the_list_at(at),
        v.hits.list_body matches Some(body) && body.holds(at) && v.hits.list_offset + (at.y - body.y)
            >= v.rows().len(),
    ensures
        v.moused(press(at), now).selected == v.selected,
        v.moused(press(at), now).selected_group == v.selected_group,
        v.moused(press(at), now).focus == Focus::List,
{
    reveal(AppState::moused);
    reveal(AppState::clicked);
    reveal(AppState::panes_clicked);
    reveal(AppState::list_clicked);
    reveal(AppState::focused);
    reveal(AppState::woken);
}

/// A click on a tab goes to it.
pub proof fn clicks_on_tabs_go_there(v: AppState, at: Position, tab: Tab, now: u64)
    requires
        v.lists_in_front(),
        first_hit(v.hits.toasts, at, 0) is None,
        first_hit(v.hits.tabs, at, 0) == Some(tab),
    ensures
        v.moused(press(at), now).tab == tab,
{
    reveal(AppState::moused);
    reveal(AppState::clicked);
    reveal(AppState::panes_clicked);
    reveal(AppState::tab_set);
    reveal(AppState::with_selection);
    reveal(AppState::logs_synced);
    reveal(AppState::woken);
}

proof fn place_is_found(cycle: Seq<Sort>, sort: Sort, i: int)
    requires
        0 <= i,
    ensures
        match crate::app::mouse::sort_place(cycle, sort, i) {
            Some(p) => i <= p < cycle.len() && cycle[p] == sort,
            None => forall|k: int| i <= k < cycle.len() ==> #[trigger] cycle[k] != sort,
        },
    decreases cycle.len() - i,
{
    if i < cycle.len() && cycle[i] != sort {
        place_is_found(cycle, sort, i + 1);
    }
}

/// A click on the header of a column that the tab can be sorted by sorts by it, in its
/// own direction; where it is sorted by it already, the direction turns.
pub proof fn clicks_on_headers_sort(v: AppState, at: Position, sort: Sort, now: u64)
    requires
        v.wf(),
        v.lists_in_front(),
        first_hit(v.hits.toasts, at, 0) is None,
        first_hit(v.hits.tabs, at, 0) is None,
        first_hit(v.hits.list_headers, at, 0) == Some(sort),
        cycle_of(v.tab).contains(sort),
    ensures
        v.moused(press(at), now).tab == v.tab,
        v.moused(press(at), now).sort_of(v.tab) == sort,
        v.sort_of(v.tab) != sort ==> !v.moused(press(at), now).sort_reverse.at(v.tab),
        v.sort_of(v.tab) == sort ==> v.moused(press(at), now).sort_reverse.at(v.tab)
            != v.sort_reverse.at(v.tab),
{
    reveal(AppState::moused);
    reveal(AppState::clicked);
    reveal(AppState::panes_clicked);
    reveal(AppState::sort_picked);
    reveal(AppState::sort_turned);
    reveal(AppState::woken);
    let cycle = cycle_of(v.tab);
    place_is_found(cycle, sort, 0);
    let k = choose|k: int| 0 <= k < cycle.len() && cycle[k] == sort;
    let p = crate::app::mouse::sort_place(cycle, sort, 0)->0;
    crate::app::acting::columns_on_offer(v.tab, sort);
    assert(v.sort_index.at(v.tab) < cycle.len()) by {
        reveal(AppState::wf);
    }
    rebuilding_keeps(
        AppState {
            sort_index: v.sort_index.with(v.tab, p as usize),
            sort_reverse: v.sort_reverse.with(v.tab, false),
            ..v
        },
        v.tab,
    );
    rebuilding_keeps(
        AppState { sort_reverse: v.sort_reverse.with(v.tab, !v.sort_reverse.at(v.tab)), ..v },
        v.tab,
    );
}

/// A click in the log pane focuses it, and one on a message takes that message away and
/// leaves the others in order.
pub proof fn clicks_focus_and_dismiss(v: AppState, at: Position, index: usize, now: u64)
    requires
        v.lists_in_front(),
    ensures
        first_hit(v.hits.toasts, at, 0) is None && first_hit(v.hits.tabs, at, 0) is None
            && first_hit(v.hits.list_headers, at, 0) is None && first_hit(v.hits.splitters, at, 0)
            is None && hits(v.hits.logs, at) ==> v.moused(press(at), now).focus == Focus::Logs,
        first_hit(v.hits.toasts, at, 0) == Some(index) && index < v.toasts.len() ==> ({
            let after = v.moused(press(at), now).toasts;
            &&& after.len() == v.toasts.len() - 1
            &&& forall|i: int| 0 <= i < index ==> #[trigger] after[i] == v.toasts[i]
            &&& forall|i: int| index <= i < after.len() ==> #[trigger] after[i] == v.toasts[i + 1]
        }),
{
    reveal(AppState::moused);
    reveal(AppState::clicked);
    reveal(AppState::panes_clicked);
    reveal(AppState::focused);
    reveal(AppState::toast_dismissed);
    reveal(AppState::woken);
}

// ---------------------------------------------------------------------------
// Dialogs
// ---------------------------------------------------------------------------

/// A click on yes is a yes; a click on the other button or outside the dialog is a no;
/// one elsewhere in the dialog is neither.
pub proof fn clicks_answer_questions(v: AppState, at: Position, now: u64)
    requires
        v.mode == Mode::Confirm,
    ensures
        hits(v.hits.confirm_yes, at) ==> v.moused(press(at), now) == v.confirm_accepted().woken(),
        !hits(v.hits.confirm_yes, at) && (hits(v.hits.confirm_no, at) || !hits(v.hits.modal, at))
            ==> v.moused(press(at), now).confirm is None && v.moused(press(at), now).mode
            == Mode::Normal && v.moused(press(at), now).effects == v.effects,
        !hits(v.hits.confirm_yes, at) && !hits(v.hits.confirm_no, at) && hits(v.hits.modal, at)
            ==> v.moused(press(at), now) == v.woken(),
{
    reveal(AppState::moused);
    reveal(AppState::clicked);
    reveal(AppState::confirm_clicked);
    reveal(AppState::confirm_cancelled);
    reveal(AppState::woken);
}

/// A click on an entry of the palette carries out that entry's command, and one outside
/// the palette closes it without carrying out anything.
pub proof fn clicks_choose_from_the_palette(v: AppState, at: Position, line: usize, now: u64)
    requires
        v.mode == Mode::Palette,
    ensures
        first_hit(v.hits.palette_rows, at, 0) == Some(line) ==> v.moused(press(at), now) == (
        AppState {
            palette_input: crate::app::input::blank(),
            palette_cursor: 0,
            mode: Mode::Normal,
            ..v
        }).ran(command_table()[line as int], now).woken(),
        first_hit(v.hits.palette_rows, at, 0) is None && !hits(v.hits.modal, at) ==> v.moused(
            press(at),
            now,
        ).mode == Mode::Normal && v.moused(press(at), now).effects == v.effects,
{
    reveal(AppState::moused);
    reveal(AppState::clicked);
    reveal(AppState::palette_clicked);
    reveal(AppState::palette_left_alone);
    reveal(AppState::woken);
}

// ---------------------------------------------------------------------------
// Dragging
// ---------------------------------------------------------------------------

/// Pressing a boundary takes hold of it, and letting go ends that; pressing it twice
/// puts the pane back to its own size.
pub proof fn boundaries_are_held(v: AppState, at: Position, splitter: Splitter, now: u64)
    requires
        v.lists_in_front(),
        first_hit(v.hits.toasts, at, 0) is None,
        first_hit(v.hits.tabs, at, 0) is None,
        first_hit(v.hits.list_headers, at, 0) is None,
        first_hit(v.hits.splitters, at, 0) == Some(splitter),
    ensures
        v.last_click is None ==> v.moused(press(at), now).drag == Some(splitter) && v.moused(
            press(at),
            now,
        ).log_rows == v.log_rows,
        v.last_click == Some((now, at)) ==> match splitter {
            Splitter::Logs => v.moused(press(at), now).log_rows is None,
            Splitter::DetailSide => v.moused(press(at), now).detail_cols is None,
            Splitter::DetailBelow => v.moused(press(at), now).detail_rows is None,
        },
        v.moused(
            MouseEvent { kind: MouseEventKind::Up(MouseButton::Left), column: at.x, row: at.y },
            now,
        ).drag is None,
{
    reveal(AppState::moused);
    reveal(AppState::clicked);
    reveal(AppState::panes_clicked);
    reveal(AppState::splitter_pressed);
    reveal(AppState::click_noted);
    reveal(AppState::pane_reset);
    reveal(AppState::held);
    reveal(AppState::woken);
}

/// Dragging a boundary puts that edge of the pane under the pointer: the far edge stays
/// where it was drawn.
pub proof fn boundaries_follow_the_pointer(v: AppState, at: Position, now: u64)
    ensures
        ({
            let after = v.moused(
                MouseEvent { kind: MouseEventKind::Drag(MouseButton::Left), column: at.x, row: at.y },
                now,
            );
            &&& v.drag == Some(Splitter::Logs) ==> (v.hits.logs matches Some(pane) ==> (
            pane.on_screen() && at.y <= pane.y + pane.height ==> (after.log_rows matches Some(rows)
                && at.y + rows == pane.y + pane.height)))
            &&& v.drag == Some(Splitter::DetailSide) ==> (v.hits.detail matches Some(pane) ==> (
            pane.on_screen() && at.x <= pane.x + pane.width ==> (after.detail_cols matches Some(
                cols,
            ) && at.x + cols == pane.x + pane.width)))
            &&& v.drag == Some(Splitter::DetailBelow) ==> (v.hits.detail matches Some(pane) ==> (
            pane.on_screen() && at.y <= pane.y + pane.height ==> (after.detail_rows matches Some(
                rows,
            ) && at.y + rows == pane.y + pane.height)))
            &&& v.drag is None ==> after == v.woken()
        }),
{
    reveal(AppState::moused);
    reveal(AppState::dragged);
    reveal(AppState::woken);
}

// ---------------------------------------------------------------------------
// The wheel
// ---------------------------------------------------------------------------

/// The wheel turned up over the log pane goes back to older lines, turned down it comes
/// forward to newer ones, three at a time; and turning it back undoes it.
pub proof fn the_wheel_scrolls_the_logs(v: AppState, at: Position, now: u64)
    requires
        v.lists_in_front(),
        hits(v.hits.logs, at),
        v.logs.scroll <= v.logs.lines.len(),
    ensures
        ({
            let up = v.moused(
                MouseEvent { kind: MouseEventKind::ScrollUp, column: at.x, row: at.y },
                now,
            );
            let down = v.moused(
                MouseEvent { kind: MouseEventKind::ScrollDown, column: at.x, row: at.y },
                now,
            );
            &&& v.logs.scroll + 3 <= v.logs.lines.len() ==> up.logs.scroll == v.logs.scroll + 3
                && !up.logs.follow
            &&& v.logs.scroll + 3 > v.logs.lines.len() ==> up.logs.scroll == v.logs.lines.len()
            &&& v.logs.scroll >= 3 ==> down.logs.scroll == v.logs.scroll - 3
            &&& v.logs.scroll <= 3 ==> down.logs.scroll == 0 && down.logs.follow
            &&& up.selected == v.selected && down.selected == v.selected
            &&& up.logs.lines == v.logs.lines && down.logs.lines == v.logs.lines
        }),
{
    reveal(AppState::moused);
    reveal(AppState::wheeled);
    reveal(AppState::logs_scrolled);
    reveal(AppState::woken);
}

/// The wheel turned down over the rest of the screen moves the cursor down the list,
/// turned up it moves it up, three rows at a time, as far as there are rows.
pub proof fn the_wheel_moves_the_cursor(v: AppState, at: Position, k: int, now: u64)
    requires
        v.wf(),
        v.lists_in_front(),
        !hits(v.hits.logs, at),
        v.cursor_from(0) == Some(k),
        0 <= k < v.rows().len(),
    ensures
        ({
            let up = v.moused(
                MouseEvent { kind: MouseEventKind::ScrollUp, column: at.x, row: at.y },
                now,
            );
            let down = v.moused(
                MouseEvent { kind: MouseEventKind::ScrollDown, column: at.x, row: at.y },
                now,
            );
            &&& k + 3 < v.rows().len() ==> selects(v, down, k + 3)
            &&& k + 3 >= v.rows().len() ==> selects(v, down, v.rows().len() - 1)
            &&& k >= 3 ==> selects(v, up, k - 3)
            &&& k < 3 ==> selects(v, up, 0)
        }),
{
    reveal(AppState::moused);
    reveal(AppState::wheeled);
    reveal(AppState::selection_moved);
    reveal(AppState::woken);
    let last = v.rows().len() - 1;
    let rows = seq![k + 3, k - 3, 0, last];
    assert forall|j: int| 0 <= j < rows.len() && 0 <= #[trigger] rows[j] <= last implies selects(
        v,
        v.cursor_set(rows[j], now),
        rows[j],
    ) by {
        rows_have_groups(v, rows[j]);
        setting_selects(v, rows[j], now);
    }
    assert(rows[0] == k + 3 && rows[1] == k - 3 && rows[2] == 0 && rows[3] == last);
}

/// Over the palette the wheel moves its cursor, one line at a time in the wheel's own
/// direction, as far as there are lines.
pub proof fn the_wheel_moves_through_the_palette(v: AppState, at: Position, now: u64)
    requires
        v.mode == Mode::Palette,
        v.palette_cursor < crate::app::palette::palette_for(v.palette_input.value).len(),
        v.palette_cursor < usize::MAX,
    ensures
        ({
            let up = v.moused(
                MouseEvent { kind: MouseEventKind::ScrollUp, column: at.x, row: at.y },
                now,
            );
            let down = v.moused(
                MouseEvent { kind: MouseEventKind::ScrollDown, column: at.x, row: at.y },
                now,
            );
            let len = crate::app::palette::palette_for(v.palette_input.value).len();
            &&& v.palette_cursor + 1 < len ==> down.palette_cursor == v.palette_cursor + 1
            &&& v.palette_cursor + 1 == len ==> down.palette_cursor == v.palette_cursor
            &&& v.palette_cursor > 0 ==> up.palette_cursor == v.palette_cursor - 1
            &&& v.palette_cursor == 0 ==> up.palette_cursor == 0
            &&& up.mode == v.mode && down.mode == v.mode
        }),
{
    reveal(AppState::moused);
    reveal(AppState::wheeled);
    reveal(AppState::palette_wheeled);
    reveal(AppState::woken);
}

/// The other buttons, and moving about, do nothing.
pub proof fn other_buttons_do_nothing(v: AppState, ev: MouseEvent, now: u64)
    requires
        match ev.kind {
            MouseEventKind::Down(b) | MouseEventKind::Up(b) | MouseEventKind::Drag(b) => b
                != MouseButton::Left,
            MouseEventKind::Moved
            | MouseEventKind::ScrollLeft
            | MouseEventKind::ScrollRight => true,
            _ => false,
        },
    ensures
        v.moused(ev, now) == v,
{
    reveal(AppState::moused);
}

} // verus!
