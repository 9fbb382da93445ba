//! What the reducer promises as a whole.

use vstd::prelude::*;

use crate::action::{Command, KeyEvent, KeyEventKind};
use crate::app::commands::with_toast;
use crate::app::events::live_ids;
use crate::app::grouping::{item_rows, key_of, rows_are_the_unfolded_items, rows_of, stacks};
use crate::app::hits::hits;
use crate::app::input::{blank, Edit};
use crate::app::mouse::MouseEvent;
use crate::app::run::needs_container;
use crate::app::state::{group_by_key, AppState, EffectView, LogView};
use crate::app::tick::elapsed;
use crate::app::{
    tab_at, Focus, GroupView, Mode, Sort, Tab, ToastKind, ToastView, ViewRow, LOG_CAPACITY,
    LOG_DEBOUNCE,
};
use crate::docker::actions::{destructive, JobView};
use crate::docker::logs::LogLineView;
use crate::docker::model::{predefined, ContainerView};
use crate::docker::refresh::SnapshotView;
use crate::event::AppEventView;
use crate::geometry::{Position, Rect};
use crate::order::{is_sorted, sorted_by, sorting_keeps_members, sorting_orders};
use crate::util::fuzzy::{match_of, ranking, ranking_is_exact};

verus! {

broadcast use vstd::string::group_string_axioms;

// ---------------------------------------------------------------------------
// Lists
// ---------------------------------------------------------------------------

impl AppState {
    /// Whether a tab's list should have a resource: it is not hidden, and it
    /// matches the filter.
    pub open spec fn wants(self, tab: Tab, i: int) -> bool {
        &&& 0 <= i < self.count(tab)
        &&& tab == Tab::Containers ==> self.show_stopped || self.containers[i].state.live()
        &&& match_of(self.search_key(tab, i), self.filter.at(tab).value) is Some
    }

    /// Whether a resource should have a row of its own: its tab wants it, and
    /// it is not folded away.
    pub open spec fn shows(self, tab: Tab, i: int) -> bool {
        &&& self.wants(tab, i)
        &&& tab == Tab::Containers && self.group_by_stack ==> !self.collapsed.contains(
            key_of(self.containers, i as usize),
        )
    }
}

proof fn shown_are_wanted(v: AppState, n: int, i: usize)
    requires
        0 <= n <= v.containers.len() <= usize::MAX,
    ensures
        v.shown_containers(n).contains(i) <==> i < n && (v.show_stopped
            || v.containers[i as int].state.live()),
    decreases n,
{
    if n > 0 {
        shown_are_wanted(v, n - 1, i);
        let low = v.shown_containers(n - 1);
        let last = (n - 1) as usize;
        if low.contains(i) {
            let k = choose|k: int| 0 <= k < low.len() && low[k] == i;
            assert(low.push(last)[k] == i);
        }
        assert(low.push(last)[low.len() as int] == last);
    }
}

proof fn candidates_are_wanted(v: AppState, tab: Tab, i: usize)
    requires
        v.count(tab) <= usize::MAX,
    ensures
        v.candidates(tab).contains(i) <==> i < v.count(tab) && (tab == Tab::Containers
            ==> v.show_stopped || v.containers[i as int].state.live()),
{
    if tab == Tab::Containers {
        shown_are_wanted(v, v.containers.len() as int, i);
    } else if i < v.count(tab) {
        assert(v.candidates(tab)[i as int] == i);
    }
}

proof fn shown_are_few(v: AppState, n: int)
    requires
        0 <= n,
    ensures
        v.shown_containers(n).len() <= n,
    decreases n,
{
    if n > 0 {
        shown_are_few(v, n - 1);
    }
}

/// A tab lists no more than there is.
pub(crate) proof fn candidates_are_few(v: AppState, tab: Tab)
    ensures
        v.candidates(tab).len() <= v.count(tab),
{
    shown_are_few(v, v.containers.len() as int);
}

/// A tab lists exactly what is not hidden and matches the filter.
pub proof fn lists_are_exact(v: AppState, tab: Tab, i: usize)
    requires
        v.count(tab) <= usize::MAX,
    ensures
        v.listed(tab).contains(i) <==> v.wants(tab, i as int),
{
    reveal(AppState::listed);
    candidates_are_wanted(v, tab, i);
    let cands = v.candidates(tab);
    let needle = v.filter.at(tab).value;
    let listed = v.listed(tab);
    if needle.len() == 0 {
        let order = v.by_column(tab, v.sort_of(tab));
        let sorted = sorted_by(cands, order);
        sorting_keeps_members(cands, order, i);
        if v.sort_reverse.at(tab) {
            if sorted.contains(i) {
                let k = choose|k: int| 0 <= k < sorted.len() && sorted[k] == i;
                assert(listed[sorted.len() - 1 - k] == i);
            }
            if listed.contains(i) {
                let k = choose|k: int| 0 <= k < listed.len() && listed[k] == i;
                assert(sorted[sorted.len() - 1 - k] == i);
            }
        }
    } else {
        shown_are_few(v, v.containers.len() as int);
        let keys = cands.map_values(|c: usize| v.search_key(tab, c as int));
        let ranked = ranking(keys, needle);
        if listed.contains(i) {
            let k = choose|k: int| 0 <= k < listed.len() && listed[k] == i;
            assert(ranked.contains(ranked[k]));
            ranking_is_exact(keys, needle, ranked[k]);
            assert(keys[ranked[k] as int] == v.search_key(tab, i as int));
        }
        if v.wants(tab, i as int) {
            let p = choose|p: int| 0 <= p < cands.len() && cands[p] == i;
            assert(keys[p] == v.search_key(tab, i as int));
            ranking_is_exact(keys, needle, p as usize);
            let k = choose|k: int| 0 <= k < ranked.len() && ranked[k] == p as usize;
            assert(listed[k] == i);
        }
    }
}

/// Without a filter, a list goes by its column, or exactly the other way round
/// when it is reversed.
pub proof fn lists_are_in_order(v: AppState, tab: Tab)
    requires
        v.filter.at(tab).value.len() == 0,
    ensures
        v.listed(tab).len() == v.candidates(tab).len(),
        !v.sort_reverse.at(tab) ==> is_sorted(
            v.listed(tab),
            v.by_column(tab, v.sort_of(tab)),
        ),
        v.sort_reverse.at(tab) ==> is_sorted(
            v.listed(tab).reverse(),
            v.by_column(tab, v.sort_of(tab)),
        ),
{
    reveal(AppState::listed);
    let order = v.by_column(tab, v.sort_of(tab));
    let sorted = sorted_by(v.candidates(tab), order);
    sorting_orders(v.candidates(tab), order);
    assert(sorted.reverse().reverse() =~= sorted);
}

/// A rebuilt tab has a row for exactly what it should show.
pub proof fn rows_are_exact(v: AppState, tab: Tab, i: usize)
    requires
        v.count(tab) <= usize::MAX,
    ensures
        v.rebuilt(tab).views.at(tab).contains(ViewRow::Item(i)) <==> v.shows(tab, i as int),
{
    rebuilt_rows(v, tab);
    reveal(AppState::rows_for);
    lists_are_exact(v, tab, i);
    let listed = v.listed(tab);
    let rows = v.rows_for(tab);
    if tab == Tab::Containers && v.group_by_stack {
        rows_are_the_unfolded_items(v.containers, listed, v.collapsed, i);
    } else {
        if listed.contains(i) {
            let k = choose|k: int| 0 <= k < listed.len() && listed[k] == i;
            assert(rows[k] == ViewRow::Item(i));
        }
        if rows.contains(ViewRow::Item(i)) {
            let k = choose|k: int| 0 <= k < rows.len() && rows[k] == ViewRow::Item(i);
            assert(listed[k] == i);
        }
    }
}

proof fn rebuilt_rows(v: AppState, tab: Tab)
    ensures
        v.rebuilt(tab).views.at(tab) == v.rows_for(tab),
        tab == Tab::Containers ==> v.rebuilt(tab).groups == v.stacks_listed(),
        v.rebuilt(tab).tab == v.tab,
        v.rebuilt(tab).group_by_stack == v.group_by_stack,
        v.rebuilt(tab).collapsed == v.collapsed,
        v.rebuilt(tab).stats == v.stats,
        v.rebuilt(tab).logs == v.logs,
        v.rebuilt(tab).effects == v.effects,
        forall|t: Tab| v.rebuilt(tab).count(t) == #[trigger] v.count(t),
        forall|t: Tab, k: int| v.rebuilt(tab).key_at(t, k) == #[trigger] v.key_at(t, k),
{
    reveal(AppState::rebuilt);
    reveal(AppState::with_selection);
}

// ---------------------------------------------------------------------------
// Selection
// ---------------------------------------------------------------------------

proof fn listing_is_found(v: AppState, id: Seq<char>, k: int, at: int)
    requires
        0 <= k <= at < v.rows().len(),
        v.rows()[at] is Item,
        v.key_at(v.tab, v.rows()[at]->Item_0 as int) == Some(id),
    ensures
        v.lists(id, k),
    decreases at - k,
{
    if k < at {
        listing_is_found(v, id, k + 1, at);
    }
}

proof fn listing_is_somewhere(v: AppState, id: Seq<char>, k: int) -> (at: int)
    requires
        0 <= k,
        v.lists(id, k),
    ensures
        k <= at < v.rows().len(),
        v.rows()[at] is Item,
        v.key_at(v.tab, v.rows()[at]->Item_0 as int) == Some(id),
    decreases v.rows().len() - k,
{
    match v.rows()[k] {
        ViewRow::Item(i) => if v.key_at(v.tab, i as int) == Some(id) {
            k
        } else {
            listing_is_somewhere(v, id, k + 1)
        },
        ViewRow::Group(_) => listing_is_somewhere(v, id, k + 1),
    }
}

proof fn cursor_is_found(v: AppState, k: int, at: int)
    requires
        0 <= k <= at < v.rows().len(),
        v.is_selected(v.rows()[at]),
    ensures
        v.cursor_from(k) is Some,
    decreases at - k,
{
    if k < at && !v.is_selected(v.rows()[k]) {
        cursor_is_found(v, k + 1, at);
    }
}

proof fn first_item_is_somewhere(v: AppState, k: int) -> (at: int)
    requires
        0 <= k <= v.rows().len(),
    ensures
        v.first_item(k) matches Some(i) ==> k <= at < v.rows().len() && v.rows()[at]
            == ViewRow::Item(i),
        v.first_item(k) is None ==> forall|j: int|
            k <= j < v.rows().len() ==> (#[trigger] v.rows()[j]) is Group,
    decreases v.rows().len() - k,
{
    if k >= v.rows().len() {
        k
    } else {
        match v.rows()[k] {
            ViewRow::Item(_) => k,
            ViewRow::Group(_) => first_item_is_somewhere(v, k + 1),
        }
    }
}

/// A selection that is still listed survives the list being built afresh, in
/// whatever order it now comes.
pub proof fn selections_survive(v: AppState, id: Seq<char>, i: usize)
    requires
        v.count(v.tab) <= usize::MAX,
        v.selected_group is None,
        v.selected.at(v.tab) == Some(id),
        v.shows(v.tab, i as int),
        v.key_at(v.tab, i as int) == Some(id),
    ensures
        v.rebuilt(v.tab).selected == v.selected,
        v.rebuilt(v.tab).selected_group is None,
{
    rows_are_exact(v, v.tab, i);
    rebuilt_rows(v, v.tab);
    reveal(AppState::rebuilt);
    reveal(AppState::with_selection);
    reveal(AppState::header_stays);
    reveal(AppState::selection_stays);
    let w = v.with_rows(v.tab);
    let at = choose|k: int| 0 <= k < w.rows().len() && w.rows()[k] == ViewRow::Item(i);
    assert(w.key_at(w.tab, i as int) == v.key_at(v.tab, i as int));
    assert(AppState { selected_group: None, ..w } == w);
    listing_is_found(w, id, 0, at);
}

proof fn headers_have_rows(
    v: AppState,
    listed: Seq<usize>,
    n: int,
    g: int,
) -> (at: int)
    requires
        0 <= g < n <= stacks(v.containers, listed).len(),
    ensures
        0 <= at < rows_of(v.containers, listed, v.collapsed, n).len(),
        rows_of(v.containers, listed, v.collapsed, n)[at] == ViewRow::Group(g as usize),
    decreases n,
{
    let low = rows_of(v.containers, listed, v.collapsed, n - 1);
    if g == n - 1 {
        low.len() as int
    } else {
        headers_have_rows(v, listed, n - 1, g)
    }
}

proof fn header_is_somewhere(groups: Seq<GroupView>, key: Seq<char>) -> (g: int)
    requires
        group_by_key(groups, key) is Some,
    ensures
        0 <= g < groups.len(),
        groups[g].key == key,
    decreases groups.len(),
{
    if groups[0].key == key {
        0
    } else {
        header_is_somewhere(groups.drop_first(), key) + 1
    }
}

/// As long as there are rows, building the list afresh leaves the cursor on one
/// of them.
pub proof fn rebuilding_leaves_a_cursor(v: AppState)
    requires
        v.rebuilt(v.tab).wf(),
        v.rebuilt(v.tab).rows().len() > 0,
        v.stacks_listed().len() <= usize::MAX,
    ensures
        v.rebuilt(v.tab).cursor_from(0) is Some,
{
    let tab = v.tab;
    let end = v.rebuilt(tab);
    rebuilt_rows(v, tab);
    reveal(AppState::wf);
    reveal(AppState::rebuilt);
    reveal(AppState::with_selection);
    reveal(AppState::header_stays);
    reveal(AppState::selection_stays);
    reveal(AppState::first_key);
    reveal(AppState::first_header);
    assert(end.rows_exist(tab));
    assert(end.rows() == end.views.at(tab));
    let w = v.with_rows(tab);
    if w.header_stays() {
        reveal(AppState::rows_for);
        reveal(AppState::stacks_listed);
        let key = w.selected_group->0;
        let g = header_is_somewhere(w.groups, key);
        let listed = v.listed(tab);
        let at = headers_have_rows(v, listed, stacks(v.containers, listed).len() as int, g);
        cursor_is_found(end, 0, at);
    } else {
        let x = AppState { selected_group: None, ..w };
        assert(x.rows() == end.rows());
        if x.selection_stays() {
            let at = listing_is_somewhere(x, x.selected.at(tab)->0, 0);
            cursor_is_found(end, 0, at);
        } else {
            let at = first_item_is_somewhere(x, 0);
            if x.first_item(0) is Some {
                assert(end.rows()[at] is Item);
                cursor_is_found(end, 0, at);
            } else {
                assert(x.rows()[0] is Group);
                assert(end.rows()[0] is Group);
                if !v.group_by_stack {
                    reveal(AppState::rows_for);
                    assert(item_rows(v.listed(tab))[0] is Item);
                }
                cursor_is_found(end, 0, 0);
            }
        }
    }
}

/// Going to the next tab and then to the previous one leads back.
pub proof fn tabs_go_round(tab: Tab)
    ensures
        tab_at(tab_at(tab.place() + 1).place() + 3) == tab,
        tab_at(tab_at(tab.place() + 3).place() + 1) == tab,
{
}

// ---------------------------------------------------------------------------
// Log streams
// ---------------------------------------------------------------------------

/// What a log stream we've already moved on from still has to say changes
/// nothing.
pub proof fn stale_streams_are_ignored(
    v: AppState,
    generation: u64,
    line: LogLineView,
    message: Seq<char>,
    now: u64,
)
    requires
        generation != v.logs.generation,
    ensures
        v.told(AppEventView::LogLine { generation, line }, now) == v.woken(),
        v.told(AppEventView::LogAttached { generation }, now) == v.woken(),
        v.told(AppEventView::LogEnd { generation }, now) == v.woken(),
        v.told(AppEventView::LogError { generation, message }, now) == v.woken(),
{
    reveal(AppState::told);
    reveal(AppState::woken);
    reveal(AppState::line_taken);
    reveal(AppState::loading_over);
    reveal(AppState::logs_failed);
}

/// Turning the log pane elsewhere makes every line still in flight stale.
pub proof fn turning_makes_a_stream_stale(v: AppState, id: Option<Seq<char>>)
    requires
        v.logs.generation < u64::MAX,
    ensures
        v.logs_turned(id).logs.generation > v.logs.generation,
        v.logs_turned(id).logs.lines.len() == 0,
        v.logs_turned(id).logs.container_id == id,
{
}

/// A line that arrives leaves the viewport of a pane scrolled back on the same
/// text, as long as that text is still in the buffer: the bottom edge of the pane
/// is the line that it was, and what lies above it are the lines that lay there,
/// without the oldest where the buffer was full.
pub proof fn viewports_stay_put(logs: LogView, line: LogLineView)
    requires
        logs.sound(),
        logs.scroll > 0,
        !logs.follow,
        logs.lines.len() == LOG_CAPACITY ==> logs.scroll < logs.lines.len(),
    ensures
        ({
            let after = logs.with_line(line);
            let end = logs.lines.len() - logs.scroll;
            let gone: int = if logs.lines.len() == LOG_CAPACITY {
                1
            } else {
                0
            };
            &&& after.scroll == logs.scroll + 1
            &&& after.lines.len() - after.scroll == end - gone
            &&& after.lines.take(end - gone) == logs.lines.subrange(gone, end)
        }),
{
    let after = logs.with_line(line);
    let end = logs.lines.len() - logs.scroll;
    if logs.lines.len() == LOG_CAPACITY {
        assert(after.lines.take(end - 1) =~= logs.lines.subrange(1, end));
    } else {
        assert(after.lines.take(end) =~= logs.lines.subrange(0, end));
    }
}

/// A pane that is scrolled back to the very top of a full buffer stays at the top:
/// what it showed has gone.
pub proof fn viewports_end_at_the_top(logs: LogView, line: LogLineView)
    requires
        logs.sound(),
        !logs.follow,
        logs.lines.len() == LOG_CAPACITY,
        logs.scroll == logs.lines.len(),
    ensures
        logs.with_line(line).scroll == logs.with_line(line).lines.len(),
{
}

/// A pane that follows stays at the newest line.
pub proof fn following_shows_the_newest(logs: LogView, line: LogLineView)
    requires
        logs.sound(),
        logs.follow,
    ensures
        logs.with_line(line).scroll == 0,
        logs.with_line(line).lines.last() == line,
{
}

/// A stream is only asked for once the debounce is over, and only for the
/// container the pane is about.
pub proof fn streams_wait_out_the_debounce(v: AppState, now: u64, id: Seq<char>, generation: u64)
    requires
        !v.effects.contains(EffectView::AttachLogs { id, generation }),
        v.ticked(now).effects.contains(EffectView::AttachLogs { id, generation }),
    ensures
        v.log_pending matches Some((wanted, since)) && wanted == id && elapsed(now, since)
            >= LOG_DEBOUNCE,
        v.logs.container_id == Some(id),
        v.logs.generation == generation,
{
    reveal(AppState::spun);
    reveal(AppState::toasts_expired);
    reveal(AppState::logs_due);
    let wanted = EffectView::AttachLogs { id, generation };
    let all = v.ticked(now).effects;
    let k = choose|k: int| 0 <= k < all.len() && all[k] == wanted;
    if k < v.effects.len() {
        assert(v.effects[k] == wanted);
    }
}

// ---------------------------------------------------------------------------
// Jobs
// ---------------------------------------------------------------------------

/// Submitting a job that destroys something starts nothing: it is asked about,
/// or refused.
pub proof fn destructive_jobs_wait(v: AppState, job: JobView, now: u64)
    requires
        destructive(job),
    ensures
        v.job_submitted(job, now).effects == v.effects,
        v.job_submitted(job, now).pending == v.pending,
        v.job_submitted(job, now).global_pending == v.global_pending,
        v.job_submitted(job, now).confirm == Some(job) && v.job_submitted(job, now).mode
            == Mode::Confirm || (job matches JobView::RemoveNetwork { name, .. } && predefined(
            name,
        )),
{
    reveal(AppState::job_submitted);
    reveal(AppState::job_asked);
}

/// Whether every job that `w` is about to start was already about to be started
/// in `v`.
pub open spec fn starts_nothing(v: AppState, w: AppState) -> bool {
    forall|job: JobView| #[trigger]
        w.effects.contains(EffectView::StartJob(job)) ==> v.effects.contains(
            EffectView::StartJob(job),
        )
}

proof fn pushing_starts_nothing(v: AppState, w: AppState, effect: EffectView)
    requires
        w.effects == v.effects.push(effect),
        effect !is StartJob,
    ensures
        starts_nothing(v, w),
{
    assert forall|job: JobView| #[trigger]
        w.effects.contains(EffectView::StartJob(job)) implies v.effects.contains(
        EffectView::StartJob(job),
    ) by {
        let k = choose|k: int|
            0 <= k < w.effects.len() && w.effects[k] == EffectView::StartJob(job);
        assert(v.effects[k] == EffectView::StartJob(job));
    }
}

proof fn syncing_starts_nothing(v: AppState, now: u64)
    ensures
        starts_nothing(v, v.logs_synced(now)),
{
    reveal(AppState::logs_synced);
    let w = v.logs_synced(now);
    if w.effects != v.effects {
        pushing_starts_nothing(v, w, EffectView::DetachLogs);
    }
}

proof fn moving_starts_nothing(v: AppState, position: int, delta: int, tab: Tab, now: u64)
    ensures
        starts_nothing(v, v.cursor_set(position, now)),
        starts_nothing(v, v.selection_moved(delta, now)),
        starts_nothing(v, v.cursor_moved(delta, now)),
        starts_nothing(v, v.tab_set(tab, now)),
        starts_nothing(v, v.logs_toggled(now)),
        starts_nothing(v, v.bottom_reached(now)),
{
    reveal(AppState::cursor_set);
    reveal(AppState::selection_moved);
    reveal(AppState::cursor_moved);
    reveal(AppState::logs_scrolled);
    reveal(AppState::tab_set);
    reveal(AppState::logs_toggled);
    reveal(AppState::bottom_reached);
    reveal(AppState::with_selection);
    assert forall|p: int| starts_nothing(v, #[trigger] v.cursor_set(p, now)) by {
        reveal(AppState::row_selected);
        syncing_starts_nothing(v.row_selected(p), now);
    }
    let shown = AppState { tab, focus: Focus::List, ..v };
    syncing_starts_nothing(shown.with_selection(), now);
    syncing_starts_nothing(
        AppState {
            show_logs: !v.show_logs,
            focus: if v.show_logs {
                Focus::List
            } else {
                v.focus
            },
            ..v
        },
        now,
    );
}

proof fn editing_starts_nothing(v: AppState)
    ensures
        v.filter_edited(Edit::Clear).effects == v.effects,
{
    reveal(AppState::filter_edited);
    reveal(AppState::filter_touched);
    rebuilt_rows(v.filter_touched(Edit::Clear), v.tab);
}

proof fn hiding_starts_nothing(v: AppState)
    ensures
        v.stopped_toggled().effects == v.effects,
{
    reveal(AppState::stopped_toggled);
    rebuilt_rows(AppState { show_stopped: !v.show_stopped, ..v }, Tab::Containers);
}

proof fn grouping_starts_nothing(v: AppState)
    ensures
        v.grouping_toggled().effects == v.effects,
{
    reveal(AppState::grouping_toggled);
    assert forall|w: AppState, tab: Tab| (#[trigger] w.rebuilt(tab)).effects == w.effects by {
        rebuilt_rows(w, tab);
    }
}

proof fn folding_starts_nothing(v: AppState)
    ensures
        v.collapse_toggled().effects == v.effects,
{
    reveal(AppState::collapse_toggled);
    assert forall|w: AppState, tab: Tab| (#[trigger] w.rebuilt(tab)).effects == w.effects by {
        rebuilt_rows(w, tab);
    }
}

proof fn folding_all_starts_nothing(v: AppState)
    ensures
        v.collapse_all_toggled().effects == v.effects,
{
    reveal(AppState::collapse_all_toggled);
    assert forall|w: AppState, tab: Tab| (#[trigger] w.rebuilt(tab)).effects == w.effects by {
        rebuilt_rows(w, tab);
    }
}

proof fn sorting_starts_nothing(v: AppState)
    ensures
        v.sort_advanced().effects == v.effects,
{
    reveal(AppState::sort_advanced);
    assert forall|w: AppState, tab: Tab| (#[trigger] w.rebuilt(tab)).effects == w.effects by {
        rebuilt_rows(w, tab);
    }
}

proof fn turning_starts_nothing(v: AppState)
    ensures
        v.sort_turned().effects == v.effects,
{
    reveal(AppState::sort_turned);
    assert forall|w: AppState, tab: Tab| (#[trigger] w.rebuilt(tab)).effects == w.effects by {
        rebuilt_rows(w, tab);
    }
}

proof fn listing_starts_nothing(v: AppState)
    ensures
        starts_nothing(v, v.filter_edited(Edit::Clear)),
        starts_nothing(v, v.stopped_toggled()),
        starts_nothing(v, v.grouping_toggled()),
        starts_nothing(v, v.collapse_toggled()),
        starts_nothing(v, v.collapse_all_toggled()),
        starts_nothing(v, v.sort_advanced()),
        starts_nothing(v, v.sort_turned()),
        starts_nothing(v, v.focus_moved()),
        starts_nothing(v, v.palette_opened()),
{
    editing_starts_nothing(v);
    hiding_starts_nothing(v);
    grouping_starts_nothing(v);
    folding_starts_nothing(v);
    folding_all_starts_nothing(v);
    sorting_starts_nothing(v);
    turning_starts_nothing(v);
    reveal(AppState::focus_moved);
    reveal(AppState::palette_opened);
}

proof fn asking_starts_nothing(v: AppState, now: u64)
    ensures
        starts_nothing(v, v.refresh_asked(now)),
        starts_nothing(v, v.id_copied()),
        starts_nothing(v, v.exec_asked(now)),
{
    reveal(AppState::refresh_asked);
    reveal(AppState::id_copied);
    reveal(AppState::exec_asked);
    pushing_starts_nothing(v, v.refresh_asked(now), EffectView::Refresh);
    if let Some(value) = v.copyable() {
        pushing_starts_nothing(v, v.id_copied(), EffectView::Copy(value));
    }
}

/// No command starts a job that destroys something.
pub proof fn commands_never_destroy(v: AppState, cmd: Command, now: u64, job: JobView)
    requires
        destructive(job),
        !v.effects.contains(EffectView::StartJob(job)),
    ensures
        !v.ran(cmd, now).effects.contains(EffectView::StartJob(job)),
{
    reveal(AppState::ran);
    if !(v.on_group() && needs_container(cmd)) {
        if cmd == Command::Start || cmd == Command::Stop || cmd == Command::Restart || cmd
            == Command::Pause || cmd == Command::Kill || cmd == Command::Remove || cmd
            == Command::Prune {
            acting_never_destroys(v, cmd, now, job);
        } else {
            others_start_nothing(v, cmd, now);
        }
    }
}

proof fn others_start_nothing(v: AppState, cmd: Command, now: u64)
    requires
        !(cmd == Command::Start || cmd == Command::Stop || cmd == Command::Restart || cmd
            == Command::Pause || cmd == Command::Kill || cmd == Command::Remove || cmd
            == Command::Prune),
    ensures
        starts_nothing(v, v.obeyed(cmd, now)),
{
    reveal(AppState::obeyed);
    listing_starts_nothing(v);
    asking_starts_nothing(v, now);
    moving_starts_nothing(v, 0, 1, Tab::Containers, now);
    moving_starts_nothing(v, 0, -1, Tab::Images, now);
    moving_starts_nothing(v, 0, 10, Tab::Volumes, now);
    moving_starts_nothing(v, 0, -10, Tab::Networks, now);
    moving_starts_nothing(v, 0, 1, tab_at(v.tab.place() + 1), now);
    moving_starts_nothing(v, 0, 1, tab_at(v.tab.place() + 3), now);
}

proof fn acting_never_destroys(v: AppState, cmd: Command, now: u64, job: JobView)
    requires
        destructive(job),
        !v.effects.contains(EffectView::StartJob(job)),
        cmd == Command::Start || cmd == Command::Stop || cmd == Command::Restart || cmd
            == Command::Pause || cmd == Command::Kill || cmd == Command::Remove || cmd
            == Command::Prune,
    ensures
        !v.obeyed(cmd, now).effects.contains(EffectView::StartJob(job)),
{
    reveal(AppState::obeyed);
    reveal(AppState::acted);
    match v.job_for(cmd) {
        Some(meant) => {
            reveal(AppState::job_submitted);
            reveal(AppState::job_asked);
            reveal(AppState::job_started);
            let after = v.job_submitted(meant, now).effects;
            if after.contains(EffectView::StartJob(job)) {
                let k = choose|k: int|
                    0 <= k < after.len() && after[k] == EffectView::StartJob(job);
                if k < v.effects.len() {
                    assert(v.effects[k] == EffectView::StartJob(job));
                }
            }
        },
        None => {},
    }
}

/// Saying yes starts exactly the job that was asked about; saying no starts
/// nothing; either way the question is gone.
pub proof fn answers_are_obeyed(v: AppState, job: JobView)
    requires
        v.confirm == Some(job),
    ensures
        v.confirm_accepted().effects == v.effects.push(EffectView::StartJob(job)),
        v.confirm_accepted().confirm is None,
        v.confirm_accepted().mode == Mode::Normal,
        v.confirm_cancelled().effects == v.effects,
        v.confirm_cancelled().confirm is None,
        v.confirm_cancelled().mode == Mode::Normal,
{
    reveal(AppState::confirm_accepted);
    reveal(AppState::confirm_cancelled);
    reveal(AppState::job_started);
}

/// On a stack header, a command that needs a container says so and does nothing
/// else.
pub proof fn headers_are_no_containers(v: AppState, cmd: Command, now: u64)
    requires
        v.on_group(),
        needs_container(cmd),
    ensures
        v.ran(cmd, now) == v.toasted(ToastKind::Info, v.stack_refusal(), now),
{
    reveal(AppState::ran);
}

/// The stack of messages stays short, and the newest message is always on it.
pub proof fn toasts_are_few(toasts: Seq<ToastView>, toast: ToastView)
    requires
        toasts.len() <= 4,
    ensures
        with_toast(toasts, toast).len() <= 4,
        with_toast(toasts, toast).last() == toast,
        toasts.len() < 4 ==> with_toast(toasts, toast).drop_last() == toasts,
        toasts.len() == 4 ==> with_toast(toasts, toast).drop_last() == toasts.drop_first(),
{
}

// ---------------------------------------------------------------------------
// Input and events
// ---------------------------------------------------------------------------

/// Only presses count: terminals that report releases don't fire twice.
pub proof fn releases_do_nothing(v: AppState, ev: KeyEvent, now: u64)
    requires
        ev.kind != KeyEventKind::Press,
    ensures
        v.typed(ev, now) == v,
{
    reveal(AppState::typed);
}

/// The wheel targets what's under the pointer, whatever has the focus.
pub proof fn wheels_ignore_focus(v: AppState, at: Position, delta: int, now: u64)
    requires
        v.mode == Mode::Normal,
    ensures
        hits(v.hits.logs, at) ==> v.wheeled(at, delta, now) == v.logs_scrolled(
            delta,
        ),
        !hits(v.hits.logs, at) ==> v.wheeled(at, delta, now)
            == v.selection_moved(delta, now),
{
    reveal(AppState::wheeled);
}

proof fn live_ids_are_ids(rows: Seq<ContainerView>, n: int, id: Seq<char>)
    requires
        0 <= n <= rows.len(),
    ensures
        live_ids(rows, n).contains(id) <==> exists|k: int| 0 <= k < n && (#[trigger] rows[k]).id
            == id,
    decreases n,
{
    if n > 0 {
        live_ids_are_ids(rows, n - 1, id);
        if live_ids(rows, n).contains(id) && !live_ids(rows, n - 1).contains(id) {
            assert(rows[n - 1].id == id);
        }
    }
}

proof fn synced_keeps(v: AppState, now: u64)
    ensures
        v.logs_synced(now).stats == v.stats,
        v.logs_synced(now).collapsed == v.collapsed,
        v.logs_synced(now).containers == v.containers,
{
    reveal(AppState::logs_synced);
}

proof fn all_rebuilt_keeps(v: AppState)
    ensures
        v.all_rebuilt().stats == v.stats,
        v.all_rebuilt().collapsed == v.collapsed,
        v.all_rebuilt().containers == v.containers,
{
    reveal(AppState::all_rebuilt);
    reveal(AppState::rebuilt);
    reveal(AppState::with_selection);
}

/// A snapshot leaves readings of the containers it lists only, and folded
/// stacks stay folded across it.
pub proof fn snapshots_forget_the_gone(v: AppState, snap: SnapshotView, now: u64, id: Seq<char>)
    ensures
        v.told(AppEventView::Snapshot(snap), now).collapsed == v.collapsed,
        v.told(AppEventView::Snapshot(snap), now).containers == snap.containers,
        v.told(AppEventView::Snapshot(snap), now).stats.dom().contains(id)
            <==> v.stats.dom().contains(id) && exists|k: int|
            0 <= k < snap.containers.len() && (#[trigger] snap.containers[k]).id == id,
{
    reveal(AppState::told);
    reveal(AppState::woken);
    reveal(AppState::snapshot_taken);
    live_ids_are_ids(snap.containers, snap.containers.len() as int, id);
    let w = v.woken().with_snapshot(snap).effecting(EffectView::SyncStats);
    all_rebuilt_keeps(w);
    synced_keeps(w.all_rebuilt(), now);
}

// ---------------------------------------------------------------------------
// Consent
// ---------------------------------------------------------------------------

proof fn rebuilding_starts_nothing(v: AppState, edit: Edit, sort: Sort)
    ensures
        v.filter_touched(edit).effects == v.effects,
        v.filter_edited(edit).effects == v.effects,
        v.sort_picked(sort).effects == v.effects,
{
    reveal(AppState::filter_touched);
    reveal(AppState::filter_edited);
    reveal(AppState::sort_picked);
    assert forall|w: AppState, tab: Tab| (#[trigger] w.rebuilt(tab)).effects == w.effects by {
        rebuilt_rows(w, tab);
    }
    turning_starts_nothing(v);
}

proof fn filtering_starts_nothing(v: AppState, ev: KeyEvent, now: u64)
    ensures
        starts_nothing(v, v.filter_typed(ev, now)),
{
    reveal(AppState::filter_typed);
    assert forall|w: AppState, edit: Edit| (#[trigger] w.filter_edited(edit)).effects
        == w.effects by {
        rebuilding_starts_nothing(w, edit, Sort::Name);
    }
    assert forall|edit: Edit| (#[trigger] v.filter_touched(edit)).effects == v.effects by {
        rebuilding_starts_nothing(v, edit, Sort::Name);
    }
    moving_starts_nothing(v, 0, 1, Tab::Containers, now);
    moving_starts_nothing(v, 0, -1, Tab::Containers, now);
}

proof fn choosing_never_destroys(v: AppState, ev: KeyEvent, now: u64, job: JobView)
    requires
        destructive(job),
        !v.effects.contains(EffectView::StartJob(job)),
    ensures
        !v.palette_typed(ev, now).effects.contains(EffectView::StartJob(job)),
{
    reveal(AppState::palette_typed);
    reveal(AppState::palette_left_alone);
    reveal(AppState::palette_moved);
    reveal(AppState::query_edited);
    reveal(AppState::query_touched);
    reveal(AppState::palette_chosen);
    let closed = AppState {
        palette_input: blank(),
        palette_cursor: 0,
        mode: Mode::Normal,
        ..v
    };
    assert forall|cmd: Command| !(#[trigger] closed.ran(cmd, now)).effects.contains(
        EffectView::StartJob(job),
    ) by {
        commands_never_destroy(closed, cmd, now, job);
    }
}

proof fn answering_starts_what_was_asked(v: AppState, job: JobView)
    requires
        !v.effects.contains(EffectView::StartJob(job)),
        v.confirm_accepted().effects.contains(EffectView::StartJob(job)),
    ensures
        v.confirm == Some(job),
{
    reveal(AppState::confirm_accepted);
    reveal(AppState::job_started);
    let after = v.confirm_accepted().effects;
    let k = choose|k: int| 0 <= k < after.len() && after[k] == EffectView::StartJob(job);
    if k < v.effects.len() {
        assert(v.effects[k] == EffectView::StartJob(job));
    }
}

/// No key starts a job that destroys something, unless it answers the question
/// about that very job.
pub proof fn keys_never_destroy_unasked(v: AppState, ev: KeyEvent, now: u64, job: JobView)
    requires
        destructive(job),
        !v.effects.contains(EffectView::StartJob(job)),
        v.typed(ev, now).effects.contains(EffectView::StartJob(job)),
    ensures
        v.mode == Mode::Confirm,
        v.confirm == Some(job),
{
    reveal(AppState::typed);
    reveal(AppState::woken);
    let woken = v.woken();
    match v.mode {
        Mode::Filter => filtering_starts_nothing(woken, ev, now),
        Mode::Palette => choosing_never_destroys(woken, ev, now, job),
        Mode::Confirm => {
            reveal(AppState::confirm_typed);
            reveal(AppState::confirm_cancelled);
            if woken.confirm_accepted().effects.contains(EffectView::StartJob(job)) {
                answering_starts_what_was_asked(woken, job);
            }
        },
        Mode::Help => {},
        Mode::Normal => {
            assert forall|cmd: Command| !(#[trigger] woken.ran(cmd, now)).effects.contains(
                EffectView::StartJob(job),
            ) by {
                commands_never_destroy(woken, cmd, now, job);
            }
        },
    }
}

proof fn picking_starts_nothing(v: AppState, body: Rect, at: Position, now: u64)
    ensures
        starts_nothing(v, v.list_clicked(body, at, now)),
{
    reveal(AppState::list_clicked);
    reveal(AppState::focused);
    reveal(AppState::click_noted);
    reveal(AppState::detail_turned);
    let noted = v.focused(Focus::List).click_noted(at, now);
    let moved = noted.cursor_set(v.row_under(body, at), now);
    moving_starts_nothing(noted, v.row_under(body, at), 0, Tab::Containers, now);
    folding_starts_nothing(moved);
}

proof fn pressing_starts_nothing(v: AppState, at: Position, now: u64)
    ensures
        starts_nothing(v, v.panes_clicked(at, now)),
{
    reveal(AppState::panes_clicked);
    reveal(AppState::toast_dismissed);
    reveal(AppState::splitter_pressed);
    reveal(AppState::click_noted);
    reveal(AppState::pane_reset);
    reveal(AppState::held);
    reveal(AppState::focused);
    assert forall|tab: Tab| starts_nothing(v, #[trigger] v.tab_set(tab, now)) by {
        moving_starts_nothing(v, 0, 0, tab, now);
    }
    assert forall|sort: Sort| (#[trigger] v.sort_picked(sort)).effects == v.effects by {
        rebuilding_starts_nothing(v, Edit::Clear, sort);
    }
    assert forall|body: Rect| starts_nothing(v, #[trigger] v.list_clicked(body, at, now)) by {
        picking_starts_nothing(v, body, at, now);
    }
}

proof fn clicking_never_destroys(v: AppState, at: Position, now: u64, job: JobView)
    requires
        destructive(job),
        !v.effects.contains(EffectView::StartJob(job)),
        v.clicked(at, now).effects.contains(EffectView::StartJob(job)),
    ensures
        v.mode == Mode::Confirm,
        v.confirm == Some(job),
        hits(v.hits.confirm_yes, at),
{
    reveal(AppState::clicked);
    match v.mode {
        Mode::Help => {},
        Mode::Palette => {
            reveal(AppState::palette_clicked);
            reveal(AppState::palette_left_alone);
            let closed = AppState {
                palette_input: blank(),
                palette_cursor: 0,
                mode: Mode::Normal,
                ..v
            };
            assert forall|cmd: Command| !(#[trigger] closed.ran(cmd, now)).effects.contains(
                EffectView::StartJob(job),
            ) by {
                commands_never_destroy(closed, cmd, now, job);
            }
        },
        Mode::Confirm => {
            reveal(AppState::confirm_clicked);
            reveal(AppState::confirm_cancelled);
            if v.confirm_accepted().effects.contains(EffectView::StartJob(job)) {
                answering_starts_what_was_asked(v, job);
            }
        },
        Mode::Normal => pressing_starts_nothing(v, at, now),
        Mode::Filter => pressing_starts_nothing(v, at, now),
    }
}

/// The mouse starts no job that destroys something, unless it presses yes to the
/// question about that very job.
pub proof fn clicks_never_destroy_unasked(v: AppState, ev: MouseEvent, now: u64, job: JobView)
    requires
        destructive(job),
        !v.effects.contains(EffectView::StartJob(job)),
        v.moused(ev, now).effects.contains(EffectView::StartJob(job)),
    ensures
        v.mode == Mode::Confirm,
        v.confirm == Some(job),
        hits(v.hits.confirm_yes, Position { x: ev.column, y: ev.row }),
{
    reveal(AppState::moused);
    reveal(AppState::woken);
    reveal(AppState::dragged);
    reveal(AppState::held);
    let at = Position { x: ev.column, y: ev.row };
    if v.clicked(at, now).effects.contains(EffectView::StartJob(job)) {
        clicking_never_destroys(v, at, now, job);
    }
    assert forall|delta: int| starts_nothing(v, #[trigger] v.wheeled(at, delta, now)) by {
        reveal(AppState::wheeled);
        reveal(AppState::palette_wheeled);
        reveal(AppState::logs_scrolled);
        moving_starts_nothing(v, 0, delta, Tab::Containers, now);
    }
}

/// Nothing the background tasks say starts a job, nor does the passing of time.
pub proof fn jobs_are_never_started_by_themselves(v: AppState, ev: AppEventView, now: u64)
    ensures
        starts_nothing(v, v.told(ev, now)),
        starts_nothing(v, v.ticked(now)),
{
    telling_starts_nothing(v, ev, now);
    reveal(AppState::spun);
    reveal(AppState::toasts_expired);
    reveal(AppState::logs_due);
    let w = v.ticked(now);
    if w.effects != v.effects {
        pushing_starts_nothing(v, w, w.effects.last());
    }
}

proof fn snapshots_start_nothing(v: AppState, snap: SnapshotView, now: u64)
    ensures
        starts_nothing(v, v.snapshot_taken(snap, now)),
{
    reveal(AppState::snapshot_taken);
    let taken = v.with_snapshot(snap).effecting(EffectView::SyncStats);
    pushing_starts_nothing(v, taken, EffectView::SyncStats);
    assert(taken.all_rebuilt().effects == taken.effects) by {
        reveal(AppState::all_rebuilt);
        assert forall|w: AppState, tab: Tab| (#[trigger] w.rebuilt(tab)).effects == w.effects by {
            rebuilt_rows(w, tab);
        }
    }
    syncing_starts_nothing(taken.all_rebuilt(), now);
}

proof fn telling_starts_nothing(v: AppState, ev: AppEventView, now: u64)
    ensures
        starts_nothing(v, v.told(ev, now)),
{
    reveal(AppState::told);
    reveal(AppState::woken);
    let woken = v.woken();
    match ev {
        AppEventView::Snapshot(snap) => snapshots_start_nothing(woken, snap, now),
        AppEventView::Stat { id, sample } => {
            reveal(AppState::stat_taken);
            assert forall|w: AppState, tab: Tab| (#[trigger] w.rebuilt(tab)).effects
                == w.effects by {
                rebuilt_rows(w, tab);
            }
        },
        AppEventView::LogLine { generation, line } => reveal(AppState::line_taken),
        AppEventView::LogAttached { generation } => reveal(AppState::loading_over),
        AppEventView::LogEnd { generation } => reveal(AppState::loading_over),
        AppEventView::LogError { generation, message } => reveal(AppState::logs_failed),
        AppEventView::JobDone { job, result } => {
            reveal(AppState::job_done);
            pushing_starts_nothing(
                woken,
                woken.job_done(job, result, now),
                EffectView::Refresh,
            );
        },
        AppEventView::Daemon(info) => {},
        AppEventView::DaemonError(msg) => {
            reveal(AppState::daemon_lost);
            pushing_starts_nothing(woken, woken.daemon_lost(msg), EffectView::ClearStats);
        },
        AppEventView::DaemonOk => reveal(AppState::daemon_found),
    }
}

/// A question always starts out on yes: a choice made for the last one does not
/// carry over.
pub proof fn choices_do_not_carry_over(v: AppState, job: JobView, now: u64)
    requires
        v.confirm is None,
        v.job_submitted(job, now).confirm is Some,
    ensures
        v.job_submitted(job, now).confirm_accept,
{
    reveal(AppState::job_submitted);
    reveal(AppState::job_asked);
    reveal(AppState::job_started);
}

} // verus!
