//! What the background tasks say shows up where it belongs, and what time does.

use vstd::prelude::*;

use crate::action::Command;
use crate::app::acting::rebuilding_keeps;
use crate::app::commands::folding_all;
use crate::app::events::other_than;
use crate::app::grouping::{header, key_of, members, running_among};
use crate::app::pointing::group_is_found;
use crate::app::state::{initial, AppState, EffectView};
use crate::app::tick::elapsed;
use crate::app::{Focus, GroupView, Mode, Sort, Tab, ToastKind, ToastView, ViewRow};
use crate::docker::actions::{description_of, target_of, JobView};
use crate::docker::logs::LogLineView;
use crate::docker::model::{
    volume_users, volumes_count_their_containers, ContainerView, DaemonView,
};
use crate::docker::refresh::SnapshotView;
use crate::docker::stats::StatView;
use crate::event::AppEventView;
use crate::ui::theme::{symbols_of, Theme};
use crate::util::format::short;

verus! {

broadcast use vstd::string::group_string_axioms;

// ---------------------------------------------------------------------------
// Events
// ---------------------------------------------------------------------------

proof fn everything_is_kept(v: AppState, now: u64)
    ensures
        ({
            let w = v.all_rebuilt().logs_synced(now);
            &&& w.containers == v.containers
            &&& w.images == v.images
            &&& w.volumes == v.volumes
            &&& w.networks == v.networks
            &&& w.stats == v.stats
            &&& w.toasts == v.toasts
            &&& w.tab == v.tab
            &&& w.mode == v.mode
            &&& w.filter == v.filter
        }),
{
    reveal(AppState::all_rebuilt);
    let a = v.rebuilt(Tab::Containers);
    let b = a.rebuilt(Tab::Images);
    let c = b.rebuilt(Tab::Volumes);
    rebuilding_keeps(v, Tab::Containers);
    rebuilding_keeps(a, Tab::Images);
    rebuilding_keeps(b, Tab::Volumes);
    rebuilding_keeps(c, Tab::Networks);
    reveal(AppState::logs_synced);
}

/// A snapshot replaces every list by its own: each row is the row that was read, but
/// that a volume or a network also says by how many it is used. Readings of what is
/// still there are kept.
pub proof fn snapshots_are_shown(v: AppState, snap: SnapshotView, now: u64, k: int, id: Seq<char>)
    ensures
        ({
            let w = v.told(AppEventView::Snapshot(snap), now);
            &&& w.containers == snap.containers
            &&& w.images == snap.images
            &&& w.volumes.len() == snap.volumes.len()
            &&& w.networks.len() == snap.networks.len()
            &&& 0 <= k < snap.volumes.len() ==> w.volumes[k].name == snap.volumes[k].name
                && w.volumes[k].driver == snap.volumes[k].driver && w.volumes[k].size
                == snap.volumes[k].size && w.volumes[k].mountpoint == snap.volumes[k].mountpoint
                && w.volumes[k].used_by == snap.containers.filter(
                |c: ContainerView| c.mounts.contains(snap.volumes[k].name),
            ).len()
            &&& 0 <= k < snap.networks.len() ==> w.networks[k].name == snap.networks[k].name
                && w.networks[k].id == snap.networks[k].id && w.networks[k].driver
                == snap.networks[k].driver && w.networks[k].scope == snap.networks[k].scope
                && w.networks[k].subnets == snap.networks[k].subnets
            &&& w.stats.dom().contains(id) ==> w.stats[id] == v.stats[id]
            &&& w.tab == v.tab
            &&& w.mode == v.mode
            &&& w.filter == v.filter
            &&& w.toasts == v.toasts
        }),
{
    reveal(AppState::told);
    reveal(AppState::woken);
    reveal(AppState::snapshot_taken);
    let w = v.woken().with_snapshot(snap).effecting(EffectView::SyncStats);
    everything_is_kept(w, now);
    if 0 <= k < snap.volumes.len() {
        volumes_count_their_containers(snap.containers, snap.volumes[k].name);
        assert(w.volumes[k].used_by == volume_users(snap.containers, snap.volumes[k].name));
    }
}

/// A reading is noted for the container that it is of and no other; a list that goes by
/// such readings is ordered afresh.
pub proof fn readings_are_noted(
    v: AppState,
    id: Seq<char>,
    other: Seq<char>,
    sample: StatView,
    now: u64,
)
    requires
        other != id,
    ensures
        ({
            let w = v.told(AppEventView::Stat { id, sample }, now);
            &&& w.stat(id) == Some(sample)
            &&& w.stat(other) == v.stat(other)
            &&& w.containers == v.containers
            &&& w.logs == v.logs
            &&& w.toasts == v.toasts
            &&& v.sort_of(v.tab) == Sort::Mem || v.sort_of(v.tab) == Sort::Cpu ==> w.views.at(v.tab)
                == (AppState { stats: w.stats, ..v.woken() }).rows_for(v.tab)
        }),
{
    reveal(AppState::told);
    reveal(AppState::woken);
    reveal(AppState::stat_taken);
    let noted = AppState { stats: v.stats.insert(id, sample), ..v.woken() };
    rebuilding_keeps(noted, v.tab);
}

/// A line of the stream on screen comes last. The lines before it stay, as long as the
/// five thousand that are kept are not reached; from there on the oldest goes.
pub proof fn lines_are_appended(v: AppState, line: LogLineView, now: u64)
    ensures
        ({
            let w = v.told(
                AppEventView::LogLine { generation: v.logs.generation, line },
                now,
            );
            &&& w.logs.lines.len() > 0
            &&& w.logs.lines.last() == line
            &&& v.logs.lines.len() < 5_000 ==> w.logs.lines.drop_last() == v.logs.lines
            &&& v.logs.lines.len() == 5_000 ==> w.logs.lines.drop_last()
                == v.logs.lines.drop_first()
            &&& !w.logs.loading
            &&& w.logs.container_id == v.logs.container_id
            &&& w.logs.generation == v.logs.generation
            &&& w.logs.error == v.logs.error
        }),
{
    reveal(AppState::told);
    reveal(AppState::woken);
    reveal(AppState::line_taken);
    let w = v.told(AppEventView::LogLine { generation: v.logs.generation, line }, now);
    if v.logs.lines.len() < 5_000 {
        assert(w.logs.lines.drop_last() =~= v.logs.lines);
    } else {
        assert(w.logs.lines.drop_last() =~= v.logs.lines.drop_first());
    }
}

/// A stream that opens or ends is no longer being waited for, and one that fails says
/// why; the lines that have come stay.
pub proof fn streams_come_and_go(v: AppState, message: Seq<char>, now: u64)
    ensures
        ({
            let generation = v.logs.generation;
            let open = v.told(AppEventView::LogAttached { generation }, now);
            let over = v.told(AppEventView::LogEnd { generation }, now);
            let failed = v.told(AppEventView::LogError { generation, message }, now);
            &&& !open.logs.loading && !over.logs.loading && !failed.logs.loading
            &&& open.logs.error == v.logs.error && over.logs.error == v.logs.error
            &&& failed.logs.error == Some(message)
            &&& open.logs.lines == v.logs.lines && over.logs.lines == v.logs.lines
            &&& failed.logs.lines == v.logs.lines
        }),
{
    reveal(AppState::told);
    reveal(AppState::woken);
    reveal(AppState::loading_over);
    reveal(AppState::logs_failed);
}

/// A job that is done is no longer marked, those on others are; its outcome is the
/// newest message, as a success or as an error, and the lists are read again.
pub proof fn outcomes_are_told(
    v: AppState,
    job: JobView,
    result: Result<Seq<char>, Seq<char>>,
    other: Seq<char>,
    now: u64,
)
    ensures
        ({
            let w = v.told(AppEventView::JobDone { job, result }, now);
            &&& target_of(job) matches Some(id) ==> !w.pending.dom().contains(id)
            &&& target_of(job) != Some(other) ==> (w.pending.dom().contains(other)
                <==> v.pending.dom().contains(other))
            &&& !w.global_pending.contains(description_of(job))
            &&& other != description_of(job) ==> (w.global_pending.contains(other)
                <==> v.global_pending.contains(other))
            &&& w.toasts.len() > 0
            &&& w.toasts.last().born == now
            &&& result matches Ok(text) ==> w.toasts.last().text == text && w.toasts.last().kind
                == ToastKind::Success
            &&& result matches Err(text) ==> w.toasts.last().text == text && w.toasts.last().kind
                == ToastKind::Error
            &&& w.effects == v.effects.push(EffectView::Refresh)
        }),
{
    reveal(AppState::told);
    reveal(AppState::woken);
    reveal(AppState::job_done);
    filtering_keeps(v.global_pending, description_of(job), other);
    filtering_keeps(v.global_pending, description_of(job), description_of(job));
}

proof fn filtering_keeps(all: Seq<Seq<char>>, gone: Seq<char>, x: Seq<char>)
    ensures
        all.filter(other_than(gone)).contains(x) <==> all.contains(x) && x != gone,
    decreases all.len(),
{
    reveal(Seq::filter);
    if all.len() > 0 {
        let rest = all.drop_last();
        filtering_keeps(rest, gone, x);
        let low = rest.filter(other_than(gone));
        let kept = all.filter(other_than(gone));
        if all.last() != gone {
            assert(kept == low.push(all.last()));
            assert(low.push(all.last()).contains(x) <==> low.contains(x) || x == all.last()) by {
                if low.contains(x) {
                    let i = choose|i: int| 0 <= i < low.len() && low[i] == x;
                    assert(low.push(all.last())[i] == x);
                }
                if x == all.last() {
                    assert(low.push(all.last())[low.len() as int] == x);
                }
            }
        }
        assert(all.contains(x) <==> rest.contains(x) || x == all.last()) by {
            if rest.contains(x) {
                let i = choose|i: int| 0 <= i < rest.len() && rest[i] == x;
                assert(all[i] == x);
            }
            if x == all.last() {
                assert(all[all.len() - 1] == x);
            }
            if all.contains(x) && x != all.last() {
                let i = choose|i: int| 0 <= i < all.len() && all[i] == x;
                assert(rest[i] == x);
            }
        }
    }
}

/// Losing the daemon is shown with the reason, and readings are stopped; finding it again
/// takes that back, and says so only if it was lost. What is known of it is kept.
pub proof fn the_daemon_is_watched(v: AppState, message: Seq<char>, info: DaemonView, now: u64)
    ensures
        ({
            let lost = v.told(AppEventView::DaemonError(message), now);
            let found = v.told(AppEventView::DaemonOk, now);
            let known = v.told(AppEventView::Daemon(info), now);
            &&& lost.daemon_error == Some(message)
            &&& lost.effects == v.effects.push(EffectView::ClearStats)
            &&& lost.containers == v.containers
            &&& found.daemon_error is None
            &&& v.daemon_error is None ==> found.toasts == v.toasts
            &&& v.daemon_error is Some ==> found.toasts.len() > 0 && found.toasts.last().kind
                == ToastKind::Success && found.toasts.last().born == now
            &&& known.daemon == info
            &&& known.daemon_error == v.daemon_error
        }),
{
    reveal(AppState::told);
    reveal(AppState::woken);
    reveal(AppState::daemon_lost);
    reveal(AppState::daemon_found);
}

// ---------------------------------------------------------------------------
// Time
// ---------------------------------------------------------------------------

proof fn filtering_messages(all: Seq<ToastView>, now: u64, t: ToastView)
    ensures
        all.filter(|t: ToastView| elapsed(now, t.born) < 4_000).contains(t) <==> all.contains(t)
            && elapsed(now, t.born) < 4_000,
    decreases all.len(),
{
    reveal(Seq::filter);
    let fresh = |t: ToastView| elapsed(now, t.born) < 4_000;
    if all.len() > 0 {
        let rest = all.drop_last();
        filtering_messages(rest, now, t);
        let low = rest.filter(fresh);
        assert(rest.filter(|t: ToastView| elapsed(now, t.born) < 4_000) == low);
        if fresh(all.last()) {
            assert(all.filter(fresh) == low.push(all.last()));
            if low.contains(t) {
                let i = choose|i: int| 0 <= i < low.len() && low[i] == t;
                assert(low.push(all.last())[i] == t);
            }
            if t == all.last() {
                assert(low.push(all.last())[low.len() as int] == t);
            }
        } else {
            assert(all.filter(fresh) == low);
        }
        if rest.contains(t) {
            let i = choose|i: int| 0 <= i < rest.len() && rest[i] == t;
            assert(all[i] == t);
        }
        if t == all.last() {
            assert(all[all.len() - 1] == t);
        }
        if all.contains(t) && t != all.last() {
            let i = choose|i: int| 0 <= i < all.len() && all[i] == t;
            assert(rest[i] == t);
        }
    }
}

/// A message stays up for four seconds, and not for longer.
pub proof fn messages_stay_four_seconds(v: AppState, now: u64, t: ToastView)
    requires
        v.toasts.contains(t),
        t.born <= now,
    ensures
        v.ticked(now).toasts.contains(t) <==> now - t.born < 4_000,
{
    reveal(AppState::spun);
    reveal(AppState::toasts_expired);
    reveal(AppState::logs_due);
    filtering_messages(v.toasts, now, t);
}

/// The log stream of the container that the pane is about is asked for a quarter of a
/// second after the pane turned to it, and not before; it is asked for once.
pub proof fn streams_are_asked_for(v: AppState, now: u64, id: Seq<char>, since: u64)
    requires
        v.log_pending == Some((id, since)),
        v.logs.container_id == Some(id),
        since <= now,
    ensures
        now - since >= 250 ==> v.ticked(now).effects == v.effects.push(
            EffectView::AttachLogs { id, generation: v.logs.generation },
        ) && v.ticked(now).log_pending is None,
        now - since < 250 ==> v.ticked(now).effects == v.effects && v.ticked(now).log_pending
            == v.log_pending,
{
    reveal(AppState::spun);
    reveal(AppState::toasts_expired);
    reveal(AppState::logs_due);
}

/// Time changes nothing that was read: no list, no reading and no line.
pub proof fn time_keeps_what_was_read(v: AppState, now: u64)
    ensures
        v.ticked(now).containers == v.containers,
        v.ticked(now).stats == v.stats,
        v.ticked(now).logs == v.logs,
        v.ticked(now).mode == v.mode,
        v.ticked(now).tab == v.tab,
{
    reveal(AppState::spun);
    reveal(AppState::toasts_expired);
    reveal(AppState::logs_due);
}

/// What spins goes on to the next frame as long as something is under way or being
/// waited for, and stands still otherwise.
pub proof fn spinners_spin_while_something_moves(v: AppState, now: u64, id: Seq<char>)
    requires
        v.spinner < usize::MAX,
    ensures
        v.pending.dom().contains(id) ==> v.ticked(now).spinner == v.spinner + 1,
        v.global_pending.len() > 0 ==> v.ticked(now).spinner == v.spinner + 1,
        v.logs.loading ==> v.ticked(now).spinner == v.spinner + 1,
        v.toasts.len() > 0 ==> v.ticked(now).spinner == v.spinner + 1,
        (forall|other: Seq<char>| !v.pending.dom().contains(other)) && v.global_pending.len() == 0
            && !v.logs.loading && v.toasts.len() == 0 ==> v.ticked(now).spinner == v.spinner,
{
    reveal(AppState::spun);
    reveal(AppState::toasts_expired);
    reveal(AppState::logs_due);
    if forall|other: Seq<char>| !v.pending.dom().contains(other) {
        assert(v.pending =~= Map::<Seq<char>, Seq<char>>::empty());
    }
}

// ---------------------------------------------------------------------------
// The log pane
// ---------------------------------------------------------------------------

/// The log pane is about the container that is selected on the containers tab, as long
/// as it is shown, and else about none. When it turns, nothing of the last container is
/// left in it, and the wait for the new one starts.
pub proof fn the_log_pane_follows_the_selection(v: AppState, now: u64)
    ensures
        ({
            let w = v.logs_synced(now);
            &&& v.tab == Tab::Containers && v.show_logs ==> (v.container() matches Some(c)
                ==> w.logs.container_id == Some(c.id))
            &&& v.tab != Tab::Containers || !v.show_logs || v.container() is None
                ==> w.logs.container_id is None
            &&& w.logs.container_id != v.logs.container_id ==> w.logs.lines.len() == 0
                && w.logs.scroll == 0 && w.logs.error is None && w.logs.loading
                == (w.logs.container_id is Some) && w.effects == v.effects.push(
                EffectView::DetachLogs,
            )
            &&& w.logs.container_id != v.logs.container_id ==> (w.logs.container_id matches Some(id)
                ==> w.log_pending == Some((id, now)))
            &&& w.logs.container_id == v.logs.container_id ==> w.logs == v.logs && w.effects
                == v.effects
        }),
{
    reveal(AppState::logs_synced);
}

// ---------------------------------------------------------------------------
// Stacks
// ---------------------------------------------------------------------------

/// The header of a stack counts the items that belong to it, and those of them that run.
pub proof fn headers_count_exactly(
    containers: Seq<ContainerView>,
    items: Seq<usize>,
    folded: Set<Seq<char>>,
    key: Seq<char>,
)
    ensures
        header(containers, items, folded, key).items == items.filter(
            |i: usize| key_of(containers, i) == key,
        ).len(),
        header(containers, items, folded, key).running == items.filter(
            |i: usize| key_of(containers, i) == key && containers[i as int].state.running(),
        ).len(),
        header(containers, items, folded, key).collapsed <==> folded.contains(key),
        header(containers, items, folded, key).key == key,
    decreases items.len(),
{
    reveal(Seq::filter);
    if items.len() > 0 {
        let rest = items.drop_last();
        headers_count_exactly(containers, rest, folded, key);
        let low = members(containers, rest, key);
        if key_of(containers, items.last()) == key {
            assert(low.push(items.last()).drop_last() =~= low);
            assert(running_among(containers, low.push(items.last())) == running_among(
                containers,
                low,
            ) + (if containers[items.last() as int].state.running() {
                1nat
            } else {
                0
            }));
        }
    }
}

proof fn all_folded(folded: Set<Seq<char>>, groups: Seq<GroupView>, n: int, key: Seq<char>)
    requires
        0 <= n <= groups.len(),
    ensures
        folding_all(folded, groups, n).contains(key) <==> folded.contains(key) || exists|g: int|
            0 <= g < n && (#[trigger] groups[g]).key == key,
    decreases n,
{
    if n > 0 {
        all_folded(folded, groups, n - 1, key);
        if groups[n - 1].key == key {
            assert(groups[n - 1].key == key);
        }
    }
}

/// Folding the stack that the cursor is in, on its header or on one of its containers,
/// folds that stack or unfolds it, and leaves every other as it is.
pub proof fn stacks_fold_where_the_cursor_is(v: AppState, g: int, other: Seq<char>, now: u64)
    requires
        v.grouping(),
        0 <= g < v.groups.len(),
        v.selected_group == Some(v.groups[g].key) || (v.selected_group is None && v.container()
            is Some && crate::docker::model::or_empty((v.container()->0).stack) == v.groups[g].key),
        other != v.groups[g].key,
    ensures
        v.ran(Command::ToggleCollapse, now).collapsed.contains(v.groups[g].key)
            <==> !v.collapsed.contains(v.groups[g].key),
        v.ran(Command::ToggleCollapse, now).collapsed.contains(other) <==> v.collapsed.contains(
            other,
        ),
{
    reveal(AppState::ran);
    reveal(AppState::obeyed);
    reveal(AppState::collapse_toggled);
    group_is_found(v.groups, g);
    let key = v.groups[g].key;
    let folded = AppState {
        collapsed: if v.collapsed.contains(key) {
            v.collapsed.remove(key)
        } else {
            v.collapsed.insert(key)
        },
        selected_group: Some(key),
        ..v
    };
    rebuilding_keeps(folded, Tab::Containers);
}

/// Folding everything folds every stack that is listed, if one of them is open, and
/// unfolds them all if none is.
pub proof fn stacks_fold_together(v: AppState, g: int, now: u64)
    requires
        v.grouping(),
        0 <= g < v.groups.len(),
    ensures
        !v.groups[g].collapsed ==> forall|k: int|
            0 <= k < v.groups.len() ==> v.ran(
                Command::ToggleCollapseAll,
                now,
            ).collapsed.contains((#[trigger] v.groups[k]).key),
        (forall|k: int| 0 <= k < v.groups.len() ==> (#[trigger] v.groups[k]).collapsed)
            ==> !v.ran(Command::ToggleCollapseAll, now).collapsed.contains(v.groups[g].key),
{
    reveal(AppState::ran);
    reveal(AppState::obeyed);
    reveal(AppState::collapse_all_toggled);
    let all = folding_all(v.collapsed, v.groups, v.groups.len() as int);
    let folded = AppState {
        collapsed: all,
        selected_group: match v.group() {
            Some(g) => Some(g.key),
            None => v.selected_group,
        },
        ..v
    };
    rebuilding_keeps(folded, Tab::Containers);
    rebuilding_keeps(AppState { collapsed: Set::empty(), ..v }, Tab::Containers);
    assert forall|k: int| 0 <= k < v.groups.len() implies all.contains(
        (#[trigger] v.groups[k]).key,
    ) by {
        all_folded(v.collapsed, v.groups, v.groups.len() as int, v.groups[k].key);
    }
}

// ---------------------------------------------------------------------------
// The start
// ---------------------------------------------------------------------------

/// A session starts on the containers, all of them and by name, with the log pane open
/// and following and the details closed; nothing is selected, filtered, asked or under
/// way, and nothing has been read yet.
pub proof fn sessions_start_afresh(theme: Theme, tab: Tab)
    ensures
        ({
            let v = initial(theme);
            &&& v.theme == theme && v.symbols == symbols_of(theme.glyphs)
            &&& v.tab == Tab::Containers && v.mode == Mode::Normal && v.focus == Focus::List
            &&& v.show_stopped && v.show_logs && !v.show_detail && !v.group_by_stack
            &&& v.logs.follow && !v.logs.wrap && v.logs.timestamps && v.logs.container_id is None
            &&& v.sort_of(tab) == Sort::Name && !v.sort_reverse.at(tab)
            &&& v.filter.at(tab).value.len() == 0 && v.selected.at(tab) is None
            &&& v.count(tab) == 0 && v.toasts.len() == 0 && v.effects.len() == 0
            &&& v.confirm is None && v.exec_request is None && v.daemon_error is None
            &&& !v.should_quit && v.dirty
        }),
{
}

/// A value on the clipboard is told by its short form, and one that did not get there by
/// the reason.
pub proof fn copying_is_told(v: AppState, value: Seq<char>, reason: Seq<char>, now: u64)
    ensures
        v.told_copied(value, Ok(()), now).toasts.last() == (ToastView {
            kind: ToastKind::Success,
            text: "copied "@ + short(value),
            born: now,
        }),
        v.told_copied(value, Err(reason), now).toasts.last() == (ToastView {
            kind: ToastKind::Error,
            text: "clipboard failed: "@ + reason,
            born: now,
        }),
{
    reveal(AppState::told_copied);
}

/// A selection that is no longer listed gives way to the first of the list.
pub proof fn lost_selections_fall_to_the_first(v: AppState, i: usize)
    requires
        v.selected_group is None,
        v.rows().len() > 0,
        v.rows()[0] == ViewRow::Item(i),
        forall|k: int|
            0 <= k < v.rows().len() ==> (#[trigger] v.rows()[k] matches ViewRow::Item(j)
                ==> v.key_at(v.tab, j as int) != v.selected.at(v.tab) || v.selected.at(
                v.tab,
            ) is None),
    ensures
        v.with_selection().selected.at(v.tab) == v.key_at(v.tab, i as int),
        v.with_selection().selected_group is None || v.key_at(v.tab, i as int) is None,
{
    reveal(AppState::with_selection);
    reveal(AppState::header_stays);
    reveal(AppState::first_key);
    reveal(AppState::first_header);
    reveal(AppState::selection_stays);
    if let Some(id) = v.selected.at(v.tab) {
        unlisted(v, id, 0);
    }
}

proof fn unlisted(v: AppState, id: Seq<char>, from: int)
    requires
        0 <= from,
        forall|k: int|
            0 <= k < v.rows().len() ==> (#[trigger] v.rows()[k] matches ViewRow::Item(j)
                ==> v.key_at(v.tab, j as int) != Some(id)),
    ensures
        !v.lists(id, from),
    decreases v.rows().len() - from,
{
    if from < v.rows().len() {
        unlisted(v, id, from + 1);
        assert(v.rows()[from] matches ViewRow::Item(j) ==> v.key_at(v.tab, j as int) != Some(id));
    }
}

} // verus!
