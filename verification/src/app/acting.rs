//! What pressing a key comes to: on the selection, on the screen and at the daemon.

use vstd::prelude::*;

use crate::action::{every_binding_resolves, keys_of, Command, Key, KeyCode, KeyEvent, KeyEventKind};
use crate::app::input::{Edit, InputView};
use crate::app::state::{
    container_by_id, group_by_key, image_by_reference, network_by_id, volume_by_name, AppState,
    EffectView,
};
use crate::app::{cycle_of, Focus, Mode, Sort, Tab, ToastKind, ViewRow};
use crate::docker::actions::{request_of, JobView, RequestView};
use crate::docker::model::{
    predefined, reference_text, ContainerView, ImageView, NetworkView, State, VolumeView,
};
use crate::app::GroupView;

verus! {

broadcast use vstd::string::group_string_axioms;

// ---------------------------------------------------------------------------
// Keys
// ---------------------------------------------------------------------------

/// The command that a key is documented to carry out.
pub open spec fn documented(code: KeyCode, ctrl: bool) -> Option<Command> {
    match (code, ctrl) {
        (KeyCode::Char('1'), false) => Some(Command::TabContainers),
        (KeyCode::Char('2'), false) => Some(Command::TabImages),
        (KeyCode::Char('3'), false) => Some(Command::TabVolumes),
        (KeyCode::Char('4'), false) => Some(Command::TabNetworks),
        (KeyCode::Tab, false) => Some(Command::NextTab),
        (KeyCode::BackTab, false) => Some(Command::PrevTab),
        (KeyCode::Up, false) | (KeyCode::Char('k'), false) => Some(Command::Up),
        (KeyCode::Down, false) | (KeyCode::Char('j'), false) => Some(Command::Down),
        (KeyCode::Char('g'), false) | (KeyCode::Home, false) => Some(Command::Top),
        (KeyCode::Char('G'), false) | (KeyCode::End, false) => Some(Command::Bottom),
        (KeyCode::Char('u'), true) | (KeyCode::PageUp, false) => Some(Command::PageUp),
        (KeyCode::Char('d'), true) | (KeyCode::PageDown, false) => Some(Command::PageDown),
        (KeyCode::Enter, false) => Some(Command::ToggleDetail),
        (KeyCode::Char('l'), false) => Some(Command::ToggleLogs),
        (KeyCode::Char('w'), true) => Some(Command::FocusNext),
        (KeyCode::Char('f'), false) => Some(Command::ToggleFollow),
        (KeyCode::Char('w'), false) => Some(Command::ToggleWrap),
        (KeyCode::Char('t'), false) => Some(Command::ToggleTimestamps),
        (KeyCode::Char('u'), false) => Some(Command::Start),
        (KeyCode::Char('S'), false) => Some(Command::Stop),
        (KeyCode::Char('r'), false) => Some(Command::Restart),
        (KeyCode::Char('p'), false) => Some(Command::Pause),
        (KeyCode::Char('K'), false) => Some(Command::Kill),
        (KeyCode::Char('s'), false) => Some(Command::Exec),
        (KeyCode::Char('d'), false) => Some(Command::Remove),
        (KeyCode::Char('P'), false) => Some(Command::Prune),
        (KeyCode::Char('y'), false) => Some(Command::CopyId),
        (KeyCode::Char('/'), false) => Some(Command::Filter),
        (KeyCode::Esc, false) => Some(Command::ClearFilter),
        (KeyCode::Char(':'), false) => Some(Command::Palette),
        (KeyCode::Char('?'), false) => Some(Command::Help),
        (KeyCode::Char('z'), false) => Some(Command::ToggleGroup),
        (KeyCode::Char(' '), false) => Some(Command::ToggleCollapse),
        (KeyCode::Char('Z'), false) => Some(Command::ToggleCollapseAll),
        (KeyCode::Char('o'), false) => Some(Command::SortNext),
        (KeyCode::Char('O'), false) => Some(Command::SortReverse),
        (KeyCode::Char('a'), false) => Some(Command::ToggleAll),
        (KeyCode::Char('r'), true) => Some(Command::Refresh),
        (KeyCode::Char('q'), false) | (KeyCode::Char('c'), true) => Some(Command::Quit),
        _ => None,
    }
}

/// A key that is pressed with nothing in front of the lists carries out the command it
/// is documented for; any other key does nothing but ask for a frame.
pub proof fn keys_do_what_is_documented(v: AppState, ev: KeyEvent, now: u64)
    requires
        ev.kind == KeyEventKind::Press,
        v.mode == Mode::Normal,
    ensures
        match documented(ev.code, ev.ctrl) {
            Some(cmd) => v.typed(ev, now) == v.woken().ran(cmd, now),
            None => v.typed(ev, now) == v.woken(),
        },
{
    reveal(AppState::typed);
    let key = Key { code: ev.code, ctrl: ev.ctrl };
    match documented(ev.code, ev.ctrl) {
        Some(cmd) => {
            let keys = keys_of(cmd);
            assert(keys[0] == key || keys[1] == key);
            assert(keys.contains(key));
            every_binding_resolves(cmd, key);
        },
        None => {
            unbound(key, 0);
        },
    }
}

proof fn unbound(key: Key, i: int)
    requires
        documented(key.code, key.ctrl) is None,
        0 <= i,
    ensures
        crate::action::bound_from(key, i) is None,
    decreases crate::action::COMMAND_COUNT - i,
{
    if i < crate::action::COMMAND_COUNT {
        let cmd = crate::action::command_table()[i];
        if keys_of(cmd).contains(key) {
            let k = choose|k: int| 0 <= k < keys_of(cmd).len() && keys_of(cmd)[k] == key;
            assert(documented(keys_of(cmd)[k].code, keys_of(cmd)[k].ctrl) is Some);
        }
        unbound(key, i + 1);
    }
}

// ---------------------------------------------------------------------------
// The selection
// ---------------------------------------------------------------------------

proof fn named_container(rows: Seq<ContainerView>, id: Seq<char>)
    ensures
        match container_by_id(rows, id) {
            Some(c) => c.id == id && rows.contains(c),
            None => forall|k: int| 0 <= k < rows.len() ==> (#[trigger] rows[k]).id != id,
        },
    decreases rows.len(),
{
    if rows.len() > 0 {
        let rest = rows.drop_first();
        named_container(rest, id);
        if rows[0].id != id {
            match container_by_id(rest, id) {
                Some(c) => {
                    let k = choose|k: int| 0 <= k < rest.len() && rest[k] == c;
                    assert(rows[k + 1] == c);
                },
                None => {
                    assert forall|k: int| 0 <= k < rows.len() implies (#[trigger] rows[k]).id
                        != id by {
                        if k > 0 {
                            assert(rest[k - 1] == rows[k]);
                        }
                    }
                },
            }
        } else {
            assert(rows.contains(rows[0]));
        }
    }
}

/// The selected container is one that there is and that has the selected id; and where
/// there is one with that id, one is selected.
pub proof fn the_selected_container_has_the_selected_id(v: AppState)
    ensures
        v.container() matches Some(c) ==> v.containers.contains(c) && v.selected.containers
            == Some(c.id) && v.tab == Tab::Containers && !v.on_group(),
        v.container() is None && v.tab == Tab::Containers && !v.on_group()
            && v.selected.containers is Some ==> forall|k: int|
            0 <= k < v.containers.len() ==> (#[trigger] v.containers[k]).id
                != v.selected.containers->0,
{
    if let Some(id) = v.selected.containers {
        named_container(v.containers, id);
    }
}

proof fn named_image(rows: Seq<ImageView>, id: Seq<char>)
    ensures
        match image_by_reference(rows, id) {
            Some(c) => reference_text(c) == id && rows.contains(c),
            None => forall|k: int| 0 <= k < rows.len() ==> reference_text(#[trigger] rows[k]) != id,
        },
    decreases rows.len(),
{
    if rows.len() > 0 {
        let rest = rows.drop_first();
        named_image(rest, id);
        if reference_text(rows[0]) != id {
            match image_by_reference(rest, id) {
                Some(c) => {
                    let k = choose|k: int| 0 <= k < rest.len() && rest[k] == c;
                    assert(rows[k + 1] == c);
                },
                None => {
                    assert forall|k: int| 0 <= k < rows.len() implies reference_text(
                        #[trigger] rows[k],
                    ) != id by {
                        if k > 0 {
                            assert(rest[k - 1] == rows[k]);
                        }
                    }
                },
            }
        } else {
            assert(rows.contains(rows[0]));
        }
    }
}

proof fn named_volume(rows: Seq<VolumeView>, id: Seq<char>)
    ensures
        match volume_by_name(rows, id) {
            Some(c) => c.name == id && rows.contains(c),
            None => forall|k: int| 0 <= k < rows.len() ==> (#[trigger] rows[k]).name != id,
        },
    decreases rows.len(),
{
    if rows.len() > 0 {
        let rest = rows.drop_first();
        named_volume(rest, id);
        if rows[0].name != id {
            match volume_by_name(rest, id) {
                Some(c) => {
                    let k = choose|k: int| 0 <= k < rest.len() && rest[k] == c;
                    assert(rows[k + 1] == c);
                },
                None => {
                    assert forall|k: int| 0 <= k < rows.len() implies (#[trigger] rows[k]).name
                        != id by {
                        if k > 0 {
                            assert(rest[k - 1] == rows[k]);
                        }
                    }
                },
            }
        } else {
            assert(rows.contains(rows[0]));
        }
    }
}

proof fn named_network(rows: Seq<NetworkView>, id: Seq<char>)
    ensures
        match network_by_id(rows, id) {
            Some(c) => c.id == id && rows.contains(c),
            None => forall|k: int| 0 <= k < rows.len() ==> (#[trigger] rows[k]).id != id,
        },
    decreases rows.len(),
{
    if rows.len() > 0 {
        let rest = rows.drop_first();
        named_network(rest, id);
        if rows[0].id != id {
            match network_by_id(rest, id) {
                Some(c) => {
                    let k = choose|k: int| 0 <= k < rest.len() && rest[k] == c;
                    assert(rows[k + 1] == c);
                },
                None => {
                    assert forall|k: int| 0 <= k < rows.len() implies (#[trigger] rows[k]).id
                        != id by {
                        if k > 0 {
                            assert(rest[k - 1] == rows[k]);
                        }
                    }
                },
            }
        } else {
            assert(rows.contains(rows[0]));
        }
    }
}

proof fn named_group(rows: Seq<GroupView>, key: Seq<char>)
    ensures
        match group_by_key(rows, key) {
            Some(g) => g.key == key && rows.contains(g),
            None => forall|k: int| 0 <= k < rows.len() ==> (#[trigger] rows[k]).key != key,
        },
    decreases rows.len(),
{
    if rows.len() > 0 {
        let rest = rows.drop_first();
        named_group(rest, key);
        if rows[0].key != key {
            match group_by_key(rest, key) {
                Some(c) => {
                    let k = choose|k: int| 0 <= k < rest.len() && rest[k] == c;
                    assert(rows[k + 1] == c);
                },
                None => {
                    assert forall|k: int| 0 <= k < rows.len() implies (#[trigger] rows[k]).key
                        != key by {
                        if k > 0 {
                            assert(rest[k - 1] == rows[k]);
                        }
                    }
                },
            }
        } else {
            assert(rows.contains(rows[0]));
        }
    }
}

/// The selected image, volume, network and stack are ones that there are and that go by
/// the name that is selected.
pub proof fn selections_go_by_their_names(v: AppState)
    ensures
        v.image() matches Some(i) ==> v.images.contains(i) && v.selected.images == Some(
            reference_text(i),
        ) && v.tab == Tab::Images,
        v.volume() matches Some(x) ==> v.volumes.contains(x) && v.selected.volumes == Some(x.name)
            && v.tab == Tab::Volumes,
        v.network() matches Some(n) ==> v.networks.contains(n) && v.selected.networks == Some(n.id)
            && v.tab == Tab::Networks,
        v.group() matches Some(g) ==> v.groups.contains(g),
        v.group() matches Some(g) ==> v.selected_group matches Some(key) ==> g.key == key,
        v.group() matches Some(g) ==> v.selected_group is None ==> (v.container() matches Some(c)
            && g.key == (match c.stack {
            Some(stack) => stack,
            None => Seq::empty(),
        })),
{
    if let Some(id) = v.selected.images {
        named_image(v.images, id);
    }
    if let Some(id) = v.selected.volumes {
        named_volume(v.volumes, id);
    }
    if let Some(id) = v.selected.networks {
        named_network(v.networks, id);
    }
    if let Some(key) = v.selected_group {
        named_group(v.groups, key);
    }
    if let Some(c) = v.container() {
        named_group(v.groups, crate::app::grouping::stack_key(c));
    }
}

// ---------------------------------------------------------------------------
// Moving
// ---------------------------------------------------------------------------

/// Whether `after` has its cursor on what row `r` of `before` lists.
pub open spec fn selects(before: AppState, after: AppState, r: int) -> bool {
    match before.rows()[r] {
        ViewRow::Item(i) => after.selected_group is None && after.selected.at(before.tab)
            == before.key_at(before.tab, i as int),
        ViewRow::Group(g) => after.selected_group == Some(before.groups[g as int].key),
    }
}

pub(crate) proof fn setting_selects(v: AppState, r: int, now: u64)
    requires
        0 <= r < v.rows().len(),
        v.rows()[r] matches ViewRow::Group(g) ==> g < v.groups.len(),
    ensures
        selects(v, v.cursor_set(r, now), r),
        v.cursor_set(r, now).tab == v.tab,
        v.cursor_set(r, now).views == v.views,
        v.cursor_set(r, now).groups == v.groups,
        v.cursor_set(r, now).collapsed == v.collapsed,
        v.cursor_set(r, now).group_by_stack == v.group_by_stack,
        v.cursor_set(r, now).focus == v.focus,
        v.cursor_set(r, now).show_detail == v.show_detail,
        v.cursor_set(r, now).containers == v.containers,
{
    reveal(AppState::cursor_set);
    reveal(AppState::row_selected);
    reveal(AppState::logs_synced);
}

pub(crate) proof fn rows_have_groups(v: AppState, r: int)
    requires
        v.wf(),
        0 <= r < v.rows().len(),
    ensures
        v.rows()[r] matches ViewRow::Group(g) ==> g < v.groups.len() && v.tab == Tab::Containers,
{
    reveal(AppState::wf);
    assert(v.rows_exist(v.tab));
    assert(v.views.at(v.tab)[r] == v.rows()[r]);
}

/// With the cursor on row `k` and the list focused, the keys that move take it one row,
/// or ten, up or down, as far as there are rows; to the first row; and to the last.
pub proof fn moving_moves(v: AppState, k: int, now: u64)
    requires
        v.wf(),
        v.focus == Focus::List,
        v.cursor_from(0) == Some(k),
        0 <= k < v.rows().len(),
    ensures
        k + 1 < v.rows().len() ==> selects(v, v.ran(Command::Down, now), k + 1),
        k > 0 ==> selects(v, v.ran(Command::Up, now), k - 1),
        k + 1 == v.rows().len() ==> selects(v, v.ran(Command::Down, now), k),
        k == 0 ==> selects(v, v.ran(Command::Up, now), 0),
        k + 10 < v.rows().len() ==> selects(v, v.ran(Command::PageDown, now), k + 10),
        k + 10 >= v.rows().len() ==> selects(v, v.ran(Command::PageDown, now), v.rows().len() - 1),
        k >= 10 ==> selects(v, v.ran(Command::PageUp, now), k - 10),
        k < 10 ==> selects(v, v.ran(Command::PageUp, now), 0),
        selects(v, v.ran(Command::Top, now), 0),
        selects(v, v.ran(Command::Bottom, now), v.rows().len() - 1),
{
    reveal(AppState::ran);
    reveal(AppState::obeyed);
    reveal(AppState::cursor_moved);
    reveal(AppState::selection_moved);
    reveal(AppState::bottom_reached);
    let last = v.rows().len() - 1;
    let rows = seq![
        k,
        k + 1,
        k - 1,
        k + 10,
        k - 10,
        0,
        last,
    ];
    assert forall|j: int| 0 <= j < rows.len() && 0 <= #[trigger] rows[j] <= last implies selects(
        v,
        v.cursor_set(rows[j], now),
        rows[j],
    ) by {
        rows_have_groups(v, rows[j]);
        setting_selects(v, rows[j], now);
    }
    assert(rows[0] == k && rows[1] == k + 1 && rows[2] == k - 1 && rows[3] == k + 10 && rows[4] == k
        - 10 && rows[5] == 0 && rows[6] == last);
}

/// With the log pane focused, the keys that move scroll it instead: up goes back to
/// older lines, down comes forward to newer ones, and the pane follows exactly when it
/// is at the newest.
pub proof fn moving_scrolls_the_logs(v: AppState, now: u64)
    requires
        v.focus == Focus::Logs,
        v.logs.scroll <= v.logs.lines.len(),
    ensures
        v.logs.scroll < v.logs.lines.len() ==> v.ran(Command::Up, now).logs.scroll == v.logs.scroll
            + 1 && !v.ran(Command::Up, now).logs.follow,
        v.logs.scroll + 10 <= v.logs.lines.len() ==> v.ran(Command::PageUp, now).logs.scroll
            == v.logs.scroll + 10,
        v.logs.scroll > 0 ==> v.ran(Command::Down, now).logs.scroll == v.logs.scroll - 1,
        v.logs.scroll >= 10 ==> v.ran(Command::PageDown, now).logs.scroll == v.logs.scroll - 10,
        v.logs.scroll <= 1 ==> v.ran(Command::Down, now).logs.scroll == 0 && v.ran(
            Command::Down,
            now,
        ).logs.follow,
        v.logs.scroll > 1 ==> !v.ran(Command::Down, now).logs.follow,
        v.ran(Command::Up, now).logs.lines == v.logs.lines,
        v.ran(Command::Up, now).selected == v.selected,
        v.ran(Command::Down, now).selected == v.selected,
{
    reveal(AppState::ran);
    reveal(AppState::obeyed);
    reveal(AppState::cursor_moved);
    reveal(AppState::logs_scrolled);
}

/// The tabs: a number goes to its tab, and tab goes through them from left to right and
/// round.
pub proof fn tabs_are_reached(v: AppState, now: u64)
    ensures
        v.ran(Command::TabContainers, now).tab == Tab::Containers,
        v.ran(Command::TabImages, now).tab == Tab::Images,
        v.ran(Command::TabVolumes, now).tab == Tab::Volumes,
        v.ran(Command::TabNetworks, now).tab == Tab::Networks,
        v.ran(Command::NextTab, now).tab == (match v.tab {
            Tab::Containers => Tab::Images,
            Tab::Images => Tab::Volumes,
            Tab::Volumes => Tab::Networks,
            Tab::Networks => Tab::Containers,
        }),
        v.ran(Command::PrevTab, now).tab == (match v.tab {
            Tab::Containers => Tab::Networks,
            Tab::Images => Tab::Containers,
            Tab::Volumes => Tab::Images,
            Tab::Networks => Tab::Volumes,
        }),
        v.ran(Command::NextTab, now).focus == Focus::List,
        v.ran(Command::PrevTab, now).focus == Focus::List,
        v.ran(Command::NextTab, now).filter == v.filter,
{
    reveal(AppState::ran);
    reveal(AppState::obeyed);
    going_there_leads_there(v, Tab::Containers, now);
    going_there_leads_there(v, Tab::Images, now);
    going_there_leads_there(v, Tab::Volumes, now);
    going_there_leads_there(v, Tab::Networks, now);
}

proof fn going_there_leads_there(v: AppState, tab: Tab, now: u64)
    ensures
        v.tab_set(tab, now).tab == tab,
        v.tab_set(tab, now).filter == v.filter,
        tab != v.tab ==> v.tab_set(tab, now).focus == Focus::List,
{
    reveal(AppState::tab_set);
    reveal(AppState::with_selection);
    reveal(AppState::logs_synced);
}

// ---------------------------------------------------------------------------
// Acting
// ---------------------------------------------------------------------------

/// Whether carrying out `cmd` starts one job and no more, and the job asks the daemon
/// for exactly `request`.
pub open spec fn asks_for(v: AppState, cmd: Command, now: u64, request: RequestView) -> bool {
    let after = v.ran(cmd, now);
    &&& after.effects.len() == v.effects.len() + 1
    &&& after.effects.take(v.effects.len() as int) == v.effects
    &&& after.effects.last() matches EffectView::StartJob(job) && request_of(job) == request
    &&& after.mode == v.mode
    &&& after.confirm == v.confirm
}

/// Whether carrying out `cmd` starts nothing but asks about a job, which on a yes is
/// started and asks the daemon for exactly `request`, and on a no is forgotten.
pub open spec fn asks_about(v: AppState, cmd: Command, now: u64, request: RequestView) -> bool {
    let after = v.ran(cmd, now);
    &&& after.effects == v.effects
    &&& after.mode == Mode::Confirm
    &&& after.confirm is Some
    &&& after.confirm_accepted().effects.len() == v.effects.len() + 1
    &&& after.confirm_accepted().effects.last() matches EffectView::StartJob(job) && request_of(job)
        == request
    &&& after.confirm_accepted().mode == Mode::Normal
    &&& after.confirm_cancelled().effects == v.effects
    &&& after.confirm_cancelled().confirm is None
    &&& after.confirm_cancelled().mode == Mode::Normal
}

/// On a selected container each lifecycle command reaches the daemon as the request it
/// is named after, for that container: at once where nothing is lost by it, and after a
/// yes where something is.
pub proof fn lifecycle_commands_do_what_they_say(v: AppState, c: ContainerView, now: u64)
    requires
        v.container() == Some(c),
    ensures
        asks_for(v, Command::Start, now, RequestView::StartContainer { id: c.id }),
        asks_for(v, Command::Stop, now, RequestView::StopContainer { id: c.id }),
        asks_for(v, Command::Restart, now, RequestView::RestartContainer { id: c.id }),
        c.state != State::Paused ==> asks_for(
            v,
            Command::Pause,
            now,
            RequestView::PauseContainer { id: c.id },
        ),
        c.state == State::Paused ==> asks_for(
            v,
            Command::Pause,
            now,
            RequestView::UnpauseContainer { id: c.id },
        ),
        asks_about(
            v,
            Command::Kill,
            now,
            RequestView::KillContainer { id: c.id, signal: "SIGKILL"@ },
        ),
        asks_about(
            v,
            Command::Remove,
            now,
            RequestView::RemoveContainer {
                id: c.id,
                force: c.state == State::Running || c.state == State::Restarting || c.state
                    == State::Paused || c.state == State::Stopping,
            },
        ),
{
    reveal(AppState::ran);
    reveal(AppState::obeyed);
    reveal(AppState::acted);
    reveal(AppState::job_for);
    reveal(AppState::job_submitted);
    reveal(AppState::job_asked);
    reveal(AppState::job_started);
    reveal(AppState::confirm_accepted);
    reveal(AppState::confirm_cancelled);
    assert(v.effects.push(
        EffectView::StartJob(JobView::Start { id: c.id, name: c.name }),
    ).take(v.effects.len() as int) =~= v.effects);
    assert(v.effects.push(
        EffectView::StartJob(JobView::Stop { id: c.id, name: c.name }),
    ).take(v.effects.len() as int) =~= v.effects);
    assert(v.effects.push(
        EffectView::StartJob(JobView::Restart { id: c.id, name: c.name }),
    ).take(v.effects.len() as int) =~= v.effects);
    assert(v.effects.push(
        EffectView::StartJob(JobView::Pause { id: c.id, name: c.name }),
    ).take(v.effects.len() as int) =~= v.effects);
    assert(v.effects.push(
        EffectView::StartJob(JobView::Unpause { id: c.id, name: c.name }),
    ).take(v.effects.len() as int) =~= v.effects);
}

/// Deleting deletes what is selected, by the name the daemon knows it by, after a yes;
/// a built-in network is refused instead.
pub proof fn deleting_deletes_the_selection(v: AppState, now: u64)
    ensures
        v.image() matches Some(i) ==> asks_about(
            v,
            Command::Remove,
            now,
            RequestView::RemoveImage {
                id: if i.dangling {
                    i.id
                } else {
                    i.repository + ":"@ + i.tag
                },
                force: false,
            },
        ),
        v.volume() matches Some(x) ==> asks_about(
            v,
            Command::Remove,
            now,
            RequestView::RemoveVolume { name: x.name, force: false },
        ),
        v.network() matches Some(n) ==> !predefined(n.name) ==> asks_about(
            v,
            Command::Remove,
            now,
            RequestView::RemoveNetwork { id: n.id },
        ),
        v.network() matches Some(n) ==> predefined(n.name) ==> ({
            let after = v.ran(Command::Remove, now);
            &&& after.effects == v.effects
            &&& after.confirm == v.confirm
            &&& after.mode == v.mode
            &&& after.toasts.len() > 0
            &&& after.toasts.last().kind == ToastKind::Error
        }),
{
    reveal(AppState::ran);
    reveal(AppState::obeyed);
    reveal(AppState::acted);
    reveal(AppState::job_for);
    reveal(AppState::job_submitted);
    reveal(AppState::job_asked);
    reveal(AppState::job_started);
    reveal(AppState::confirm_accepted);
    reveal(AppState::confirm_cancelled);
}

/// Pruning prunes what the tab is about, after a yes.
pub proof fn pruning_prunes_the_tab(v: AppState, now: u64)
    ensures
        asks_about(
            v,
            Command::Prune,
            now,
            match v.tab {
                Tab::Containers => RequestView::PruneContainers,
                Tab::Images => RequestView::PruneImages,
                Tab::Volumes => RequestView::PruneVolumes,
                Tab::Networks => RequestView::PruneNetworks,
            },
        ),
{
    reveal(AppState::ran);
    reveal(AppState::obeyed);
    reveal(AppState::acted);
    reveal(AppState::job_for);
    reveal(AppState::job_submitted);
    reveal(AppState::job_asked);
    reveal(AppState::job_started);
    reveal(AppState::confirm_accepted);
    reveal(AppState::confirm_cancelled);
}

/// Away from the containers, what is for containers does nothing.
pub proof fn container_commands_need_a_container(v: AppState, cmd: Command, now: u64)
    requires
        v.container() is None,
        !v.on_group(),
        cmd == Command::Start || cmd == Command::Stop || cmd == Command::Restart || cmd
            == Command::Pause || cmd == Command::Kill || cmd == Command::Exec,
    ensures
        v.ran(cmd, now) == v,
{
    reveal(AppState::ran);
    reveal(AppState::obeyed);
    reveal(AppState::acted);
    reveal(AppState::job_for);
    reveal(AppState::exec_asked);
}

/// Copying hands the id of the selection to the clipboard, or the name of a volume,
/// which has no id.
pub proof fn copying_copies_the_id(v: AppState, now: u64)
    requires
        !v.on_group(),
    ensures
        v.container() matches Some(c) ==> v.ran(Command::CopyId, now).effects == v.effects.push(
            EffectView::Copy(c.id),
        ),
        v.image() matches Some(i) ==> v.ran(Command::CopyId, now).effects == v.effects.push(
            EffectView::Copy(i.id),
        ),
        v.volume() matches Some(x) ==> v.ran(Command::CopyId, now).effects == v.effects.push(
            EffectView::Copy(x.name),
        ),
        v.network() matches Some(n) ==> v.ran(Command::CopyId, now).effects == v.effects.push(
            EffectView::Copy(n.id),
        ),
{
    reveal(AppState::ran);
    reveal(AppState::obeyed);
    reveal(AppState::id_copied);
    reveal(AppState::copyable);
}

/// A shell is asked for in the selected container, by its id and its name, if it is up,
/// and refused in words otherwise.
pub proof fn shells_open_in_the_selection(v: AppState, c: ContainerView, now: u64)
    requires
        v.container() == Some(c),
    ensures
        c.state == State::Running || c.state == State::Restarting ==> v.ran(
            Command::Exec,
            now,
        ).exec_request == Some((c.id, c.name)),
        !(c.state == State::Running || c.state == State::Restarting) ==> ({
            let after = v.ran(Command::Exec, now);
            &&& after.exec_request == v.exec_request
            &&& after.toasts.len() > 0
            &&& after.toasts.last().kind == ToastKind::Error
        }),
{
    reveal(AppState::ran);
    reveal(AppState::obeyed);
    reveal(AppState::exec_asked);
}

/// While a job is under way its target is marked with the job's word, and nothing else
/// is; once it is done the mark is gone, the outcome is told, and the lists are read
/// again.
pub proof fn jobs_are_marked_while_they_run(
    v: AppState,
    job: JobView,
    id: Seq<char>,
    other: Seq<char>,
    result: Result<Seq<char>, Seq<char>>,
    now: u64,
)
    requires
        crate::docker::actions::target_of(job) == Some(id),
        other != id,
    ensures
        v.job_started(job).busy(id) == Some(crate::docker::actions::verb_of(job)),
        v.job_started(job).busy(other) == v.busy(other),
        ({
            let after = v.told(crate::event::AppEventView::JobDone { job, result }, now);
            &&& after.busy(id) is None
            &&& after.busy(other) == v.busy(other)
            &&& after.toasts.len() > 0
            &&& after.toasts.last().text == (match result {
                Ok(text) => text,
                Err(text) => text,
            })
            &&& after.toasts.last().kind == (match result {
                Ok(_) => ToastKind::Success,
                Err(_) => ToastKind::Error,
            })
            &&& after.effects == v.effects.push(EffectView::Refresh)
        }),
{
    reveal(AppState::job_started);
    reveal(AppState::told);
    reveal(AppState::woken);
    reveal(AppState::job_done);
}

// ---------------------------------------------------------------------------
// Switches
// ---------------------------------------------------------------------------

/// Each switch of the panes turns what it is named after, and nothing else of them.
pub proof fn pane_switches_switch(v: AppState, now: u64)
    ensures
        v.ran(Command::ToggleDetail, now).show_detail == !v.show_detail,
        v.ran(Command::ToggleDetail, now).show_logs == v.show_logs,
        v.tab == Tab::Containers ==> v.ran(Command::ToggleLogs, now).show_logs == !v.show_logs,
        v.ran(Command::ToggleLogs, now).show_detail == v.show_detail,
        v.tab == Tab::Containers && v.show_logs ==> v.ran(Command::ToggleLogs, now).focus
            == Focus::List,
        v.tab == Tab::Containers && v.show_logs ==> v.ran(Command::FocusNext, now).focus
            != v.focus,
        v.tab != Tab::Containers || !v.show_logs ==> v.ran(Command::FocusNext, now).focus
            == v.focus,
{
    reveal(AppState::ran);
    reveal(AppState::obeyed);
    reveal(AppState::logs_toggled);
    reveal(AppState::logs_synced);
    reveal(AppState::focus_moved);
}

/// Each switch of the log pane turns what it is named after; following again goes to
/// the newest line, and no longer following stays where it is.
pub proof fn log_switches_switch(v: AppState, now: u64)
    ensures
        v.ran(Command::ToggleWrap, now).logs.wrap == !v.logs.wrap,
        v.ran(Command::ToggleWrap, now).logs.timestamps == v.logs.timestamps,
        v.ran(Command::ToggleWrap, now).logs.scroll == v.logs.scroll,
        v.ran(Command::ToggleTimestamps, now).logs.timestamps == !v.logs.timestamps,
        v.ran(Command::ToggleTimestamps, now).logs.wrap == v.logs.wrap,
        v.ran(Command::ToggleFollow, now).logs.follow == !v.logs.follow,
        !v.logs.follow ==> v.ran(Command::ToggleFollow, now).logs.scroll == 0,
        v.logs.follow ==> v.ran(Command::ToggleFollow, now).logs.scroll == v.logs.scroll,
        v.ran(Command::ToggleFollow, now).logs.lines == v.logs.lines,
{
    reveal(AppState::ran);
    reveal(AppState::obeyed);
}

/// Each switch of the lists turns what it is named after.
pub proof fn list_switches_switch(v: AppState, now: u64)
    ensures
        v.ran(Command::ToggleAll, now).show_stopped == !v.show_stopped,
        v.tab == Tab::Containers ==> v.ran(Command::ToggleGroup, now).group_by_stack
            == !v.group_by_stack,
        v.tab != Tab::Containers ==> v.ran(Command::ToggleGroup, now) == v,
        v.ran(Command::SortReverse, now).sort_reverse.at(v.tab) == !v.sort_reverse.at(v.tab),
        v.ran(Command::SortReverse, now).sort_index == v.sort_index,
        v.ran(Command::ClearFilter, now).filter.at(v.tab).value.len() == 0,
{
    reveal(AppState::ran);
    reveal(AppState::obeyed);
    reveal(AppState::stopped_toggled);
    reveal(AppState::grouping_toggled);
    reveal(AppState::filter_edited);
    reveal(AppState::filter_touched);
    reveal(AppState::sort_turned);
    rebuilding_keeps(
        AppState { show_stopped: !v.show_stopped, ..v },
        Tab::Containers,
    );
    rebuilding_keeps(
        AppState {
            group_by_stack: !v.group_by_stack,
            selected_group: None,
            offset: v.offset.with(Tab::Containers, 0),
            ..v
        },
        Tab::Containers,
    );
    rebuilding_keeps(
        AppState { sort_reverse: v.sort_reverse.with(v.tab, !v.sort_reverse.at(v.tab)), ..v },
        v.tab,
    );
    rebuilding_keeps(v.filter_touched(Edit::Clear), v.tab);
    reveal(InputView::edited);
}

pub(crate) proof fn rebuilding_keeps(v: AppState, tab: Tab)
    ensures
        v.rebuilt(tab).tab == v.tab,
        v.rebuilt(tab).mode == v.mode,
        v.rebuilt(tab).focus == v.focus,
        v.rebuilt(tab).show_stopped == v.show_stopped,
        v.rebuilt(tab).group_by_stack == v.group_by_stack,
        v.rebuilt(tab).collapsed == v.collapsed,
        v.rebuilt(tab).sort_index == v.sort_index,
        v.rebuilt(tab).sort_reverse == v.sort_reverse,
        v.rebuilt(tab).filter == v.filter,
        v.rebuilt(tab).containers == v.containers,
        v.rebuilt(tab).images == v.images,
        v.rebuilt(tab).volumes == v.volumes,
        v.rebuilt(tab).networks == v.networks,
        v.rebuilt(tab).stats == v.stats,
        v.rebuilt(tab).logs == v.logs,
        v.rebuilt(tab).effects == v.effects,
        v.rebuilt(tab).toasts == v.toasts,
        v.rebuilt(tab).views.at(tab) == v.rows_for(tab),
{
    reveal(AppState::rebuilt);
    reveal(AppState::with_selection);
}

/// Each command that opens something opens it, and the one that leaves leaves.
pub proof fn doors_open(v: AppState, now: u64)
    ensures
        v.ran(Command::Quit, now).should_quit,
        v.ran(Command::Help, now).mode == Mode::Help,
        v.ran(Command::Filter, now).mode == Mode::Filter,
        v.ran(Command::Filter, now).filter == v.filter,
        v.ran(Command::Palette, now).mode == Mode::Palette,
        v.ran(Command::Palette, now).palette_input.value.len() == 0,
        v.ran(Command::Palette, now).palette_cursor == 0,
        v.ran(Command::Refresh, now).effects == v.effects.push(EffectView::Refresh),
{
    reveal(AppState::ran);
    reveal(AppState::obeyed);
    reveal(AppState::palette_opened);
    reveal(AppState::refresh_asked);
}

/// Going on to the next column leads from one that the tab offers to another one, and
/// as many steps as there are columns lead back.
pub proof fn sorting_goes_round(v: AppState, now: u64)
    requires
        v.sort_index.at(v.tab) < cycle_of(v.tab).len(),
    ensures
        ({
            let after = v.ran(Command::SortNext, now);
            let n = cycle_of(v.tab).len();
            &&& after.tab == v.tab
            &&& after.sort_index.at(v.tab) < n
            &&& after.sort_of(v.tab) != v.sort_of(v.tab)
            &&& after.sort_index.at(v.tab) == (if v.sort_index.at(v.tab) + 1 == n {
                0
            } else {
                v.sort_index.at(v.tab) + 1
            })
            &&& after.sort_reverse == v.sort_reverse
        }),
{
    reveal(AppState::ran);
    reveal(AppState::obeyed);
    reveal(AppState::sort_advanced);
    let n = cycle_of(v.tab).len() as int;
    let i = v.sort_index.at(v.tab) as int;
    let next = ((i + 1) % n) as usize;
    rebuilding_keeps(AppState { sort_index: v.sort_index.with(v.tab, next), ..v }, v.tab);
    columns_on_offer(v.tab, Sort::Name);
    assert(n == 3 || n == 5);
    if i + 1 == n {
        vstd::arithmetic::div_mod::lemma_mod_self_0(n);
    } else {
        vstd::arithmetic::div_mod::lemma_small_mod((i + 1) as nat, n as nat);
    }
    assert((i + 1) % n == (if i + 1 == n {
        0
    } else {
        i + 1
    }));
    assert(cycle_of(v.tab)[next as int] != cycle_of(v.tab)[i]);
}

/// The columns that each tab can be sorted by, the name first, each once.
pub proof fn columns_on_offer(tab: Tab, sort: Sort)
    ensures
        cycle_of(tab)[0] == Sort::Name,
        cycle_of(tab).no_duplicates(),
        cycle_of(tab).contains(sort) <==> match sort {
            Sort::Name | Sort::Created => true,
            Sort::State | Sort::Cpu | Sort::Mem => tab == Tab::Containers,
            Sort::Size => tab == Tab::Images || tab == Tab::Volumes,
            Sort::Driver => tab == Tab::Networks,
        },
{
    let c = cycle_of(tab);
    assert(c.len() == 3 || c.len() == 5);
    assert(c[0] == Sort::Name);
    assert(forall|i: int| 0 <= i < c.len() ==> c.contains(#[trigger] c[i]));
    assert(c.contains(c[1]) && c.contains(c[2]));
    if tab == Tab::Containers {
        assert(c.contains(c[3]) && c.contains(c[4]));
    }
}

// ---------------------------------------------------------------------------
// Typing
// ---------------------------------------------------------------------------

/// Typing into the filter puts the character at the cursor, backspace takes out the one
/// before it, escape empties the filter and leaves it, and enter keeps it.
pub proof fn typing_edits_the_filter(v: AppState, c: char, now: u64)
    requires
        v.mode == Mode::Filter,
        v.filter.at(v.tab).cursor <= v.filter.at(v.tab).value.len(),
        v.filter.at(v.tab).cursor < usize::MAX,
    ensures
        ({
            let field = v.filter.at(v.tab);
            let at = field.cursor as int;
            let press = |code: KeyCode| v.typed(
                KeyEvent { code, ctrl: false, kind: KeyEventKind::Press },
                now,
            );
            &&& press(KeyCode::Char(c)).filter.at(v.tab).value == field.value.take(at) + seq![c]
                + field.value.skip(at)
            &&& press(KeyCode::Char(c)).filter.at(v.tab).cursor == at + 1
            &&& press(KeyCode::Char(c)).mode == Mode::Filter
            &&& at > 0 ==> press(KeyCode::Backspace).filter.at(v.tab).value == field.value.take(
                at - 1,
            ) + field.value.skip(at)
            &&& press(KeyCode::Esc).filter.at(v.tab).value.len() == 0
            &&& press(KeyCode::Esc).mode == Mode::Normal
            &&& press(KeyCode::Enter).filter.at(v.tab) == field
            &&& press(KeyCode::Enter).mode == Mode::Normal
        }),
{
    reveal(AppState::typed);
    reveal(AppState::woken);
    reveal(AppState::filter_typed);
    reveal(AppState::filter_edited);
    reveal(AppState::filter_touched);
    reveal(AppState::rebuilt);
    reveal(AppState::with_selection);
    reveal(InputView::edited);
    let field = v.filter.at(v.tab);
    let at = field.cursor as int;
    assert(field.value.insert(at, c) =~= field.value.take(at) + seq![c] + field.value.skip(at));
    if at > 0 {
        assert(field.value.remove(at - 1) =~= field.value.take(at - 1) + field.value.skip(at));
    }
}

/// Control and `u` empty the filter without leaving it, and so they do the palette's
/// query. The keys that move within the filter change nothing of it.
pub proof fn editing_keys_do_what_they_say(v: AppState, now: u64)
    ensures
        ({
            let field = v.filter.at(v.tab);
            let clear = v.typed(
                KeyEvent { code: KeyCode::Char('u'), ctrl: true, kind: KeyEventKind::Press },
                now,
            );
            let press = |code: KeyCode| v.typed(
                KeyEvent { code, ctrl: false, kind: KeyEventKind::Press },
                now,
            );
            &&& v.mode == Mode::Filter ==> clear.filter.at(v.tab).value.len() == 0 && clear.mode
                == Mode::Filter
            &&& v.mode == Mode::Palette ==> clear.palette_input.value.len() == 0 && clear.mode
                == Mode::Palette
            &&& v.mode == Mode::Filter ==> press(KeyCode::Home).filter.at(v.tab).cursor == 0
                && press(KeyCode::Home).filter.at(v.tab).value == field.value
            &&& v.mode == Mode::Filter ==> press(KeyCode::End).filter.at(v.tab).cursor
                == field.value.len() && press(KeyCode::End).filter.at(v.tab).value == field.value
            &&& v.mode == Mode::Filter && field.cursor > 0 ==> press(KeyCode::Left).filter.at(
                v.tab,
            ).cursor == field.cursor - 1 && press(KeyCode::Left).filter.at(v.tab).value
                == field.value
            &&& v.mode == Mode::Filter && field.cursor < field.value.len() ==> press(
                KeyCode::Right,
            ).filter.at(v.tab).cursor == field.cursor + 1 && press(KeyCode::Right).filter.at(
                v.tab,
            ).value == field.value
            &&& v.mode == Mode::Filter && field.cursor < field.value.len() ==> press(
                KeyCode::Delete,
            ).filter.at(v.tab).value == field.value.take(field.cursor as int)
                + field.value.skip(field.cursor as int + 1)
        }),
{
    reveal(AppState::typed);
    reveal(AppState::woken);
    reveal(AppState::filter_typed);
    reveal(AppState::filter_edited);
    reveal(AppState::filter_touched);
    reveal(AppState::palette_typed);
    reveal(AppState::query_edited);
    reveal(InputView::edited);
    let field = v.filter.at(v.tab);
    assert forall|w: AppState, tab: Tab| (#[trigger] w.rebuilt(tab)).filter == w.filter && w.rebuilt(
        tab,
    ).mode == w.mode by {
        rebuilding_keeps(w, tab);
    }
    if field.cursor < field.value.len() {
        let at = field.cursor as int;
        assert(field.value.remove(at) =~= field.value.take(at) + field.value.skip(at + 1));
    }
}

/// Whatever the filter holds, the rows on screen are those that it lets through.
pub proof fn the_filter_is_applied_as_it_is_typed(v: AppState, edit: Edit)
    ensures
        v.filter_edited(edit).views.at(v.tab) == v.filter_touched(edit).rows_for(v.tab),
{
    reveal(AppState::filter_edited);
    reveal(AppState::filter_touched);
    reveal(AppState::rebuilt);
    reveal(AppState::with_selection);
}

/// The arrows, tab and enter in a question: one moves between the two answers, the
/// other gives the one that is chosen; a letter gives its own.
pub proof fn questions_are_answered(v: AppState, ev: KeyEvent, now: u64)
    requires
        v.mode == Mode::Confirm,
        ev.kind == KeyEventKind::Press,
    ensures
        ev.code == KeyCode::Left || ev.code == KeyCode::Right || ev.code == KeyCode::Tab ==> v.typed(
            ev,
            now,
        ).confirm_accept != v.confirm_accept && v.typed(ev, now).confirm == v.confirm && v.typed(
            ev,
            now,
        ).effects == v.effects,
        ev.code == KeyCode::Enter && v.confirm_accept || ev.code == KeyCode::Char('y') ==> v.typed(
            ev,
            now,
        ) == v.woken().confirm_accepted(),
        ev.code == KeyCode::Enter && !v.confirm_accept || ev.code == KeyCode::Char('n') || ev.code
            == KeyCode::Esc ==> v.typed(ev, now) == v.woken().confirm_cancelled(),
{
    reveal(AppState::typed);
    reveal(AppState::woken);
    reveal(AppState::confirm_typed);
}

/// Enter in the palette closes it and carries out the command under the cursor; escape
/// closes it and carries out nothing; what is typed goes into its query.
pub proof fn the_palette_carries_out_its_choice(v: AppState, c: char, now: u64)
    requires
        v.mode == Mode::Palette,
        v.palette_cursor < crate::app::palette::palette_for(v.palette_input.value).len(),
        v.palette_input.cursor == v.palette_input.value.len() < usize::MAX,
    ensures
        ({
            let chosen = crate::action::command_table()[crate::app::palette::palette_for(
                v.palette_input.value,
            )[v.palette_cursor as int] as int];
            let press = |code: KeyCode| v.typed(
                KeyEvent { code, ctrl: false, kind: KeyEventKind::Press },
                now,
            );
            let closed = AppState {
                mode: Mode::Normal,
                palette_input: crate::app::input::blank(),
                palette_cursor: 0,
                ..v.woken()
            };
            &&& press(KeyCode::Enter) == closed.ran(chosen, now)
            &&& press(KeyCode::Esc).mode == Mode::Normal
            &&& press(KeyCode::Esc).effects == v.effects
            &&& press(KeyCode::Esc).palette_input.value.len() == 0
            &&& press(KeyCode::Char(c)).palette_input.value == v.palette_input.value.push(c)
            &&& press(KeyCode::Char(c)).palette_cursor == 0
            &&& v.palette_cursor > 0 ==> press(KeyCode::Up).palette_cursor == v.palette_cursor - 1
            &&& v.palette_cursor < usize::MAX && v.palette_cursor + 1
                < crate::app::palette::palette_for(v.palette_input.value).len() ==> press(KeyCode::Down).palette_cursor == v.palette_cursor + 1
        }),
{
    reveal(AppState::typed);
    reveal(AppState::woken);
    reveal(AppState::palette_typed);
    reveal(AppState::palette_chosen);
    reveal(AppState::palette_left_alone);
    reveal(AppState::palette_moved);
    reveal(AppState::query_edited);
    reveal(InputView::edited);
    let field = v.palette_input;
    assert(field.value.insert(field.cursor as int, c) =~= field.value.push(c));
}

} // verus!
