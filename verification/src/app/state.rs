//! Everything the UI knows.

use std::collections::VecDeque;

use vstd::prelude::*;

use crate::app::hits::{nothing_drawn, HitMap, HitView};
use crate::app::input::{blank, Input, InputView};
use crate::app::{
    cycle_of, fit, fitted, sort_cycle, Focus, Group, GroupView, Mode, PerTab, Sort, Splitter, Tab,
    Toast, ToastView, ViewRow, LOG_CAPACITY, MIN_DETAIL_COLS, MIN_DETAIL_ROWS, MIN_LIST_COLS,
    MIN_LIST_ROWS, MIN_LOG_ROWS,
};
use crate::docker::actions::{Job, JobView};
use crate::docker::logs::{LogLine, LogLineView};
use crate::docker::model::{
    reference_text, unknown_daemon, ContainerRow, ContainerView, DaemonInfo, DaemonView, ImageRow,
    ImageView, NetworkRow, NetworkView, VolumeRow, VolumeView,
};
use crate::docker::stats::{StatSample, StatView};
use crate::geometry::Position;
use crate::names::{NameMap, NameSet};
use crate::text::{owned, same};
use crate::ui::theme::{symbols_of, Symbols, SymbolsView, Theme};

verus! {

broadcast use vstd::string::group_string_axioms;

/// Something the reducer wants done that it cannot do itself.
#[derive(Debug, Clone, PartialEq, Eq)]
pub enum Effect {
    /// Read every list again, now.
    Refresh,
    /// Run a job and report back.
    StartJob(Job),
    /// Open the log stream of a container.
    AttachLogs { id: String, generation: u64 },
    /// Close the log stream, if one is open.
    DetachLogs,
    /// Reconcile the stats streams with the containers.
    SyncStats,
    /// Close every stats stream.
    ClearStats,
    /// Put text on the clipboard and report back.
    Copy(String),
}

/// The mathematical value of an [`Effect`].
#[verifier::ext_equal]
pub enum EffectView {
    Refresh,
    StartJob(JobView),
    AttachLogs { id: Seq<char>, generation: u64 },
    DetachLogs,
    SyncStats,
    ClearStats,
    Copy(Seq<char>),
}

impl DeepView for Effect {
    type V = EffectView;

    open spec fn deep_view(&self) -> EffectView {
        match self {
            Effect::Refresh => EffectView::Refresh,
            Effect::StartJob(job) => EffectView::StartJob(job.deep_view()),
            Effect::AttachLogs { id, generation } => EffectView::AttachLogs {
                id: id@,
                generation: *generation,
            },
            Effect::DetachLogs => EffectView::DetachLogs,
            Effect::SyncStats => EffectView::SyncStats,
            Effect::ClearStats => EffectView::ClearStats,
            Effect::Copy(text) => EffectView::Copy(text@),
        }
    }
}

/// Everything about the log pane.
pub struct LogState {
    pub container_id: Option<String>,
    pub generation: u64,
    pub lines: VecDeque<LogLine>,
    /// Lines scrolled up from the bottom. 0 means pinned to the newest line.
    pub scroll: usize,
    pub follow: bool,
    pub wrap: bool,
    pub timestamps: bool,
    pub error: Option<String>,
    pub loading: bool,
}

/// The mathematical value of a [`LogState`].
pub struct LogView {
    pub container_id: Option<Seq<char>>,
    pub generation: u64,
    pub lines: Seq<LogLineView>,
    pub scroll: nat,
    pub follow: bool,
    pub wrap: bool,
    pub timestamps: bool,
    pub error: Option<Seq<char>>,
    pub loading: bool,
}

impl DeepView for LogState {
    type V = LogView;

    open spec fn deep_view(&self) -> LogView {
        LogView {
            container_id: self.container_id.deep_view(),
            generation: self.generation,
            lines: self.lines.deep_view(),
            scroll: self.scroll as nat,
            follow: self.follow,
            wrap: self.wrap,
            timestamps: self.timestamps,
            error: self.error.deep_view(),
            loading: self.loading,
        }
    }
}

/// The log pane before anything was selected.
pub open spec fn fresh_logs() -> LogView {
    LogView {
        container_id: None,
        generation: 0,
        lines: Seq::empty(),
        scroll: 0,
        follow: true,
        wrap: false,
        timestamps: true,
        error: None,
        loading: false,
    }
}

impl Default for LogState {
    fn default() -> (out: LogState)
        ensures
            out.deep_view() == fresh_logs(),
    {
        let out = LogState {
            container_id: None,
            generation: 0,
            lines: VecDeque::new(),
            scroll: 0,
            follow: true,
            wrap: false,
            timestamps: true,
            error: None,
            loading: false,
        };
        assert(out.lines.deep_view() =~= Seq::<LogLineView>::empty());
        out
    }
}

/// The generation after `g`.
pub open spec fn next_generation(g: u64) -> u64 {
    if g < u64::MAX {
        (g + 1) as u64
    } else {
        g
    }
}

impl LogView {
    /// Whether the pane is scrolled to somewhere within its lines, of which
    /// there are not too many, and sits at the newest while it follows.
    pub open spec fn sound(self) -> bool {
        &&& self.scroll <= self.lines.len() <= LOG_CAPACITY
        &&& self.follow ==> self.scroll == 0
    }

    /// The pane turned to another container, or to none: what was there is
    /// gone, and lines still in flight belong to an older generation.
    pub open spec fn turned_to(self, id: Option<Seq<char>>) -> LogView {
        LogView {
            container_id: id,
            generation: next_generation(self.generation),
            lines: Seq::empty(),
            scroll: 0,
            error: None,
            loading: id is Some,
            ..self
        }
    }
}

impl LogState {
    /// Turn the pane to another container, or to none.
    pub fn reset_for(&mut self, id: Option<String>)
        ensures
            final(self).deep_view() == old(self).deep_view().turned_to(id.deep_view()),
    {
        if self.generation < u64::MAX {
            self.generation += 1;
        }
        self.loading = id.is_some();
        self.container_id = id;
        self.lines = VecDeque::new();
        self.scroll = 0;
        self.error = None;
        assert(self.lines.deep_view() =~= Seq::<LogLineView>::empty());
    }
}

/// The mathematical value of a part of the application.
#[verifier::opaque]
pub open spec fn part<T: DeepView>(x: T) -> T::V {
    x.deep_view()
}

/// The readings, by container.
#[verifier::opaque]
pub open spec fn readings(stats: NameMap<StatSample>) -> Map<Seq<char>, StatView> {
    stats@.map_values(|s: StatSample| s.deep_view())
}

/// The jobs under way, by what they are about.
#[verifier::opaque]
pub open spec fn verbs(pending: NameMap<&'static str>) -> Map<Seq<char>, Seq<char>> {
    pending@.map_values(|s: &'static str| s@)
}

/// The application.
pub struct App {
    pub theme: Theme,
    pub symbols: Symbols,
    pub tab: Tab,
    pub focus: Focus,
    pub mode: Mode,
    pub containers: Vec<ContainerRow>,
    pub images: Vec<ImageRow>,
    pub volumes: Vec<VolumeRow>,
    pub networks: Vec<NetworkRow>,
    /// The rows each tab currently shows, after filtering, sorting and grouping.
    pub views: PerTab<Vec<ViewRow>>,
    /// The stacks of the containers tab, rebuilt with its view. Empty unless
    /// grouping is on.
    pub groups: Vec<Group>,
    /// Stacks the user has folded shut, by name. Kept outside `groups` so a
    /// collapsed stack stays collapsed across refreshes — and across a stack
    /// going away and coming back, which is what `compose down && compose up`
    /// looks like from here.
    pub collapsed: NameSet,
    pub group_by_stack: bool,
    /// Selection, remembered by identity so it survives a refresh that
    /// reorders rows.
    pub selected: PerTab<Option<String>>,
    /// Set instead of the container selection when the cursor is on a group
    /// header. The two are mutually exclusive; `on_group` is the question to
    /// ask.
    pub selected_group: Option<String>,
    /// Scroll offset of each table, kept so the selection stays put visually.
    pub offset: PerTab<usize>,
    pub filter: PerTab<Input>,
    pub sort_index: PerTab<usize>,
    pub sort_reverse: PerTab<bool>,
    pub show_stopped: bool,
    /// Most recent reading per container. Only the latest is kept — nothing in
    /// the UI plots history.
    pub stats: NameMap<StatSample>,
    pub logs: LogState,
    pub log_pending: Option<(String, u64)>,
    pub palette_input: Input,
    pub palette_cursor: usize,
    /// Resource id → the verb for the job currently running against it.
    pub pending: NameMap<&'static str>,
    pub global_pending: Vec<String>,
    pub confirm: Option<Job>,
    /// Which button the confirm dialog has focused. Reset to `true` every time
    /// the dialog opens, so a stale choice can't carry over into the next one.
    pub confirm_accept: bool,
    pub toasts: Vec<Toast>,
    pub daemon: DaemonInfo,
    pub daemon_error: Option<String>,
    pub show_detail: bool,
    pub show_logs: bool,
    /// Whether the daemon is busy working out how large the volumes are.
    pub measuring_volumes: bool,
    /// Pane sizes the user has dragged to, in cells. `None` means "whatever
    /// suits this terminal", which is what everyone gets until they drag.
    pub log_rows: Option<u16>,
    pub detail_cols: Option<u16>,
    pub detail_rows: Option<u16>,
    /// Rebuilt by every render pass; read by the mouse reducer.
    pub hits: HitMap,
    pub last_click: Option<(u64, Position)>,
    /// The splitter currently under the button, if a drag is in progress.
    pub drag: Option<Splitter>,
    pub spinner: usize,
    pub dirty: bool,
    pub should_quit: bool,
    /// Set when the user asks for a shell; drained by the main loop, which owns
    /// the terminal and therefore has to be the one to hand it over.
    pub exec_request: Option<(String, String)>,
    /// What is to be done outside, in order; drained by the main loop.
    pub effects: Vec<Effect>,
}

/// The mathematical value of an [`App`].
pub struct AppState {
    pub theme: Theme,
    pub symbols: SymbolsView,
    pub tab: Tab,
    pub focus: Focus,
    pub mode: Mode,
    pub containers: Seq<ContainerView>,
    pub images: Seq<ImageView>,
    pub volumes: Seq<VolumeView>,
    pub networks: Seq<NetworkView>,
    pub views: PerTab<Seq<ViewRow>>,
    pub groups: Seq<GroupView>,
    pub collapsed: Set<Seq<char>>,
    pub group_by_stack: bool,
    pub selected: PerTab<Option<Seq<char>>>,
    pub selected_group: Option<Seq<char>>,
    pub offset: PerTab<usize>,
    pub filter: PerTab<InputView>,
    pub sort_index: PerTab<usize>,
    pub sort_reverse: PerTab<bool>,
    pub show_stopped: bool,
    pub stats: Map<Seq<char>, StatView>,
    pub logs: LogView,
    pub log_pending: Option<(Seq<char>, u64)>,
    pub palette_input: InputView,
    pub palette_cursor: usize,
    pub pending: Map<Seq<char>, Seq<char>>,
    pub global_pending: Seq<Seq<char>>,
    pub confirm: Option<JobView>,
    pub confirm_accept: bool,
    pub toasts: Seq<ToastView>,
    pub daemon: DaemonView,
    pub daemon_error: Option<Seq<char>>,
    pub show_detail: bool,
    pub show_logs: bool,
    pub measuring_volumes: bool,
    pub log_rows: Option<u16>,
    pub detail_cols: Option<u16>,
    pub detail_rows: Option<u16>,
    pub hits: HitView,
    pub last_click: Option<(u64, Position)>,
    pub drag: Option<Splitter>,
    pub spinner: usize,
    pub dirty: bool,
    pub should_quit: bool,
    pub exec_request: Option<(Seq<char>, Seq<char>)>,
    pub effects: Seq<EffectView>,
}

impl App {
    /// The mathematical value of the application.
    pub open spec fn state(&self) -> AppState {
        AppState {
            theme: self.theme,
            symbols: part(self.symbols),
            tab: self.tab,
            focus: self.focus,
            mode: self.mode,
            containers: part(self.containers),
            images: part(self.images),
            volumes: part(self.volumes),
            networks: part(self.networks),
            views: PerTab {
                containers: self.views.containers@,
                images: self.views.images@,
                volumes: self.views.volumes@,
                networks: self.views.networks@,
            },
            groups: part(self.groups),
            collapsed: self.collapsed@,
            group_by_stack: self.group_by_stack,
            selected: part(self.selected),
            selected_group: part(self.selected_group),
            offset: self.offset,
            filter: part(self.filter),
            sort_index: self.sort_index,
            sort_reverse: self.sort_reverse,
            show_stopped: self.show_stopped,
            stats: readings(self.stats),
            logs: part(self.logs),
            log_pending: match self.log_pending {
                Some(p) => Some((p.0@, p.1)),
                None => None,
            },
            palette_input: part(self.palette_input),
            palette_cursor: self.palette_cursor,
            pending: verbs(self.pending),
            global_pending: part(self.global_pending),
            confirm: part(self.confirm),
            confirm_accept: self.confirm_accept,
            toasts: part(self.toasts),
            daemon: part(self.daemon),
            daemon_error: part(self.daemon_error),
            show_detail: self.show_detail,
            show_logs: self.show_logs,
            measuring_volumes: self.measuring_volumes,
            log_rows: self.log_rows,
            detail_cols: self.detail_cols,
            detail_rows: self.detail_rows,
            hits: part(self.hits),
            last_click: self.last_click,
            drag: self.drag,
            spinner: self.spinner,
            dirty: self.dirty,
            should_quit: self.should_quit,
            exec_request: part(self.exec_request),
            effects: part(self.effects),
        }
    }

    /// What holds of the application at all times.
    pub open spec fn wf(&self) -> bool {
        self.state().wf()
    }
}

/// The application as it starts.
pub open spec fn initial(theme: Theme) -> AppState {
    AppState {
        theme,
        symbols: symbols_of(theme.glyphs),
        tab: Tab::Containers,
        focus: Focus::List,
        mode: Mode::Normal,
        containers: Seq::empty(),
        images: Seq::empty(),
        volumes: Seq::empty(),
        networks: Seq::empty(),
        views: PerTab {
            containers: Seq::empty(),
            images: Seq::empty(),
            volumes: Seq::empty(),
            networks: Seq::empty(),
        },
        groups: Seq::empty(),
        collapsed: Set::empty(),
        group_by_stack: false,
        selected: PerTab { containers: None, images: None, volumes: None, networks: None },
        selected_group: None,
        offset: PerTab { containers: 0, images: 0, volumes: 0, networks: 0 },
        filter: PerTab {
            containers: blank(),
            images: blank(),
            volumes: blank(),
            networks: blank(),
        },
        sort_index: PerTab { containers: 0, images: 0, volumes: 0, networks: 0 },
        sort_reverse: PerTab { containers: false, images: false, volumes: false, networks: false },
        show_stopped: true,
        stats: Map::empty(),
        logs: fresh_logs(),
        log_pending: None,
        palette_input: blank(),
        palette_cursor: 0,
        pending: Map::empty(),
        global_pending: Seq::empty(),
        confirm: None,
        confirm_accept: true,
        toasts: Seq::empty(),
        daemon: unknown_daemon(),
        daemon_error: None,
        show_detail: false,
        show_logs: true,
        measuring_volumes: false,
        log_rows: None,
        detail_cols: None,
        detail_rows: None,
        hits: nothing_drawn(),
        last_click: None,
        drag: None,
        spinner: 0,
        dirty: true,
        should_quit: false,
        exec_request: None,
        effects: Seq::empty(),
    }
}

// ---------------------------------------------------------------------------
// Reading the state
// ---------------------------------------------------------------------------

/// The first container by that id.
pub open spec fn container_by_id(rows: Seq<ContainerView>, id: Seq<char>) -> Option<ContainerView>
    decreases rows.len(),
{
    if rows.len() == 0 {
        None
    } else if rows[0].id == id {
        Some(rows[0])
    } else {
        container_by_id(rows.drop_first(), id)
    }
}

/// The first image by that reference.
pub open spec fn image_by_reference(rows: Seq<ImageView>, reference: Seq<char>) -> Option<ImageView>
    decreases rows.len(),
{
    if rows.len() == 0 {
        None
    } else if reference_text(rows[0]) == reference {
        Some(rows[0])
    } else {
        image_by_reference(rows.drop_first(), reference)
    }
}

/// The first volume by that name.
pub open spec fn volume_by_name(rows: Seq<VolumeView>, name: Seq<char>) -> Option<VolumeView>
    decreases rows.len(),
{
    if rows.len() == 0 {
        None
    } else if rows[0].name == name {
        Some(rows[0])
    } else {
        volume_by_name(rows.drop_first(), name)
    }
}

/// The first network by that id.
pub open spec fn network_by_id(rows: Seq<NetworkView>, id: Seq<char>) -> Option<NetworkView>
    decreases rows.len(),
{
    if rows.len() == 0 {
        None
    } else if rows[0].id == id {
        Some(rows[0])
    } else {
        network_by_id(rows.drop_first(), id)
    }
}

/// The first group of that key.
pub open spec fn group_by_key(groups: Seq<GroupView>, key: Seq<char>) -> Option<GroupView>
    decreases groups.len(),
{
    if groups.len() == 0 {
        None
    } else if groups[0].key == key {
        Some(groups[0])
    } else {
        group_by_key(groups.drop_first(), key)
    }
}

/// How many rows, among the first `n`, list a resource.
pub open spec fn items_among(rows: Seq<ViewRow>, n: int) -> nat
    decreases n,
{
    if n <= 0 {
        0
    } else {
        items_among(rows, n - 1) + (if rows[n - 1] is Item {
            1nat
        } else {
            0
        })
    }
}

/// How many containers, among the first `n`, are running.
pub open spec fn running_in(rows: Seq<ContainerView>, n: int) -> nat
    decreases n,
{
    if n <= 0 {
        0
    } else {
        running_in(rows, n - 1) + (if rows[n - 1].state.running() {
            1nat
        } else {
            0
        })
    }
}

impl AppState {
    /// How many resources a tab has.
    pub open spec fn count(self, tab: Tab) -> nat {
        match tab {
            Tab::Containers => self.containers.len(),
            Tab::Images => self.images.len(),
            Tab::Volumes => self.volumes.len(),
            Tab::Networks => self.networks.len(),
        }
    }

    /// Whether every row of a tab's view points at something that exists.
    pub open spec fn rows_exist(self, tab: Tab) -> bool {
        forall|k: int|
            0 <= k < self.views.at(tab).len() ==> match #[trigger] self.views.at(tab)[k] {
                ViewRow::Item(i) => i < self.count(tab),
                ViewRow::Group(g) => tab == Tab::Containers && g < self.groups.len(),
            }
    }

    /// Whether every tab is sorted by one of its own columns, the log pane is
    /// somewhere within its lines, and what was drawn can be hit.
    pub open spec fn sound(self) -> bool {
        &&& forall|tab: Tab| (#[trigger] self.sort_index.at(tab)) < cycle_of(tab).len()
        &&& self.logs.sound()
        &&& self.hits.sound()
    }

    /// What holds at all times.
    #[verifier::opaque]
    pub open spec fn wf(self) -> bool {
        &&& self.sound()
        &&& forall|tab: Tab| #[trigger] self.rows_exist(tab)
    }

    /// The rows on screen.
    pub open spec fn rows(self) -> Seq<ViewRow> {
        self.views.at(self.tab)
    }

    /// Whether the list is grouped.
    pub open spec fn grouping(self) -> bool {
        self.tab == Tab::Containers && self.group_by_stack
    }

    /// Whether the cursor is on a header.
    pub open spec fn on_group(self) -> bool {
        self.grouping() && self.selected_group is Some
    }

    /// The identity of a row: what the selection is remembered by.
    pub open spec fn key_at(self, tab: Tab, i: int) -> Option<Seq<char>> {
        if !(0 <= i < self.count(tab)) {
            None
        } else {
            Some(
                match tab {
                    Tab::Containers => self.containers[i].id,
                    Tab::Images => reference_text(self.images[i]),
                    Tab::Volumes => self.volumes[i].name,
                    Tab::Networks => self.networks[i].id,
                },
            )
        }
    }

    /// Whether a row is the selected one.
    pub open spec fn is_selected(self, row: ViewRow) -> bool {
        match row {
            ViewRow::Group(g) => self.on_group() && g < self.groups.len() && Some(
                self.groups[g as int].key,
            ) == self.selected_group,
            ViewRow::Item(i) => !self.on_group() && self.selected.at(self.tab) is Some && self.key_at(
                self.tab,
                i as int,
            ) == self.selected.at(self.tab),
        }
    }

    /// The first selected row, from `k` on.
    pub open spec fn cursor_from(self, k: int) -> Option<int>
        decreases self.rows().len() - k,
    {
        if k >= self.rows().len() {
            None
        } else if self.is_selected(self.rows()[k]) {
            Some(k)
        } else {
            self.cursor_from(k + 1)
        }
    }

    /// The selected container.
    pub open spec fn container(self) -> Option<ContainerView> {
        if self.tab != Tab::Containers || self.on_group() {
            None
        } else {
            match self.selected.containers {
                Some(id) => container_by_id(self.containers, id),
                None => None,
            }
        }
    }

    /// The selected image.
    pub open spec fn image(self) -> Option<ImageView> {
        if self.tab != Tab::Images {
            None
        } else {
            match self.selected.images {
                Some(id) => image_by_reference(self.images, id),
                None => None,
            }
        }
    }

    /// The selected volume.
    pub open spec fn volume(self) -> Option<VolumeView> {
        if self.tab != Tab::Volumes {
            None
        } else {
            match self.selected.volumes {
                Some(id) => volume_by_name(self.volumes, id),
                None => None,
            }
        }
    }

    /// The selected network.
    pub open spec fn network(self) -> Option<NetworkView> {
        if self.tab != Tab::Networks {
            None
        } else {
            match self.selected.networks {
                Some(id) => network_by_id(self.networks, id),
                None => None,
            }
        }
    }

    /// The group the cursor is in.
    pub open spec fn group(self) -> Option<GroupView> {
        match self.selected_group {
            Some(key) => group_by_key(self.groups, key),
            None => match self.container() {
                Some(c) => group_by_key(self.groups, crate::app::grouping::stack_key(c)),
                None => None,
            },
        }
    }

    /// The column a tab is sorted by.
    pub open spec fn sort_of(self, tab: Tab) -> Sort {
        cycle_of(tab)[self.sort_index.at(tab) as int]
    }

    /// Whether the active column runs from its largest value down.
    pub open spec fn descending(self) -> bool {
        self.sort_of(self.tab).descends() != self.sort_reverse.at(self.tab)
    }

    /// The latest reading of a container.
    pub open spec fn stat(self, id: Seq<char>) -> Option<StatView> {
        if self.stats.dom().contains(id) {
            Some(self.stats[id])
        } else {
            None
        }
    }
}

/// Whether two states list the same rows of the same resources.
pub open spec fn same_lists(a: AppState, b: AppState) -> bool {
    &&& a.views == b.views
    &&& a.groups == b.groups
    &&& a.containers == b.containers
    &&& a.images == b.images
    &&& a.volumes == b.volumes
    &&& a.networks == b.networks
    &&& a.sort_index == b.sort_index
}

/// What holds at all times is a matter of the lists, the log pane and what was
/// drawn only.
pub proof fn wf_carries_over(a: AppState, b: AppState)
    requires
        a.wf(),
        same_lists(a, b),
        a.logs.sound() ==> b.logs.sound(),
        a.hits.sound() ==> b.hits.sound(),
    ensures
        b.wf(),
{
    reveal(AppState::wf);
    assert forall|tab: Tab| #[trigger] b.rows_exist(tab) by {
        assert(a.rows_exist(tab));
        assert forall|k: int| 0 <= k < b.views.at(tab).len() implies match #[trigger] b.views.at(
            tab,
        )[k] {
            ViewRow::Item(i) => i < b.count(tab),
            ViewRow::Group(g) => tab == Tab::Containers && g < b.groups.len(),
        } by {
            assert(a.views.at(tab)[k] == b.views.at(tab)[k]);
        }
    }
    assert forall|tab: Tab| (#[trigger] b.sort_index.at(tab)) < cycle_of(tab).len() by {
        assert(a.sort_index.at(tab) < cycle_of(tab).len());
    }
}

impl App {
    /// The application as it starts.
    pub fn new(theme: Theme) -> (out: App)
        ensures
            out.state() == initial(theme),
            out.wf(),
    {
        reveal(AppState::wf);
        let out = App {
            theme,
            symbols: Symbols::new(theme.glyphs),
            tab: Tab::Containers,
            focus: Focus::List,
            mode: Mode::Normal,
            containers: Vec::new(),
            images: Vec::new(),
            volumes: Vec::new(),
            networks: Vec::new(),
            views: PerTab {
                containers: Vec::new(),
                images: Vec::new(),
                volumes: Vec::new(),
                networks: Vec::new(),
            },
            groups: Vec::new(),
            collapsed: NameSet::new(),
            group_by_stack: false,
            selected: PerTab { containers: None, images: None, volumes: None, networks: None },
            selected_group: None,
            offset: PerTab { containers: 0, images: 0, volumes: 0, networks: 0 },
            filter: PerTab {
                containers: Input::default(),
                images: Input::default(),
                volumes: Input::default(),
                networks: Input::default(),
            },
            sort_index: PerTab { containers: 0, images: 0, volumes: 0, networks: 0 },
            sort_reverse: PerTab {
                containers: false,
                images: false,
                volumes: false,
                networks: false,
            },
            show_stopped: true,
            stats: NameMap::new(),
            logs: LogState::default(),
            log_pending: None,
            palette_input: Input::default(),
            palette_cursor: 0,
            pending: NameMap::new(),
            global_pending: Vec::new(),
            confirm: None,
            confirm_accept: true,
            toasts: Vec::new(),
            daemon: DaemonInfo::default(),
            daemon_error: None,
            show_detail: false,
            show_logs: true,
            measuring_volumes: false,
            log_rows: None,
            detail_cols: None,
            detail_rows: None,
            hits: HitMap::default(),
            last_click: None,
            drag: None,
            spinner: 0,
            dirty: true,
            should_quit: false,
            exec_request: None,
            effects: Vec::new(),
        };
        reveal(part);
        reveal(readings);
        reveal(verbs);
        assert(out.state().stats =~= Map::<Seq<char>, StatView>::empty());
        assert(out.state().pending =~= Map::<Seq<char>, Seq<char>>::empty());
        assert(out.state().groups =~= Seq::<GroupView>::empty());
        assert(out.state().containers =~= Seq::<ContainerView>::empty());
        assert(out.state().images =~= Seq::<ImageView>::empty());
        assert(out.state().volumes =~= Seq::<VolumeView>::empty());
        assert(out.state().networks =~= Seq::<NetworkView>::empty());
        assert(out.state().global_pending =~= Seq::<Seq<char>>::empty());
        assert(out.state().toasts =~= Seq::<ToastView>::empty());
        assert(out.state().effects =~= Seq::<EffectView>::empty());
        assert(out.state().views == initial(theme).views);
        assert(out.state() == initial(theme));
        out
    }

    // -- accessors used by the UI -------------------------------------------

    /// The rows on screen.
    pub fn view(&self) -> (out: &Vec<ViewRow>)
        ensures
            out@ == self.state().rows(),
    {
        self.views.get(self.tab)
    }

    /// How many resources the view lists, ignoring group headers. This is the
    /// number worth showing next to a total — `22/21` would be nonsense.
    pub fn visible_items(&self) -> (out: usize)
        ensures
            out == items_among(self.state().rows(), self.state().rows().len() as int),
    {
        let rows = self.view();
        let mut n: usize = 0;
        let mut i: usize = 0;
        while i < rows.len()
            invariant
                n <= i <= rows.len(),
                n == items_among(rows@, i as int),
            decreases rows.len() - i,
        {
            if matches!(rows[i], ViewRow::Item(_)) {
                n += 1;
            }
            i += 1;
        }
        n
    }

    /// True when the cursor sits on a group header rather than a resource, in
    /// which case there is no selected container and the panes that describe one
    /// have nothing to say.
    pub fn on_group(&self) -> (out: bool)
        ensures
            out == self.state().on_group(),
    {
        reveal(part);
        self.grouping() && self.selected_group.is_some()
    }

    /// Grouping only applies to containers; the other tabs have no stack to
    /// group by.
    pub fn grouping(&self) -> (out: bool)
        ensures
            out == self.state().grouping(),
    {
        self.tab == Tab::Containers && self.group_by_stack
    }

    fn group_of(&self, key: &str) -> (out: Option<&Group>)
        ensures
            out.deep_view() == group_by_key(self.state().groups, key@),
    {
        reveal(part);
        let ghost all = self.groups.deep_view();
        let mut i: usize = 0;
        assert(all.skip(0) =~= all);
        while i < self.groups.len()
            invariant
                i <= self.groups.len(),
                all == self.groups.deep_view(),
                all == self.state().groups,
                group_by_key(all, key@) == group_by_key(all.skip(i as int), key@),
            decreases self.groups.len() - i,
        {
            assert(all.skip(i as int)[0] == self.groups@[i as int].deep_view());
            assert(all.skip(i as int).drop_first() =~= all.skip(i + 1));
            if same(&self.groups[i].key, key) {
                return Some(&self.groups[i]);
            }
            i += 1;
        }
        None
    }

    /// The group the cursor is in, whether it's on the header or on one of the
    /// rows underneath.
    pub fn current_group(&self) -> (out: Option<&Group>)
        ensures
            out.deep_view() == self.state().group(),
    {
        reveal(part);
        match &self.selected_group {
            Some(key) => self.group_of(key),
            None => match self.selected_container() {
                Some(c) => match &c.stack {
                    Some(stack) => self.group_of(stack),
                    None => {
                        let none = String::new();
                        assert(none@ =~= Seq::<char>::empty());
                        self.group_of(&none)
                    },
                },
                None => None,
            },
        }
    }

    /// How many resources the tab has, listed or not.
    pub fn total_rows(&self) -> (out: usize)
        ensures
            out == self.state().count(self.tab),
    {
        self.count(self.tab)
    }

    /// How many resources `tab` has, listed or not.
    pub fn count(&self, tab: Tab) -> (out: usize)
        ensures
            out == self.state().count(tab),
    {
        reveal(part);
        match tab {
            Tab::Containers => self.containers.len(),
            Tab::Images => self.images.len(),
            Tab::Volumes => self.volumes.len(),
            Tab::Networks => self.networks.len(),
        }
    }

    /// The identity used to remember the selection on each tab. Owned rather
    /// than borrowed because an image's identity is a computed `repo:tag`
    /// rather than a field we could hand out a reference to.
    pub fn row_key_at(&self, tab: Tab, index: usize) -> (out: Option<String>)
        ensures
            out.deep_view() == self.state().key_at(tab, index as int),
    {
        reveal(part);
        if index >= self.count(tab) {
            return None;
        }
        Some(
            match tab {
                Tab::Containers => owned(&self.containers[index].id),
                Tab::Images => self.images[index].reference(),
                Tab::Volumes => owned(&self.volumes[index].name),
                Tab::Networks => owned(&self.networks[index].id),
            },
        )
    }

    fn row_is_selected(&self, row: ViewRow) -> (out: bool)
        ensures
            out == self.state().is_selected(row),
    {
        reveal(part);
        match row {
            ViewRow::Group(g) => match &self.selected_group {
                Some(key) => self.grouping() && g < self.groups.len() && same(
                    &self.groups[g].key,
                    key,
                ),
                None => false,
            },
            ViewRow::Item(i) => {
                if self.on_group() {
                    return false;
                }
                match (self.selected.get(self.tab), self.row_key_at(self.tab, i)) {
                    (Some(id), Some(key)) => same(&key, id),
                    _ => false,
                }
            },
        }
    }

    /// Position of the selection within the current view.
    pub fn cursor(&self) -> (out: Option<usize>)
        ensures
            match out {
                Some(k) => self.state().cursor_from(0) == Some(k as int) && k
                    < self.state().rows().len(),
                None => self.state().cursor_from(0) is None,
            },
    {
        let rows = self.view();
        let mut k: usize = 0;
        while k < rows.len()
            invariant
                k <= rows.len(),
                rows@ == self.state().rows(),
                self.state().cursor_from(0) == self.state().cursor_from(k as int),
            decreases rows.len() - k,
        {
            if self.row_is_selected(rows[k]) {
                return Some(k);
            }
            k += 1;
        }
        None
    }

    /// The container under the cursor.
    pub fn selected_container(&self) -> (out: Option<&ContainerRow>)
        ensures
            out.deep_view() == self.state().container(),
    {
        reveal(part);
        if self.tab != Tab::Containers || self.on_group() {
            return None;
        }
        let id = match &self.selected.containers {
            Some(id) => id,
            None => {
                return None;
            },
        };
        let ghost all = self.containers.deep_view();
        let mut i: usize = 0;
        assert(all.skip(0) =~= all);
        while i < self.containers.len()
            invariant
                i <= self.containers.len(),
                all == self.containers.deep_view(),
                container_by_id(all, id@) == container_by_id(all.skip(i as int), id@),
                self.state().container() == container_by_id(all, id@),
            decreases self.containers.len() - i,
        {
            assert(all.skip(i as int)[0] == self.containers@[i as int].deep_view());
            assert(all.skip(i as int).drop_first() =~= all.skip(i + 1));
            if same(&self.containers[i].id, id) {
                return Some(&self.containers[i]);
            }
            i += 1;
        }
        None
    }

    /// The image under the cursor.
    pub fn selected_image(&self) -> (out: Option<&ImageRow>)
        ensures
            out.deep_view() == self.state().image(),
    {
        reveal(part);
        if self.tab != Tab::Images {
            return None;
        }
        let id = match &self.selected.images {
            Some(id) => id,
            None => {
                return None;
            },
        };
        let ghost all = self.images.deep_view();
        let mut i: usize = 0;
        assert(all.skip(0) =~= all);
        while i < self.images.len()
            invariant
                i <= self.images.len(),
                all == self.images.deep_view(),
                image_by_reference(all, id@) == image_by_reference(all.skip(i as int), id@),
                self.state().image() == image_by_reference(all, id@),
            decreases self.images.len() - i,
        {
            assert(all.skip(i as int)[0] == self.images@[i as int].deep_view());
            assert(all.skip(i as int).drop_first() =~= all.skip(i + 1));
            if same(&self.images[i].reference(), id) {
                return Some(&self.images[i]);
            }
            i += 1;
        }
        None
    }

    /// The volume under the cursor.
    pub fn selected_volume(&self) -> (out: Option<&VolumeRow>)
        ensures
            out.deep_view() == self.state().volume(),
    {
        reveal(part);
        if self.tab != Tab::Volumes {
            return None;
        }
        let id = match &self.selected.volumes {
            Some(id) => id,
            None => {
                return None;
            },
        };
        let ghost all = self.volumes.deep_view();
        let mut i: usize = 0;
        assert(all.skip(0) =~= all);
        while i < self.volumes.len()
            invariant
                i <= self.volumes.len(),
                all == self.volumes.deep_view(),
                volume_by_name(all, id@) == volume_by_name(all.skip(i as int), id@),
                self.state().volume() == volume_by_name(all, id@),
            decreases self.volumes.len() - i,
        {
            assert(all.skip(i as int)[0] == self.volumes@[i as int].deep_view());
            assert(all.skip(i as int).drop_first() =~= all.skip(i + 1));
            if same(&self.volumes[i].name, id) {
                return Some(&self.volumes[i]);
            }
            i += 1;
        }
        None
    }

    /// The network under the cursor.
    pub fn selected_network(&self) -> (out: Option<&NetworkRow>)
        ensures
            out.deep_view() == self.state().network(),
    {
        reveal(part);
        if self.tab != Tab::Networks {
            return None;
        }
        let id = match &self.selected.networks {
            Some(id) => id,
            None => {
                return None;
            },
        };
        let ghost all = self.networks.deep_view();
        let mut i: usize = 0;
        assert(all.skip(0) =~= all);
        while i < self.networks.len()
            invariant
                i <= self.networks.len(),
                all == self.networks.deep_view(),
                network_by_id(all, id@) == network_by_id(all.skip(i as int), id@),
                self.state().network() == network_by_id(all, id@),
            decreases self.networks.len() - i,
        {
            assert(all.skip(i as int)[0] == self.networks@[i as int].deep_view());
            assert(all.skip(i as int).drop_first() =~= all.skip(i + 1));
            if same(&self.networks[i].id, id) {
                return Some(&self.networks[i]);
            }
            i += 1;
        }
        None
    }

    /// The column `tab` is sorted by.
    pub fn sort_on(&self, tab: Tab) -> (out: Sort)
        requires
            self.state().sound(),
        ensures
            out == self.state().sort_of(tab),
    {
        let cycle = sort_cycle(tab);
        let at: usize = *self.sort_index.get(tab);
        assert(self.state().sort_index.at(tab) < cycle_of(tab).len());
        cycle[at]
    }

    /// The column the list is sorted by.
    pub fn sort(&self) -> (out: Sort)
        requires
            self.state().sound(),
        ensures
            out == self.state().sort_of(self.tab),
    {
        self.sort_on(self.tab)
    }

    /// Whether the user turned the order round.
    pub fn sort_reversed(&self) -> (out: bool)
        ensures
            out == self.state().sort_reverse.at(self.tab),
    {
        *self.sort_reverse.get(self.tab)
    }

    /// Which way the active column currently runs, largest-first being "down".
    ///
    /// The single source for both the chevron on the column header and the
    /// arrow in the pane subtitle, so the two can't end up pointing opposite
    /// ways on the same screen.
    pub fn sort_descending(&self) -> (out: bool)
        requires
            self.state().sound(),
        ensures
            out == self.state().descending(),
    {
        self.sort().descends_by_default() != self.sort_reversed()
    }

    /// The latest reading of a container.
    pub fn latest_stat(&self, id: &str) -> (out: Option<&StatSample>)
        ensures
            out.deep_view() == self.state().stat(id@),
    {
        reveal(readings);
        self.stats.get(id)
    }

    /// Called at the top of every render pass so hit regions never survive the
    /// frame that drew them.
    pub fn reset_hits(&mut self)
        ensures
            final(self).state() == (AppState { hits: nothing_drawn(), ..old(self).state() }),
    {
        reveal(part);
        self.hits.clear();
    }

    // -- pane sizes ----------------------------------------------------------
    //
    // Each of these resolves a dragged size against what the terminal can
    // currently show, and writes the result back. Clamping here rather than at
    // the point of the drag means a size stays valid across a window resize:
    // drag the log pane tall, shrink the terminal, and it gives way rather than
    // squeezing the list out of existence.

    /// The height of the log pane, out of `available` rows.
    pub fn log_height(&mut self, available: u16) -> (out: u16)
        ensures
            out == fitted(
                old(self).log_rows,
                (available / 5 * 2) as u16,
                available,
                MIN_LOG_ROWS,
                MIN_LIST_ROWS,
            ),
            final(self).state() == (AppState {
                log_rows: if old(self).log_rows is Some {
                    Some(out)
                } else {
                    None
                },
                ..old(self).state()
            }),
    {
        fit(&mut self.log_rows, available / 5 * 2, available, MIN_LOG_ROWS, MIN_LIST_ROWS)
    }

    /// The width of the detail pane beside the list, out of `available`
    /// columns.
    pub fn detail_width(&mut self, available: u16) -> (out: u16)
        ensures
            out == fitted(
                old(self).detail_cols,
                (available * 38 / 100) as u16,
                available,
                MIN_DETAIL_COLS,
                MIN_LIST_COLS,
            ),
            final(self).state() == (AppState {
                detail_cols: if old(self).detail_cols is Some {
                    Some(out)
                } else {
                    None
                },
                ..old(self).state()
            }),
    {
        let default: u16 = (available as u32 * 38 / 100) as u16;
        fit(&mut self.detail_cols, default, available, MIN_DETAIL_COLS, MIN_LIST_COLS)
    }

    /// The height of the detail pane below the list, out of `available` rows.
    pub fn detail_height(&mut self, available: u16) -> (out: u16)
        ensures
            out == fitted(
                old(self).detail_rows,
                (available * 45 / 100) as u16,
                available,
                MIN_DETAIL_ROWS,
                MIN_LIST_ROWS,
            ),
            final(self).state() == (AppState {
                detail_rows: if old(self).detail_rows is Some {
                    Some(out)
                } else {
                    None
                },
                ..old(self).state()
            }),
    {
        let default: u16 = (available as u32 * 45 / 100) as u16;
        fit(&mut self.detail_rows, default, available, MIN_DETAIL_ROWS, MIN_LIST_ROWS)
    }

    /// How many containers are running.
    pub fn running_count(&self) -> (out: usize)
        ensures
            out == running_in(self.state().containers, self.state().containers.len() as int),
    {
        reveal(part);
        let ghost all = self.containers.deep_view();
        let mut n: usize = 0;
        let mut i: usize = 0;
        while i < self.containers.len()
            invariant
                n <= i <= self.containers.len(),
                all == self.containers.deep_view(),
                n == running_in(all, i as int),
            decreases self.containers.len() - i,
        {
            assert(all[i as int] == self.containers@[i as int].deep_view());
            if self.containers[i].state.is_running() {
                n += 1;
            }
            i += 1;
        }
        n
    }
}

} // verus!
