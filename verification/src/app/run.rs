//! Carrying out a command.

use vstd::prelude::*;

use crate::action::Command;
use crate::app::input::{blank, Edit};
use crate::app::state::{part, wf_carries_over, App, AppState, Effect, EffectView, LogView};
use crate::app::{cycle_of, sort_cycle, tab_at, Focus, Mode, Tab, ToastKind, ViewRow};
use crate::text::{cat2, cat3};

verus! {

broadcast use vstd::string::group_string_axioms;

/// Whether a command acts on one container, and so means nothing on a header.
pub open spec fn needs_container(cmd: Command) -> bool {
    cmd == Command::Start || cmd == Command::Stop || cmd == Command::Restart || cmd
        == Command::Pause || cmd == Command::Kill || cmd == Command::Remove || cmd == Command::Exec
        || cmd == Command::CopyId
}

impl AppState {
    /// The log pane shown, or closed.
    #[verifier::opaque]
    pub open spec fn logs_toggled(self, now: u64) -> AppState {
        if self.tab == Tab::Containers {
            (AppState {
                show_logs: !self.show_logs,
                focus: if self.show_logs {
                    Focus::List
                } else {
                    self.focus
                },
                ..self
            }).logs_synced(now)
        } else {
            self
        }
    }

    /// The other pane focused.
    #[verifier::opaque]
    pub open spec fn focus_moved(self) -> AppState {
        if self.tab == Tab::Containers && self.show_logs {
            AppState {
                focus: match self.focus {
                    Focus::List => Focus::Logs,
                    Focus::Logs => Focus::List,
                },
                ..self
            }
        } else {
            self
        }
    }

    /// The containers grouped by stack, or no longer.
    #[verifier::opaque]
    pub open spec fn grouping_toggled(self) -> AppState {
        if self.tab == Tab::Containers {
            (AppState {
                group_by_stack: !self.group_by_stack,
                selected_group: None,
                // The row count changes wholesale, so a scroll position from
                // the old shape means nothing.
                offset: self.offset.with(Tab::Containers, 0),
                ..self
            }).rebuilt(Tab::Containers)
        } else {
            self
        }
    }

    /// Sorted by the next column.
    #[verifier::opaque]
    pub open spec fn sort_advanced(self) -> AppState {
        (AppState {
            sort_index: self.sort_index.with(
                self.tab,
                ((self.sort_index.at(self.tab) + 1) % cycle_of(self.tab).len() as int) as usize,
            ),
            ..self
        }).rebuilt(self.tab)
    }

    /// In the opposite order.
    #[verifier::opaque]
    pub open spec fn sort_turned(self) -> AppState {
        (AppState {
            sort_reverse: self.sort_reverse.with(self.tab, !self.sort_reverse.at(self.tab)),
            ..self
        }).rebuilt(self.tab)
    }

    /// Stopped containers listed, or left out.
    #[verifier::opaque]
    pub open spec fn stopped_toggled(self) -> AppState {
        (AppState { show_stopped: !self.show_stopped, ..self }).rebuilt(Tab::Containers)
    }

    /// Every list on its way to be read again.
    #[verifier::opaque]
    pub open spec fn refresh_asked(self, now: u64) -> AppState {
        self.effecting(EffectView::Refresh).toasted(
            ToastKind::Info,
            "refreshing"@ + self.symbols.ellipsis,
            now,
        )
    }

    /// The last row selected.
    #[verifier::opaque]
    pub open spec fn bottom_reached(self, now: u64) -> AppState {
        self.cursor_set(
            if self.rows().len() == 0 {
                0
            } else {
                self.rows().len() - 1
            },
            now,
        )
    }

    /// The palette open and empty.
    #[verifier::opaque]
    pub open spec fn palette_opened(self) -> AppState {
        AppState { palette_input: blank(), palette_cursor: 0, mode: Mode::Palette, ..self }
    }

    /// A command carried out on the selected resource.
    #[verifier::opaque]
    pub open spec fn acted(self, cmd: Command, now: u64) -> AppState {
        match self.job_for(cmd) {
            Some(job) => self.job_submitted(job, now),
            None => self,
        }
    }

    /// What a command does, on a row that it means something on.
    #[verifier::opaque]
    pub open spec fn obeyed(self, cmd: Command, now: u64) -> AppState {
        match cmd {
            Command::Quit => AppState { should_quit: true, ..self },
            Command::Help => AppState { mode: Mode::Help, ..self },
            Command::Palette => self.palette_opened(),
            Command::Filter => AppState { mode: Mode::Filter, ..self },
            Command::ClearFilter => self.filter_edited(Edit::Clear),
            Command::Refresh => self.refresh_asked(now),
            Command::NextTab => self.tab_set(tab_at(self.tab.place() + 1), now),
            Command::PrevTab => self.tab_set(tab_at(self.tab.place() + 3), now),
            Command::TabContainers => self.tab_set(Tab::Containers, now),
            Command::TabImages => self.tab_set(Tab::Images, now),
            Command::TabVolumes => self.tab_set(Tab::Volumes, now),
            Command::TabNetworks => self.tab_set(Tab::Networks, now),
            Command::Down => self.cursor_moved(1, now),
            Command::Up => self.cursor_moved(-1, now),
            Command::PageDown => self.cursor_moved(10, now),
            Command::PageUp => self.cursor_moved(-10, now),
            Command::Top => self.cursor_set(0, now),
            Command::Bottom => self.bottom_reached(now),
            Command::ToggleDetail => AppState { show_detail: !self.show_detail, ..self },
            Command::ToggleLogs => self.logs_toggled(now),
            Command::FocusNext => self.focus_moved(),
            Command::ToggleFollow => AppState { logs: self.logs.follow_toggled(), ..self },
            Command::ToggleWrap => AppState {
                logs: LogView { wrap: !self.logs.wrap, ..self.logs },
                ..self
            },
            Command::ToggleTimestamps => AppState {
                logs: LogView { timestamps: !self.logs.timestamps, ..self.logs },
                ..self
            },
            Command::ToggleAll => self.stopped_toggled(),
            Command::ToggleGroup => self.grouping_toggled(),
            Command::ToggleCollapse => self.collapse_toggled(),
            Command::ToggleCollapseAll => self.collapse_all_toggled(),
            Command::SortNext => self.sort_advanced(),
            Command::SortReverse => self.sort_turned(),
            Command::CopyId => self.id_copied(),
            Command::Exec => self.exec_asked(now),
            Command::Start => self.acted(cmd, now),
            Command::Stop => self.acted(cmd, now),
            Command::Restart => self.acted(cmd, now),
            Command::Pause => self.acted(cmd, now),
            Command::Kill => self.acted(cmd, now),
            Command::Remove => self.acted(cmd, now),
            Command::Prune => self.acted(cmd, now),
        }
    }

    /// What is said when a command needs a container and the row is a stack.
    pub open spec fn stack_refusal(self) -> Seq<char> {
        "that row is a stack "@ + self.symbols.dash + " pick a container in it"@
    }

    /// What a command does.
    #[verifier::opaque]
    pub open spec fn ran(self, cmd: Command, now: u64) -> AppState {
        if self.on_group() && needs_container(cmd) {
            self.toasted(
                ToastKind::Info,
                self.stack_refusal(),
                now,
            )
        } else {
            self.obeyed(cmd, now)
        }
    }
}

/// Sorting a tab by another of its columns keeps the application sound.
pub proof fn sorting_otherwise_is_sound(v: AppState, tab: Tab, i: usize)
    requires
        v.wf(),
        i < cycle_of(tab).len(),
    ensures
        (AppState { sort_index: v.sort_index.with(tab, i), ..v }).wf(),
{
    reveal(AppState::wf);
    let w = AppState { sort_index: v.sort_index.with(tab, i), ..v };
    assert forall|t: Tab| (#[trigger] w.sort_index.at(t)) < cycle_of(t).len() by {
        assert(v.sort_index.at(t) < cycle_of(t).len());
    }
    assert forall|t: Tab| #[trigger] w.rows_exist(t) by {
        assert(v.rows_exist(t));
        assert forall|k: int| 0 <= k < w.views.at(t).len() implies match #[trigger] w.views.at(
            t,
        )[k] {
            ViewRow::Item(i) => i < w.count(t),
            ViewRow::Group(g) => t == Tab::Containers && g < w.groups.len(),
        } by {
            assert(v.views.at(t)[k] == w.views.at(t)[k]);
        }
    }
}

impl App {
    fn toggle_logs(&mut self, now: u64)
        requires
            old(self).wf(),
        ensures
            final(self).state() == old(self).state().logs_toggled(now),
            final(self).wf(),
    {
        reveal(AppState::logs_toggled);
        let ghost v = self.state();
        if self.tab == Tab::Containers {
            let show = !self.show_logs;
            self.set_show_logs(show);
            if !show {
                self.set_focus(Focus::List);
            }
            proof {
                wf_carries_over(v, self.state());
            }
            self.sync_log_target(now);
        }
    }

    fn move_focus(&mut self)
        requires
            old(self).wf(),
        ensures
            final(self).state() == old(self).state().focus_moved(),
            final(self).wf(),
    {
        reveal(AppState::focus_moved);
        let ghost v = self.state();
        if self.tab == Tab::Containers && self.show_logs {
            let focus = match self.focus {
                Focus::List => Focus::Logs,
                Focus::Logs => Focus::List,
            };
            self.set_focus(focus);
        }
        proof {
            wf_carries_over(v, self.state());
        }
    }

    fn toggle_group(&mut self)
        requires
            old(self).wf(),
        ensures
            final(self).state() == old(self).state().grouping_toggled(),
            final(self).wf(),
    {
        reveal(AppState::grouping_toggled);
        let ghost v = self.state();
        if self.tab == Tab::Containers {
            let grouped = !self.group_by_stack;
            self.set_grouping(grouped);
            proof {
                wf_carries_over(v, self.state());
            }
            self.rebuild(Tab::Containers);
        }
    }

    fn next_sort(&mut self)
        requires
            old(self).wf(),
        ensures
            final(self).state() == old(self).state().sort_advanced(),
            final(self).wf(),
    {
        reveal(AppState::sort_advanced);
        let ghost v = self.state();
        let tab = self.tab;
        let next: usize = {
            reveal(AppState::wf);
            let cycle = sort_cycle(tab);
            (*self.sort_index.get(tab) + 1) % cycle.len()
        };
        self.set_sort_index(tab, next);
        proof {
            sorting_otherwise_is_sound(v, tab, next);
        }
        self.rebuild(tab);
    }

    /// Turn the order of the tab on screen round.
    pub fn turn_sort(&mut self)
        requires
            old(self).wf(),
        ensures
            final(self).state() == old(self).state().sort_turned(),
            final(self).wf(),
    {
        reveal(AppState::sort_turned);
        let ghost v = self.state();
        let tab = self.tab;
        let reverse = !*self.sort_reverse.get(tab);
        self.set_sort_reverse(tab, reverse);
        proof {
            wf_carries_over(v, self.state());
        }
        self.rebuild(tab);
    }

    fn toggle_all(&mut self)
        requires
            old(self).wf(),
        ensures
            final(self).state() == old(self).state().stopped_toggled(),
            final(self).wf(),
    {
        reveal(AppState::stopped_toggled);
        let ghost v = self.state();
        let show = !self.show_stopped;
        self.set_show_stopped(show);
        proof {
            wf_carries_over(v, self.state());
        }
        self.rebuild(Tab::Containers);
    }

    fn refreshing(&self) -> (out: String)
        ensures
            out@ == "refreshing"@ + self.state().symbols.ellipsis,
    {
        reveal(part);
        cat2("refreshing", self.symbols.ellipsis)
    }

    fn refusal(&self) -> (out: String)
        ensures
            out@ == self.state().stack_refusal(),
    {
        reveal(part);
        cat3("that row is a stack ", self.symbols.dash, " pick a container in it")
    }

    fn ask_refresh(&mut self, now: u64)
        requires
            old(self).wf(),
        ensures
            final(self).state() == old(self).state().refresh_asked(now),
            final(self).wf(),
    {
        reveal(AppState::refresh_asked);
        let ghost v = self.state();
        self.effect(Effect::Refresh);
        let text = self.refreshing();
        self.toast(ToastKind::Info, text, now);
        proof {
            wf_carries_over(v, self.state());
        }
    }

    fn to_bottom(&mut self, now: u64)
        requires
            old(self).wf(),
        ensures
            final(self).state() == old(self).state().bottom_reached(now),
            final(self).wf(),
    {
        reveal(AppState::bottom_reached);
        let len: usize = self.view().len();
        self.set_cursor(
            if len == 0 {
                0
            } else {
                len - 1
            },
            now,
        );
    }

    fn open_palette(&mut self)
        requires
            old(self).wf(),
        ensures
            final(self).state() == old(self).state().palette_opened(),
            final(self).wf(),
    {
        reveal(AppState::palette_opened);
        let ghost v = self.state();
        self.reset_palette();
        self.set_mode(Mode::Palette);
        proof {
            wf_carries_over(v, self.state());
        }
    }

    fn act(&mut self, cmd: Command, now: u64)
        requires
            old(self).wf(),
        ensures
            final(self).state() == old(self).state().acted(cmd, now),
            final(self).wf(),
    {
        reveal(AppState::acted);
        match self.build_job(cmd) {
            Some(job) => {
                self.submit(job, now);
            },
            None => {},
        }
    }

    fn switch_tab(&mut self, steps: usize, now: u64)
        requires
            old(self).wf(),
            steps <= 3,
        ensures
            final(self).state() == old(self).state().tab_set(
                tab_at(old(self).state().tab.place() + steps),
                now,
            ),
            final(self).wf(),
    {
        let tab = Tab::at(self.tab.index() + steps);
        self.set_tab(tab, now);
    }

    fn adjust(&mut self, cmd: Command)
        requires
            old(self).wf(),
            cmd == Command::Quit || cmd == Command::Help || cmd == Command::Filter || cmd
                == Command::ToggleDetail || cmd == Command::ToggleFollow || cmd
                == Command::ToggleWrap || cmd == Command::ToggleTimestamps,
        ensures
            forall|now: u64|
                final(self).state() == #[trigger] old(self).state().obeyed(cmd, now),
            final(self).wf(),
    {
        reveal(AppState::obeyed);
        reveal(AppState::wf);
        let ghost v = self.state();
        match cmd {
            Command::Quit => {
                self.quit();
            },
            Command::Help => {
                self.set_mode(Mode::Help);
            },
            Command::Filter => {
                self.set_mode(Mode::Filter);
            },
            Command::ToggleDetail => {
                let show = !self.show_detail;
                self.set_show_detail(show);
            },
            Command::ToggleFollow => {
                self.toggle_follow();
            },
            Command::ToggleWrap => {
                self.toggle_wrap();
            },
            _ => {
                self.toggle_timestamps();
            },
        }
        proof {
            wf_carries_over(v, self.state());
        }
    }

    fn obey(&mut self, cmd: Command, now: u64)
        requires
            old(self).wf(),
        ensures
            final(self).state() == old(self).state().obeyed(cmd, now),
            final(self).wf(),
    {
        reveal(AppState::obeyed);
        match cmd {
            Command::Quit => self.adjust(cmd),
            Command::Help => self.adjust(cmd),
            Command::Palette => self.open_palette(),
            Command::Filter => self.adjust(cmd),
            Command::ClearFilter => self.edit_filter(Edit::Clear),
            Command::Refresh => self.ask_refresh(now),
            Command::NextTab => self.switch_tab(1, now),
            Command::PrevTab => self.switch_tab(3, now),
            Command::TabContainers => self.set_tab(Tab::Containers, now),
            Command::TabImages => self.set_tab(Tab::Images, now),
            Command::TabVolumes => self.set_tab(Tab::Volumes, now),
            Command::TabNetworks => self.set_tab(Tab::Networks, now),
            Command::Down => self.move_cursor(1, now),
            Command::Up => self.move_cursor(-1, now),
            Command::PageDown => self.move_cursor(10, now),
            Command::PageUp => self.move_cursor(-10, now),
            Command::Top => self.set_cursor(0, now),
            Command::Bottom => self.to_bottom(now),
            Command::ToggleDetail => self.adjust(cmd),
            Command::ToggleLogs => self.toggle_logs(now),
            Command::FocusNext => self.move_focus(),
            Command::ToggleFollow => self.adjust(cmd),
            Command::ToggleWrap => self.adjust(cmd),
            Command::ToggleTimestamps => self.adjust(cmd),
            Command::ToggleAll => self.toggle_all(),
            Command::ToggleGroup => self.toggle_group(),
            Command::ToggleCollapse => self.toggle_collapse(),
            Command::ToggleCollapseAll => self.toggle_collapse_all(),
            Command::SortNext => self.next_sort(),
            Command::SortReverse => self.turn_sort(),
            Command::CopyId => self.copy_id(),
            Command::Exec => self.request_exec(now),
            _ => self.act(cmd, now),
        }
    }

    /// Carry out a command.
    pub fn run(&mut self, cmd: Command, now: u64)
        requires
            old(self).wf(),
        ensures
            final(self).state() == old(self).state().ran(cmd, now),
            final(self).wf(),
    {
        reveal(AppState::ran);
        let ghost v = self.state();
        // Some act on one container, and a stack header isn't one. Saying so
        // beats a key that silently does nothing.
        if self.on_group() && matches!(
            cmd,
            Command::Start
            | Command::Stop
            | Command::Restart
            | Command::Pause
            | Command::Kill
            | Command::Remove
            | Command::Exec
            | Command::CopyId
        ) {
            let text = self.refusal();
            self.toast(ToastKind::Info, text, now);
            proof {
                wf_carries_over(v, self.state());
            }
        } else {
            self.obey(cmd, now);
        }
    }
}

} // verus!
