//! Setting one thing at a time.

use vstd::prelude::*;

use crate::app::input::{blank, Edit};
use crate::app::state::{part, verbs, App, AppState, LogView};
use crate::app::{Focus, Mode, Tab};
use crate::docker::actions::Job;
use crate::text::put;

verus! {

broadcast use vstd::string::group_string_axioms;

impl LogView {
    /// Following the newest line, from the bottom, or not following it.
    pub open spec fn follow_toggled(self) -> LogView {
        LogView {
            follow: !self.follow,
            scroll: if self.follow {
                self.scroll
            } else {
                0
            },
            ..self
        }
    }
}

impl App {
    /// Change what has the keyboard.
    pub(crate) fn set_mode(&mut self, mode: Mode)
        ensures
            final(self).state() == (AppState {
                mode,
                ..old(self).state()
            }),
    {
        self.mode = mode;
    }

    /// Give a pane the focus.
    pub(crate) fn set_focus(&mut self, focus: Focus)
        ensures
            final(self).state() == (AppState {
                focus,
                ..old(self).state()
            }),
    {
        self.focus = focus;
    }

    /// Ask for an end.
    pub(crate) fn quit(&mut self)
        ensures
            final(self).state() == (AppState {
                should_quit: true,
                ..old(self).state()
            }),
    {
        self.should_quit = true;
    }

    /// Ask for a new frame.
    pub(crate) fn mark_dirty(&mut self)
        ensures
            final(self).state() == (AppState {
                dirty: true,
                ..old(self).state()
            }),
    {
        self.dirty = true;
    }

    /// Show or close the detail pane.
    pub(crate) fn set_show_detail(&mut self, show_detail: bool)
        ensures
            final(self).state() == (AppState {
                show_detail,
                ..old(self).state()
            }),
    {
        self.show_detail = show_detail;
    }

    /// Show or close the log pane.
    pub(crate) fn set_show_logs(&mut self, show_logs: bool)
        ensures
            final(self).state() == (AppState {
                show_logs,
                ..old(self).state()
            }),
    {
        self.show_logs = show_logs;
    }

    /// List stopped containers or leave them out.
    pub(crate) fn set_show_stopped(&mut self, show_stopped: bool)
        ensures
            final(self).state() == (AppState {
                show_stopped,
                ..old(self).state()
            }),
    {
        self.show_stopped = show_stopped;
    }

    /// Put another tab on screen, with the list focused.
    pub(crate) fn show_tab(&mut self, tab: Tab)
        ensures
            final(self).state() == (AppState {
                tab,
                focus: Focus::List,
                ..old(self).state()
            }),
    {
        self.tab = tab;
        self.focus = Focus::List;
    }

    /// Group the containers by stack or list them plainly, from the top.
    pub(crate) fn set_grouping(&mut self, group_by_stack: bool)
        ensures
            final(self).state() == (AppState {
                group_by_stack,
                selected_group: None,
                offset: old(self).state().offset.with(Tab::Containers, 0),
                ..old(self).state()
            }),
    {
        reveal(part);
        self.group_by_stack = group_by_stack;
        self.selected_group = None;
        self.offset.set(Tab::Containers, 0);
    }

    /// Select a header, or none.
    pub(crate) fn select_group(&mut self, key: Option<String>)
        ensures
            final(self).state() == (AppState {
                selected_group: key.deep_view(),
                ..old(self).state()
            }),
    {
        reveal(part);
        self.selected_group = key;
    }

    /// Select a row of a tab.
    pub(crate) fn select_row(&mut self, tab: Tab, key: Option<String>)
        ensures
            final(self).state() == (AppState {
                selected_group: None,
                selected: old(self).state().selected.with(tab, key.deep_view()),
                ..old(self).state()
            }),
    {
        reveal(part);
        self.selected_group = None;
        self.selected.put(tab, key);
    }

    /// Sort a tab by another of its columns.
    pub(crate) fn set_sort_index(&mut self, tab: Tab, i: usize)
        ensures
            final(self).state() == (AppState {
                sort_index: old(self).state().sort_index.with(tab, i),
                ..old(self).state()
            }),
    {
        self.sort_index.set(tab, i);
    }

    /// Turn the order of a tab round, or back.
    pub(crate) fn set_sort_reverse(&mut self, tab: Tab, reverse: bool)
        ensures
            final(self).state() == (AppState {
                sort_reverse: old(self).state().sort_reverse.with(tab, reverse),
                ..old(self).state()
            }),
    {
        self.sort_reverse.set(tab, reverse);
    }

    /// Move through the palette.
    pub(crate) fn set_palette_cursor(&mut self, palette_cursor: usize)
        ensures
            final(self).state() == (AppState {
                palette_cursor,
                ..old(self).state()
            }),
    {
        self.palette_cursor = palette_cursor;
    }

    /// Empty the palette, with the cursor back on top.
    pub(crate) fn reset_palette(&mut self)
        ensures
            final(self).state() == (AppState {
                palette_input: blank(),
                palette_cursor: 0,
                ..old(self).state()
            }),
    {
        reveal(part);
        self.palette_input.clear();
        self.palette_cursor = 0;
    }

    /// Empty the palette.
    pub(crate) fn clear_palette(&mut self)
        ensures
            final(self).state() == (AppState {
                palette_input: blank(),
                ..old(self).state()
            }),
    {
        reveal(part);
        self.palette_input.clear();
    }

    /// Edit the palette's query.
    pub(crate) fn edit_query(&mut self, edit: Edit)
        ensures
            final(self).state() == (AppState {
                palette_input: old(self).state().palette_input.edited(edit),
                ..old(self).state()
            }),
    {
        reveal(part);
        self.palette_input.apply(edit);
    }

    /// Edit the filter of the tab on screen.
    pub(crate) fn edit_field(&mut self, edit: Edit)
        ensures
            final(self).state() == (AppState {
                filter: old(self).state().filter.with(
                    old(self).state().tab,
                    old(self).state().filter.at(old(self).state().tab).edited(edit),
                ),
                ..old(self).state()
            }),
    {
        reveal(part);
        let tab = self.tab;
        self.filter.get_mut(tab).apply(edit);
    }

    /// Scroll the log pane to a place.
    pub(crate) fn set_log_scroll(&mut self, scroll: usize)
        ensures
            final(self).state() == (AppState {
                logs: LogView { scroll: scroll as nat, follow: scroll == 0, ..old(self).state().logs },
                ..old(self).state()
            }),
    {
        reveal(part);
        self.logs.scroll = scroll;
        self.logs.follow = scroll == 0;
    }

    /// Follow the newest line, or stop following it.
    pub(crate) fn toggle_follow(&mut self)
        ensures
            final(self).state() == (AppState {
                logs: old(self).state().logs.follow_toggled(),
                ..old(self).state()
            }),
    {
        reveal(part);
        self.logs.follow = !self.logs.follow;
        if self.logs.follow {
            self.logs.scroll = 0;
        }
    }

    /// Wrap long lines, or cut them.
    pub(crate) fn toggle_wrap(&mut self)
        ensures
            final(self).state() == (AppState {
                logs: LogView { wrap: !old(self).state().logs.wrap, ..old(self).state().logs },
                ..old(self).state()
            }),
    {
        reveal(part);
        self.logs.wrap = !self.logs.wrap;
    }

    /// Show the time of each line, or leave it out.
    pub(crate) fn toggle_timestamps(&mut self)
        ensures
            final(self).state() == (AppState {
                logs: LogView { timestamps: !old(self).state().logs.timestamps, ..old(self).state().logs },
                ..old(self).state()
            }),
    {
        reveal(part);
        self.logs.timestamps = !self.logs.timestamps;
    }

    /// Ask for a shell.
    pub(crate) fn ask_exec(&mut self, id: String, name: String)
        ensures
            final(self).state() == (AppState {
                exec_request: Some((id@, name@)),
                ..old(self).state()
            }),
    {
        reveal(part);
        self.exec_request = Some((id, name));
    }

    /// Ask about a job.
    pub(crate) fn ask_confirm(&mut self, job: Job)
        ensures
            final(self).state() == (AppState {
                confirm: Some(job.deep_view()),
                confirm_accept: true,
                mode: Mode::Confirm,
                ..old(self).state()
            }),
    {
        reveal(part);
        self.confirm = Some(job);
        self.confirm_accept = true;
        self.mode = Mode::Confirm;
    }

    /// Drop the job asked about.
    pub(crate) fn drop_confirm(&mut self)
        ensures
            final(self).state() == (AppState {
                confirm: None,
                mode: Mode::Normal,
                ..old(self).state()
            }),
    {
        reveal(part);
        self.confirm = None;
        self.mode = Mode::Normal;
    }

    /// Move to one of the two buttons.
    pub(crate) fn set_confirm_accept(&mut self, confirm_accept: bool)
        ensures
            final(self).state() == (AppState {
                confirm_accept,
                ..old(self).state()
            }),
    {
        self.confirm_accept = confirm_accept;
    }

    /// Note that a job is under way on something.
    pub(crate) fn note_pending(&mut self, id: String, verb: &'static str)
        ensures
            final(self).state() == (AppState {
                pending: old(self).state().pending.insert(id@, verb@),
                ..old(self).state()
            }),
    {
        reveal(verbs);
        let ghost before = self.pending@;
        let ghost key = id@;
        self.pending.insert(id, verb);
        assert(self.pending@.map_values(|s: &'static str| s@) =~= before.map_values(
            |s: &'static str| s@,
        ).insert(key, verb@));
    }

    /// Note that a job is under way on nothing in particular.
    pub(crate) fn note_global(&mut self, description: String)
        ensures
            final(self).state() == (AppState {
                global_pending: old(self).state().global_pending.push(description@),
                ..old(self).state()
            }),
    {
        reveal(part);
        put(&mut self.global_pending, description);
    }

    /// Fold a stack, or unfold it.
    pub(crate) fn toggle_folded(&mut self, key: &str)
        ensures
            final(self).state() == (AppState {
                collapsed: if old(self).state().collapsed.contains(key@) {
                    old(self).state().collapsed.remove(key@)
                } else {
                    old(self).state().collapsed.insert(key@)
                },
                ..old(self).state()
            }),
    {
        let ghost before = self.collapsed@;
        if !self.collapsed.remove(key) {
            assert(self.collapsed@ =~= before);
            self.collapsed.insert(key);
        }
    }

    /// Unfold every stack.
    pub(crate) fn unfold_all(&mut self)
        ensures
            final(self).state() == (AppState {
                collapsed: Set::empty(),
                ..old(self).state()
            }),
    {
        self.collapsed.clear();
    }
}

} // verus!
