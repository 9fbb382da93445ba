//! What each command does.

use vstd::prelude::*;

use crate::app::views::selecting_keeps_lists;
use crate::app::state::{part, wf_carries_over, App, AppState, Effect, EffectView, LogView};
use crate::app::{Focus, Group, GroupView, Tab, Toast, ToastKind, ToastView, ViewRow};
use crate::text::{owned, put, same};

verus! {

broadcast use vstd::string::group_string_axioms;

/// `n` held between `low` and `high`.
pub open spec fn clamped(n: int, low: int, high: int) -> int {
    if n < low {
        low
    } else if n > high {
        high
    } else {
        n
    }
}

fn clamp(n: i128, high: usize) -> (out: usize)
    ensures
        out == clamped(n as int, 0, high as int),
{
    if n < 0 {
        0
    } else if n > high as i128 {
        high
    } else {
        n as usize
    }
}

/// Toasts with one more: the stack is kept short, the newest messages being the
/// relevant ones.
pub open spec fn with_toast(toasts: Seq<ToastView>, toast: ToastView) -> Seq<ToastView> {
    if toasts.len() >= 4 {
        toasts.drop_first().push(toast)
    } else {
        toasts.push(toast)
    }
}

/// Whether some group is not folded.
pub open spec fn any_open(groups: Seq<GroupView>) -> bool {
    exists|i: int| 0 <= i < groups.len() && !(#[trigger] groups[i]).collapsed
}

/// The keys of the first `n` groups, together with `folded`.
pub open spec fn folding_all(folded: Set<Seq<char>>, groups: Seq<GroupView>, n: int) -> Set<
    Seq<char>,
>
    decreases n,
{
    if n <= 0 {
        folded
    } else {
        folding_all(folded, groups, n - 1).insert(groups[n - 1].key)
    }
}

impl AppState {
    /// A message added.
    pub open spec fn toasted(self, kind: ToastKind, text: Seq<char>, now: u64) -> AppState {
        AppState {
            toasts: with_toast(self.toasts, ToastView { kind, text, born: now }),
            dirty: true,
            ..self
        }
    }

    /// One more thing to do outside.
    pub open spec fn effecting(self, effect: EffectView) -> AppState {
        AppState { effects: self.effects.push(effect), ..self }
    }

    /// The log pane turned to another container, or to none.
    pub open spec fn logs_turned(self, id: Option<Seq<char>>) -> AppState {
        AppState { logs: self.logs.turned_to(id), ..self }.effecting(EffectView::DetachLogs)
    }

    /// The container the log pane should be about.
    pub open spec fn log_target(self) -> Option<Seq<char>> {
        if self.tab == Tab::Containers && self.show_logs {
            match self.container() {
                Some(c) => Some(c.id),
                None => None,
            }
        } else {
            None
        }
    }

    /// The log pane following the selection: the new, empty pane is shown
    /// immediately, but a stream is only opened once the debounce is waited out.
    #[verifier::opaque]
    pub open spec fn logs_synced(self, now: u64) -> AppState {
        match self.log_target() {
            None => if self.logs.container_id is Some {
                AppState { log_pending: None, ..self.logs_turned(None) }
            } else {
                self
            },
            Some(id) => if self.logs.container_id == Some(id) {
                self
            } else {
                AppState { log_pending: Some((id, now)), ..self.logs_turned(Some(id)) }
            },
        }
    }

    /// Another tab on screen.
    #[verifier::opaque]
    pub open spec fn tab_set(self, tab: Tab, now: u64) -> AppState {
        if self.tab == tab {
            self
        } else {
            (AppState { tab, focus: Focus::List, ..self }).with_selection().logs_synced(now)
        }
    }

    /// The row at `position` selected.
    #[verifier::opaque]
    pub open spec fn row_selected(self, position: int) -> AppState {
        match self.rows()[position] {
            ViewRow::Item(i) => AppState {
                selected_group: None,
                selected: self.selected.with(self.tab, self.key_at(self.tab, i as int)),
                ..self
            },
            // A header is selectable in its own right: it has to be, or a stack
            // folded shut couldn't be reached to open again.
            ViewRow::Group(g) => if g < self.groups.len() {
                AppState { selected_group: Some(self.groups[g as int].key), ..self }
            } else {
                self
            },
        }
    }

    /// The cursor on row `position`, if there is one.
    #[verifier::opaque]
    pub open spec fn cursor_set(self, position: int, now: u64) -> AppState {
        if 0 <= position < self.rows().len() {
            self.row_selected(position).logs_synced(now)
        } else {
            self
        }
    }

    /// The cursor `delta` rows further down, or as far as there are rows.
    #[verifier::opaque]
    pub open spec fn selection_moved(self, delta: int, now: u64) -> AppState {
        if self.rows().len() == 0 {
            self
        } else {
            let current = match self.cursor_from(0) {
                Some(k) => k,
                None => 0,
            };
            self.cursor_set(clamped(current + delta, 0, self.rows().len() - 1), now)
        }
    }

    /// The log pane scrolled down by `delta` lines. Scrolling away from the
    /// bottom implicitly turns off follow; coming back to the bottom turns it on
    /// again. That's what everyone expects from a log viewer.
    #[verifier::opaque]
    pub open spec fn logs_scrolled(self, delta: int) -> AppState {
        let next = clamped(self.logs.scroll - delta, 0, self.logs.lines.len() as int);
        AppState {
            logs: LogView { scroll: next as nat, follow: next == 0, ..self.logs },
            ..self
        }
    }

    /// The arrows follow focus, so they scroll the log pane when that's what's
    /// focused.
    #[verifier::opaque]
    pub open spec fn cursor_moved(self, delta: int, now: u64) -> AppState {
        if self.focus == Focus::Logs {
            self.logs_scrolled(delta)
        } else {
            self.selection_moved(delta, now)
        }
    }

    /// The stack under the cursor, or the one containing it, folded or unfolded.
    /// Collapsing from a row moves the cursor up onto the header, because the
    /// row it was on is about to stop being listed.
    #[verifier::opaque]
    pub open spec fn collapse_toggled(self) -> AppState {
        if !self.grouping() {
            self
        } else {
            match self.group() {
                None => self,
                Some(g) => (AppState {
                    collapsed: if self.collapsed.contains(g.key) {
                        self.collapsed.remove(g.key)
                    } else {
                        self.collapsed.insert(g.key)
                    },
                    selected_group: Some(g.key),
                    ..self
                }).rebuilt(Tab::Containers),
            }
        }
    }

    /// Every stack folded, or every stack unfolded if none are open.
    #[verifier::opaque]
    pub open spec fn collapse_all_toggled(self) -> AppState {
        if !self.grouping() {
            self
        } else if any_open(self.groups) {
            (AppState {
                collapsed: folding_all(
                    self.collapsed,
                    self.groups,
                    self.groups.len() as int,
                ),
                selected_group: match self.group() {
                    Some(g) => Some(g.key),
                    None => self.selected_group,
                },
                ..self
            }).rebuilt(Tab::Containers)
        } else {
            (AppState { collapsed: Set::empty(), ..self }).rebuilt(Tab::Containers)
        }
    }
}

impl App {
    /// Show a message.
    pub fn toast(&mut self, kind: ToastKind, text: String, now: u64)
        ensures
            final(self).state() == old(self).state().toasted(kind, text@, now),
    {
        reveal(part);
        // Keep the stack short; the newest messages are the relevant ones.
        let ghost before = self.toasts.deep_view();
        if self.toasts.len() >= 4 {
            let _ = self.toasts.remove(0);
            assert(self.toasts.deep_view() =~= before.drop_first());
        }
        put(&mut self.toasts, Toast { kind, text, born: now });
        self.dirty = true;
    }

    /// Ask for something to be done outside.
    pub fn effect(&mut self, effect: Effect)
        ensures
            final(self).state() == old(self).state().effecting(effect.deep_view()),
    {
        reveal(part);
        put(&mut self.effects, effect);
    }

    fn turn_logs(&mut self, id: Option<String>)
        ensures
            final(self).state() == old(self).state().logs_turned(id.deep_view()),
    {
        reveal(part);
        self.logs.reset_for(id);
        self.effect(Effect::DetachLogs);
    }

    fn log_target(&self) -> (out: Option<String>)
        ensures
            out.deep_view() == self.state().log_target(),
    {
        reveal(part);
        if self.tab == Tab::Containers && self.show_logs {
            match self.selected_container() {
                Some(c) => Some(owned(&c.id)),
                None => None,
            }
        } else {
            None
        }
    }

    fn watching(&self) -> (out: bool)
        ensures
            out == (self.state().logs.container_id is Some),
    {
        reveal(part);
        self.logs.container_id.is_some()
    }

    /// Whether the log pane is about that container.
    pub fn watches(&self, id: &str) -> (out: bool)
        ensures
            out == (self.state().logs.container_id == Some(id@)),
    {
        reveal(part);
        match &self.logs.container_id {
            Some(current) => same(current, id),
            None => false,
        }
    }

    fn wait_for_logs(&mut self, pending: Option<(String, u64)>)
        ensures
            final(self).state() == (AppState {
                log_pending: match pending {
                    Some(p) => Some((p.0@, p.1)),
                    None => None,
                },
                ..old(self).state()
            }),
    {
        self.log_pending = pending;
    }

    /// Called whenever the selection or the visibility of the log pane changes.
    pub fn sync_log_target(&mut self, now: u64)
        requires
            old(self).wf(),
        ensures
            final(self).state() == old(self).state().logs_synced(now),
            final(self).wf(),
    {
        reveal(AppState::logs_synced);
        let ghost v = self.state();
        match self.log_target() {
            None => {
                if self.watching() {
                    self.turn_logs(None);
                    self.wait_for_logs(None);
                }
            },
            Some(id) => {
                if !self.watches(&id) {
                    // Show the new (empty) pane immediately, but wait out the
                    // debounce before actually opening a stream.
                    self.turn_logs(Some(owned(&id)));
                    self.wait_for_logs(Some((id, now)));
                }
            },
        }
        proof {
            wf_carries_over(v, self.state());
        }
    }

    /// Put another tab on screen.
    pub fn set_tab(&mut self, tab: Tab, now: u64)
        requires
            old(self).wf(),
        ensures
            final(self).state() == old(self).state().tab_set(tab, now),
            final(self).wf(),
    {
        reveal(AppState::tab_set);
        if self.tab == tab {
            return;
        }
        let ghost v = self.state();
        self.show_tab(tab);
        let ghost w = self.state();
        proof {
            wf_carries_over(v, w);
            selecting_keeps_lists(w);
        }
        self.ensure_selection();
        proof {
            wf_carries_over(w, self.state());
        }
        self.sync_log_target(now);
    }

    fn group_key(&self, g: usize) -> (out: Option<String>)
        ensures
            out.deep_view() == (if g < self.state().groups.len() {
                Some(self.state().groups[g as int].key)
            } else {
                None::<Seq<char>>
            }),
    {
        reveal(part);
        if g < self.groups.len() {
            Some(owned(&self.groups[g].key))
        } else {
            None
        }
    }

    fn select(&mut self, position: usize)
        requires
            old(self).wf(),
            position < old(self).state().rows().len(),
        ensures
            final(self).state() == old(self).state().row_selected(position as int),
            final(self).wf(),
    {
        reveal(AppState::row_selected);
        let ghost v = self.state();
        let row = self.view()[position];
        match row {
            ViewRow::Item(index) => {
                let tab = self.tab;
                let key = self.row_key_at(tab, index);
                self.select_row(tab, key);
            },
            ViewRow::Group(g) => {
                match self.group_key(g) {
                    Some(key) => {
                        self.select_group(Some(key));
                    },
                    None => {},
                }
            },
        }
        proof {
            wf_carries_over(v, self.state());
        }
    }

    /// Put the cursor on a row, if there is one there.
    pub fn set_cursor(&mut self, position: usize, now: u64)
        requires
            old(self).wf(),
        ensures
            final(self).state() == old(self).state().cursor_set(position as int, now),
            final(self).wf(),
    {
        reveal(AppState::cursor_set);
        if position < self.view().len() {
            self.select(position);
            self.sync_log_target(now);
        }
    }

    /// Move the list selection regardless of where focus is. The mouse wheel
    /// uses this directly, since it targets whatever is under the pointer.
    pub fn move_selection(&mut self, delta: isize, now: u64)
        requires
            old(self).wf(),
        ensures
            final(self).state() == old(self).state().selection_moved(delta as int, now),
            final(self).wf(),
    {
        reveal(AppState::selection_moved);
        let len: usize = self.view().len();
        if len == 0 {
            return;
        }
        let current: usize = match self.cursor() {
            Some(k) => k,
            None => 0,
        };
        let next: usize = clamp(current as i128 + delta as i128, len - 1);
        self.set_cursor(next, now);
    }

    fn log_extent(&self) -> (out: (usize, usize))
        ensures
            out.0 == self.state().logs.scroll,
            out.1 == self.state().logs.lines.len(),
    {
        reveal(part);
        (self.logs.scroll, self.logs.lines.len())
    }

    /// Scroll the log pane down by `delta` lines.
    pub fn scroll_logs(&mut self, delta: isize)
        requires
            old(self).wf(),
        ensures
            final(self).state() == old(self).state().logs_scrolled(delta as int),
            final(self).wf(),
    {
        reveal(AppState::logs_scrolled);
        let ghost v = self.state();
        reveal(AppState::wf);
        let (scroll, max): (usize, usize) = self.log_extent();
        let next: usize = clamp(scroll as i128 - delta as i128, max);
        self.set_log_scroll(next);
        proof {
            wf_carries_over(v, self.state());
        }
    }

    /// Keyboard movement: the arrows follow focus, so they scroll the log pane
    /// when that's what's focused.
    pub fn move_cursor(&mut self, delta: isize, now: u64)
        requires
            old(self).wf(),
        ensures
            final(self).state() == old(self).state().cursor_moved(delta as int, now),
            final(self).wf(),
    {
        reveal(AppState::cursor_moved);
        if self.focus == Focus::Logs {
            self.scroll_logs(delta);
        } else {
            self.move_selection(delta, now);
        }
    }

    /// Rebuild one tab of a sound application.
    pub fn rebuild(&mut self, tab: Tab)
        requires
            old(self).wf(),
        ensures
            final(self).state() == old(self).state().rebuilt(tab),
            final(self).wf(),
    {
        reveal(AppState::wf);
        self.rebuild_view(tab);
    }

    fn current_key(&self) -> (out: Option<String>)
        ensures
            out.deep_view() == match self.state().group() {
                Some(g) => Some(g.key),
                None => None,
            },
    {
        match self.current_group() {
            Some(g) => Some(owned(&g.key)),
            None => None,
        }
    }

    /// Fold the stack under the cursor, or the one containing it.
    ///
    /// Collapsing from a row moves the cursor up onto the header, because the row
    /// it was on is about to stop being listed.
    pub fn toggle_collapse(&mut self)
        requires
            old(self).wf(),
        ensures
            final(self).state() == old(self).state().collapse_toggled(),
            final(self).wf(),
    {
        reveal(AppState::collapse_toggled);
        if !self.grouping() {
            return;
        }
        let ghost v = self.state();
        match self.current_key() {
            None => {},
            Some(key) => {
                self.toggle_folded(&key);
                self.select_group(Some(key));
                proof {
                    wf_carries_over(v, self.state());
                }
                self.rebuild(Tab::Containers);
            },
        }
    }

    fn some_open(&self) -> (out: bool)
        ensures
            out == any_open(self.state().groups),
    {
        reveal(part);
        let mut i: usize = 0;
        while i < self.groups.len()
            invariant
                i <= self.groups.len(),
                self.state().groups == self.groups.deep_view(),
                forall|j: int| 0 <= j < i ==> (#[trigger] self.groups.deep_view()[j]).collapsed,
            decreases self.groups.len() - i,
        {
            assert(self.groups.deep_view()[i as int] == self.groups@[i as int].deep_view());
            if !self.groups[i].collapsed {
                assert(!self.groups.deep_view()[i as int].collapsed);
                return true;
            }
            i += 1;
        }
        false
    }

    fn fold_all(&mut self)
        ensures
            final(self).state() == (AppState {
                collapsed: folding_all(
                    old(self).state().collapsed,
                    old(self).state().groups,
                    old(self).state().groups.len() as int,
                ),
                ..old(self).state()
            }),
    {
        reveal(part);
        let ghost v = self.state();
        let mut i: usize = 0;
        let count: usize = self.groups.len();
        while i < count
            invariant
                i <= count,
                count == v.groups.len(),
                self.groups@.len() == count,
                v.groups == self.groups.deep_view(),
                self.state() == (AppState {
                    collapsed: folding_all(v.collapsed, v.groups, i as int),
                    ..v
                }),
            decreases count - i,
        {
            let key = owned(&self.groups[i].key);
            assert(v.groups[i as int].key == key@);
            self.collapsed.insert(&key);
            i += 1;
        }
    }

    /// Fold every stack, or unfold every stack if none are open. With a dozen
    /// projects this is the fastest way to get an overview of what's deployed.
    pub fn toggle_collapse_all(&mut self)
        requires
            old(self).wf(),
        ensures
            final(self).state() == old(self).state().collapse_all_toggled(),
            final(self).wf(),
    {
        reveal(AppState::collapse_all_toggled);
        if !self.grouping() {
            return;
        }
        let ghost v = self.state();
        if self.some_open() {
            // Every row is about to disappear, so park the cursor on the header
            // of whichever stack it was in.
            let key = self.current_key();
            self.fold_all();
            match key {
                Some(key) => {
                    self.select_group(Some(key));
                },
                None => {},
            }
        } else {
            self.unfold_all();
        }
        proof {
            wf_carries_over(v, self.state());
        }
        self.rebuild(Tab::Containers);
    }
}

} // verus!
