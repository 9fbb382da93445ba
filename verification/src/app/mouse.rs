//! What the mouse does.

use vstd::prelude::*;

use crate::action::{command_table, COMMAND_COUNT};
use crate::app::commands::clamped;
use crate::app::hits::{find_hit, first_hit, hit, hits};
use crate::app::input::blank;
use crate::app::palette::palette_for;
use crate::app::run::sorting_otherwise_is_sound;
use crate::app::state::{part, wf_carries_over, App, AppState};
use crate::app::tick::{elapsed, elapsed_since};
use crate::app::{
    cycle_of, sort_cycle, Focus, Mode, Sort, Splitter, Tab, ViewRow, DOUBLE_CLICK, SCROLL_STEP,
};
use crate::geometry::{minus, sub_cells, Position, Rect};

verus! {

broadcast use vstd::string::group_string_axioms;

/// A button of the mouse.
#[derive(Debug, Clone, Copy, PartialEq, Eq, Structural)]
pub enum MouseButton {
    Left,
    Right,
    Middle,
}

/// What the mouse did.
#[derive(Debug, Clone, Copy, PartialEq, Eq, Structural)]
pub enum MouseEventKind {
    Down(MouseButton),
    Up(MouseButton),
    Drag(MouseButton),
    Moved,
    ScrollDown,
    ScrollUp,
    ScrollLeft,
    ScrollRight,
}

/// The mouse doing something somewhere.
#[derive(Debug, Clone, Copy, PartialEq, Eq, Structural)]
pub struct MouseEvent {
    pub kind: MouseEventKind,
    pub column: u16,
    pub row: u16,
}

/// The first place of `sort` in `cycle`, from `i` on.
pub open spec fn sort_place(cycle: Seq<Sort>, sort: Sort, i: int) -> Option<int>
    decreases cycle.len() - i,
{
    if i >= cycle.len() {
        None
    } else if cycle[i] == sort {
        Some(i)
    } else {
        sort_place(cycle, sort, i + 1)
    }
}

fn find_sort(cycle: &Vec<Sort>, sort: Sort) -> (out: Option<usize>)
    ensures
        match out {
            Some(i) => i < cycle@.len() && sort_place(cycle@, sort, 0) == Some(i as int),
            None => sort_place(cycle@, sort, 0) is None,
        },
{
    let mut i: usize = 0;
    while i < cycle.len()
        invariant
            i <= cycle.len(),
            sort_place(cycle@, sort, 0) == sort_place(cycle@, sort, i as int),
        decreases cycle.len() - i,
    {
        if cycle[i] == sort {
            return Some(i);
        }
        i += 1;
    }
    None
}

/// One entry from `cursor` towards `delta`, as far as there are `len` of them.
pub open spec fn stepped(cursor: int, len: int, delta: int) -> int {
    clamped(
        cursor + (if delta > 0 {
            1int
        } else if delta < 0 {
            -1
        } else {
            0
        }),
        0,
        if len > 0 {
            len - 1
        } else {
            0
        },
    )
}

fn step(cursor: usize, len: usize, delta: isize) -> (out: usize)
    ensures
        out == stepped(cursor as int, len as int, delta as int),
{
    let last: usize = if len > 0 {
        len - 1
    } else {
        0
    };
    if delta > 0 {
        if cursor < last {
            cursor + 1
        } else {
            last
        }
    } else if delta < 0 {
        if cursor == 0 {
            0
        } else if cursor - 1 <= last {
            cursor - 1
        } else {
            last
        }
    } else if cursor <= last {
        cursor
    } else {
        last
    }
}

impl AppState {
    /// Sorted by a column, or the other way round if it's already active.
    #[verifier::opaque]
    pub open spec fn sort_picked(self, sort: Sort) -> AppState {
        match sort_place(cycle_of(self.tab), sort, 0) {
            None => self,
            Some(pos) => if self.sort_index.at(self.tab) == pos {
                self.sort_turned()
            } else {
                (AppState {
                    sort_index: self.sort_index.with(self.tab, pos as usize),
                    sort_reverse: self.sort_reverse.with(self.tab, false),
                    ..self
                }).rebuilt(self.tab)
            },
        }
    }

    /// Whether a click at `at` is the second of two.
    pub open spec fn clicked_before(self, at: Position, now: u64) -> bool {
        match self.last_click {
            Some((when, prev)) => prev == at && elapsed(now, when) < DOUBLE_CLICK,
            None => false,
        }
    }

    /// A message dismissed early.
    #[verifier::opaque]
    pub open spec fn toast_dismissed(self, index: int) -> AppState {
        if index < self.toasts.len() {
            AppState { toasts: self.toasts.remove(index), ..self }
        } else {
            self
        }
    }

    /// A pane back to its default size. This is the only way back once you've
    /// dragged.
    #[verifier::opaque]
    pub open spec fn pane_reset(self, splitter: Splitter) -> AppState {
        match splitter {
            Splitter::Logs => AppState { log_rows: None, ..self },
            Splitter::DetailSide => AppState { detail_cols: None, ..self },
            Splitter::DetailBelow => AppState { detail_rows: None, ..self },
        }
    }

    /// A boundary pressed. Pressing alone doesn't move anything — the boundary is
    /// already where it is. The drag that follows moves it.
    #[verifier::opaque]
    pub open spec fn splitter_pressed(self, splitter: Splitter, at: Position, now: u64) -> AppState {
        if self.clicked_before(at, now) {
            self.click_noted(at, now).pane_reset(splitter)
        } else {
            self.click_noted(at, now).held(Some(splitter))
        }
    }

    /// The row of the view that the body of the list has at `at`.
    pub open spec fn row_under(self, body: Rect, at: Position) -> int {
        self.hits.list_offset + (at.y - body.y)
    }

    /// The body of the list clicked. Clicking past the last row doesn't move the
    /// selection.
    #[verifier::opaque]
    pub open spec fn list_clicked(self, body: Rect, at: Position, now: u64) -> AppState {
        let row = self.row_under(body, at);
        let focused = self.focused(Focus::List);
        if row < self.rows().len() {
            let moved = focused.click_noted(at, now).cursor_set(row, now);
            match self.rows()[row] {
                // A disclosure triangle opens and shuts on a plain click, which
                // is what one looks like it should do.
                ViewRow::Group(_) => moved.collapse_toggled(),
                ViewRow::Item(_) => if self.clicked_before(at, now) {
                    moved.detail_turned()
                } else {
                    moved
                },
            }
        } else {
            focused
        }
    }

    /// The palette clicked. Clicking away from the box is the same as pressing
    /// escape.
    #[verifier::opaque]
    pub open spec fn palette_clicked(self, at: Position, now: u64) -> AppState {
        match first_hit(self.hits.palette_rows, at, 0) {
            Some(line) => (AppState {
                palette_input: blank(),
                palette_cursor: 0,
                mode: Mode::Normal,
                ..self
            }).ran(command_table()[line as int], now),
            None => if hits(self.hits.modal, at) {
                self
            } else {
                self.palette_left_alone()
            },
        }
    }

    /// The question clicked. Anywhere but the accept button — the cancel button,
    /// or outside the dialog entirely — is a "no". Destructive actions should be
    /// hard to trigger by accident and easy to back out of.
    #[verifier::opaque]
    pub open spec fn confirm_clicked(self, at: Position) -> AppState {
        if hits(self.hits.confirm_yes, at) {
            self.confirm_accepted()
        } else if hits(self.hits.confirm_no, at) || !hits(self.hits.modal, at) {
            self.confirm_cancelled()
        } else {
            self
        }
    }

    /// The panes clicked, with no modal in front of them.
    #[verifier::opaque]
    pub open spec fn panes_clicked(self, at: Position, now: u64) -> AppState {
        // Toasts sit on top of everything.
        match first_hit(self.hits.toasts, at, 0) {
            Some(index) => self.toast_dismissed(index as int),
            None => match first_hit(self.hits.tabs, at, 0) {
                Some(tab) => self.tab_set(tab, now),
                None => match first_hit(self.hits.list_headers, at, 0) {
                    Some(sort) => self.sort_picked(sort),
                    // Before the panes themselves: a splitter lies on the border
                    // rows they include in their own rectangles.
                    None => match first_hit(self.hits.splitters, at, 0) {
                        Some(splitter) => self.splitter_pressed(splitter, at, now),
                        None => if hits(self.hits.logs, at) {
                            self.focused(Focus::Logs)
                        } else {
                            match self.hits.list_body {
                                Some(body) => if body.holds(at) {
                                    self.list_clicked(body, at, now)
                                } else {
                                    self
                                },
                                None => self,
                            }
                        },
                    },
                },
            },
        }
    }

    /// What a click does. A modal owns the screen while it's up: nothing behind
    /// it is live.
    #[verifier::opaque]
    pub open spec fn clicked(self, at: Position, now: u64) -> AppState {
        match self.mode {
            Mode::Help => AppState { mode: Mode::Normal, ..self },
            Mode::Palette => self.palette_clicked(at, now),
            Mode::Confirm => self.confirm_clicked(at),
            Mode::Normal => self.panes_clicked(at, now),
            Mode::Filter => self.panes_clicked(at, now),
        }
    }

    /// The held splitter at the pointer. The new size is measured from the far
    /// edge of the pane being resized, as the previous frame drew it.
    #[verifier::opaque]
    pub open spec fn dragged(self, at: Position) -> AppState {
        match (self.drag, self.hits.logs, self.hits.detail) {
            (Some(Splitter::Logs), Some(logs), _) => AppState {
                log_rows: Some(minus(logs.bottom_edge(), at.y)),
                ..self
            },
            (Some(Splitter::DetailSide), _, Some(detail)) => AppState {
                detail_cols: Some(minus(detail.right_edge(), at.x)),
                ..self
            },
            (Some(Splitter::DetailBelow), _, Some(detail)) => AppState {
                detail_rows: Some(minus(detail.bottom_edge(), at.y)),
                ..self
            },
            _ => self,
        }
    }

    /// The palette's cursor moved by the wheel.
    #[verifier::opaque]
    pub open spec fn palette_wheeled(self, delta: int) -> AppState {
        let len = palette_for(self.palette_input.value).len() as int;
        AppState {
            palette_cursor: stepped(self.palette_cursor as int, len, delta) as usize,
            ..self
        }
    }

    /// What the wheel does: it acts on whatever is under the pointer, not on
    /// whatever has keyboard focus.
    #[verifier::opaque]
    pub open spec fn wheeled(self, at: Position, delta: int, now: u64) -> AppState {
        match self.mode {
            Mode::Palette => self.palette_wheeled(delta),
            Mode::Help => self,
            Mode::Confirm => self,
            _ => if hits(self.hits.logs, at) {
                self.logs_scrolled(delta)
            } else {
                self.selection_moved(delta, now)
            },
        }
    }

    /// What the mouse does. The other buttons carry no meaning here, and reacting
    /// to them would only cause surprises.
    #[verifier::opaque]
    pub open spec fn moused(self, ev: MouseEvent, now: u64) -> AppState {
        let at = Position { x: ev.column, y: ev.row };
        match ev.kind {
            MouseEventKind::Down(MouseButton::Left) => self.clicked(at, now).woken(),
            MouseEventKind::Drag(MouseButton::Left) => self.dragged(at).woken(),
            MouseEventKind::Up(MouseButton::Left) => self.held(None).woken(),
            MouseEventKind::ScrollDown => self.wheeled(at, SCROLL_STEP as int, now).woken(),
            MouseEventKind::ScrollUp => self.wheeled(at, -SCROLL_STEP as int, now).woken(),
            _ => self,
        }
    }

    /// A pane focused.
    #[verifier::opaque]
    pub open spec fn focused(self, focus: Focus) -> AppState {
        AppState { focus, ..self }
    }

    /// A click remembered.
    #[verifier::opaque]
    pub open spec fn click_noted(self, at: Position, now: u64) -> AppState {
        AppState { last_click: Some((now, at)), ..self }
    }

    /// The detail pane opened or closed.
    #[verifier::opaque]
    pub open spec fn detail_turned(self) -> AppState {
        AppState { show_detail: !self.show_detail, ..self }
    }

    /// A boundary held.
    #[verifier::opaque]
    pub open spec fn held(self, drag: Option<Splitter>) -> AppState {
        AppState { drag, ..self }
    }
}

impl App {
    /// Jump straight to a sort column, or reverse it if it's already active.
    /// Clicking a column header is the only way in.
    pub fn set_sort(&mut self, sort: Sort)
        requires
            old(self).wf(),
        ensures
            final(self).state() == old(self).state().sort_picked(sort),
            final(self).wf(),
    {
        reveal(AppState::sort_picked);
        let tab = self.tab;
        match find_sort(&sort_cycle(tab), sort) {
            None => {},
            Some(pos) => {
                if *self.sort_index.get(tab) == pos {
                    self.turn_sort();
                } else {
                    let ghost v = self.state();
                    self.set_sort_index(tab, pos);
                    proof {
                        sorting_otherwise_is_sound(v, tab, pos);
                    }
                    let ghost w = self.state();
                    self.set_sort_reverse(tab, false);
                    proof {
                        wf_carries_over(w, self.state());
                    }
                    self.rebuild(tab);
                }
            },
        }
    }

    fn clicked_before(&self, at: Position, now: u64) -> (out: bool)
        ensures
            out == self.state().clicked_before(at, now),
    {
        match self.last_click {
            Some((when, prev)) => prev == at && elapsed_since(now, when) < DOUBLE_CLICK,
            None => false,
        }
    }

    fn dismiss_toast(&mut self, index: usize)
        requires
            old(self).wf(),
        ensures
            final(self).state() == old(self).state().toast_dismissed(index as int),
            final(self).wf(),
    {
        reveal(AppState::toast_dismissed);
        let ghost v = self.state();
        self.drop_toast(index);
        proof {
            wf_carries_over(v, self.state());
        }
    }

    fn drop_toast(&mut self, index: usize)
        ensures
            final(self).state() == (AppState {
                toasts: if index < old(self).state().toasts.len() {
                    old(self).state().toasts.remove(index as int)
                } else {
                    old(self).state().toasts
                },
                ..old(self).state()
            }),
    {
        reveal(part);
        let ghost before = self.toasts.deep_view();
        if index < self.toasts.len() {
            let _ = self.toasts.remove(index);
            assert(self.toasts.deep_view() =~= before.remove(index as int));
        }
    }

    fn reset_pane(&mut self, splitter: Splitter)
        requires
            old(self).wf(),
        ensures
            final(self).state() == old(self).state().pane_reset(splitter),
            final(self).wf(),
    {
        reveal(AppState::pane_reset);
        let ghost v = self.state();
        match splitter {
            Splitter::Logs => {
                self.log_rows = None;
            },
            Splitter::DetailSide => {
                self.detail_cols = None;
            },
            Splitter::DetailBelow => {
                self.detail_rows = None;
            },
        }
        proof {
            wf_carries_over(v, self.state());
        }
    }

    fn hold(&mut self, drag: Option<Splitter>)
        requires
            old(self).wf(),
        ensures
            final(self).state() == old(self).state().held(drag),
            final(self).wf(),
    {
        reveal(AppState::held);
        let ghost v = self.state();
        self.drag = drag;
        proof {
            wf_carries_over(v, self.state());
        }
    }

    fn press_splitter(&mut self, splitter: Splitter, at: Position, now: u64)
        requires
            old(self).wf(),
        ensures
            final(self).state() == old(self).state().splitter_pressed(splitter, at, now),
            final(self).wf(),
    {
        reveal(AppState::splitter_pressed);
        let double = self.clicked_before(at, now);
        self.note_click(at, now);
        if double {
            self.reset_pane(splitter);
        } else {
            self.hold(Some(splitter));
        }
    }

    fn focus_pane(&mut self, focus: Focus)
        requires
            old(self).wf(),
        ensures
            final(self).state() == old(self).state().focused(focus),
            final(self).wf(),
    {
        reveal(AppState::focused);
        let ghost v = self.state();
        self.set_focus(focus);
        proof {
            wf_carries_over(v, self.state());
        }
    }

    fn note_click(&mut self, at: Position, now: u64)
        requires
            old(self).wf(),
        ensures
            final(self).state() == old(self).state().click_noted(at, now),
            final(self).wf(),
    {
        reveal(AppState::click_noted);
        let ghost v = self.state();
        self.last_click = Some((now, at));
        proof {
            wf_carries_over(v, self.state());
        }
    }

    fn turn_detail(&mut self)
        requires
            old(self).wf(),
        ensures
            final(self).state() == old(self).state().detail_turned(),
            final(self).wf(),
    {
        reveal(AppState::detail_turned);
        let ghost v = self.state();
        let show = !self.show_detail;
        self.set_show_detail(show);
        proof {
            wf_carries_over(v, self.state());
        }
    }

    fn target_under(&self, body: Rect, at: Position) -> (out: Option<usize>)
        requires
            body.holds(at),
        ensures
            match out {
                Some(row) => row == self.state().row_under(body, at) && row
                    < self.state().rows().len(),
                None => self.state().row_under(body, at) >= self.state().rows().len(),
            },
    {
        reveal(part);
        let down: usize = (at.y - body.y) as usize;
        let len: usize = self.view().len();
        if down < len && self.hits.list_offset < len - down {
            Some(self.hits.list_offset + down)
        } else {
            None
        }
    }

    fn click_list(&mut self, body: Rect, at: Position, now: u64)
        requires
            old(self).wf(),
            body.holds(at),
        ensures
            final(self).state() == old(self).state().list_clicked(body, at, now),
            final(self).wf(),
    {
        reveal(AppState::list_clicked);
        let ghost v = self.state();
        let target = self.target_under(body, at);
        let double = self.clicked_before(at, now);
        match target {
            None => self.focus_pane(Focus::List),
            Some(row) => {
                let kind = self.view()[row];
                self.focus_pane(Focus::List);
                self.note_click(at, now);
                proof {
                    focusing_keeps_rows(v, at, now);
                }
                self.set_cursor(row, now);
                match kind {
                    ViewRow::Group(_) => self.toggle_collapse(),
                    ViewRow::Item(_) => if double {
                        self.turn_detail();
                    },
                }
            },
        }
    }

    fn palette_line_at(&self, at: Position) -> (out: Option<usize>)
        ensures
            out == first_hit(self.state().hits.palette_rows, at, 0),
            self.state().hits.sound() ==> (out matches Some(line) ==> line < COMMAND_COUNT),
    {
        reveal(part);
        let out = find_hit(&self.hits.palette_rows, at);
        proof {
            if self.state().hits.sound() {
                hits_are_listed(self.hits.palette_rows@, at, 0);
            }
        }
        out
    }

    fn hits_modal(&self, at: Position) -> (out: bool)
        ensures
            out == hits(self.state().hits.modal, at),
    {
        reveal(part);
        hit(self.hits.modal, at)
    }

    fn click_palette(&mut self, at: Position, now: u64)
        requires
            old(self).wf(),
        ensures
            final(self).state() == old(self).state().palette_clicked(at, now),
            final(self).wf(),
    {
        reveal(AppState::palette_clicked);
        assert(self.state().hits.sound()) by {
            reveal(AppState::wf);
        }
        match self.palette_line_at(at) {
            Some(line) => self.run_line(line, now),
            None => if !self.hits_modal(at) {
                self.leave_palette();
            },
        }
    }

    fn hits_buttons(&self, at: Position) -> (out: (bool, bool))
        ensures
            out.0 == hits(self.state().hits.confirm_yes, at),
            out.1 == hits(self.state().hits.confirm_no, at),
    {
        reveal(part);
        (hit(self.hits.confirm_yes, at), hit(self.hits.confirm_no, at))
    }

    fn click_confirm(&mut self, at: Position)
        requires
            old(self).wf(),
        ensures
            final(self).state() == old(self).state().confirm_clicked(at),
            final(self).wf(),
    {
        reveal(AppState::confirm_clicked);
        let (yes, no) = self.hits_buttons(at);
        if yes {
            self.accept_confirm();
        } else if no || !self.hits_modal(at) {
            self.cancel_confirm();
        }
    }

    fn toast_at(&self, at: Position) -> (out: Option<usize>)
        ensures
            out == first_hit(self.state().hits.toasts, at, 0),
    {
        reveal(part);
        find_hit(&self.hits.toasts, at)
    }

    fn tab_at(&self, at: Position) -> (out: Option<Tab>)
        ensures
            out == first_hit(self.state().hits.tabs, at, 0),
    {
        reveal(part);
        find_hit(&self.hits.tabs, at)
    }

    fn header_at(&self, at: Position) -> (out: Option<Sort>)
        ensures
            out == first_hit(self.state().hits.list_headers, at, 0),
    {
        reveal(part);
        find_hit(&self.hits.list_headers, at)
    }

    fn splitter_at(&self, at: Position) -> (out: Option<Splitter>)
        ensures
            out == first_hit(self.state().hits.splitters, at, 0),
    {
        reveal(part);
        find_hit(&self.hits.splitters, at)
    }

    fn hits_logs(&self, at: Position) -> (out: bool)
        ensures
            out == hits(self.state().hits.logs, at),
    {
        reveal(part);
        hit(self.hits.logs, at)
    }

    fn list_body(&self) -> (out: Option<Rect>)
        ensures
            out == self.state().hits.list_body,
    {
        reveal(part);
        self.hits.list_body
    }

    fn click_panes(&mut self, at: Position, now: u64)
        requires
            old(self).wf(),
        ensures
            final(self).state() == old(self).state().panes_clicked(at, now),
            final(self).wf(),
    {
        reveal(AppState::panes_clicked);
        if let Some(index) = self.toast_at(at) {
            self.dismiss_toast(index);
        } else if let Some(tab) = self.tab_at(at) {
            self.set_tab(tab, now);
        } else if let Some(sort) = self.header_at(at) {
            self.set_sort(sort);
        } else if let Some(splitter) = self.splitter_at(at) {
            self.press_splitter(splitter, at, now);
        } else if self.hits_logs(at) {
            self.focus_pane(Focus::Logs);
        } else if let Some(body) = self.list_body() {
            if body.contains(at) {
                self.click_list(body, at, now);
            }
        }
    }

    fn on_click(&mut self, at: Position, now: u64)
        requires
            old(self).wf(),
        ensures
            final(self).state() == old(self).state().clicked(at, now),
            final(self).wf(),
    {
        reveal(AppState::clicked);
        match self.mode {
            Mode::Help => self.to_normal(),
            Mode::Palette => self.click_palette(at, now),
            Mode::Confirm => self.click_confirm(at),
            Mode::Normal => self.click_panes(at, now),
            Mode::Filter => self.click_panes(at, now),
        }
    }

    fn pane_areas(&self) -> (out: (Option<Rect>, Option<Rect>))
        ensures
            out.0 == self.state().hits.logs,
            out.1 == self.state().hits.detail,
    {
        reveal(part);
        (self.hits.logs, self.hits.detail)
    }

    fn drag_logs(&mut self, size: u16)
        requires
            old(self).wf(),
        ensures
            final(self).state() == (AppState { log_rows: Some(size), ..old(self).state() }),
            final(self).wf(),
    {
        let ghost v = self.state();
        self.log_rows = Some(size);
        proof {
            wf_carries_over(v, self.state());
        }
    }

    fn drag_side(&mut self, size: u16)
        requires
            old(self).wf(),
        ensures
            final(self).state() == (AppState { detail_cols: Some(size), ..old(self).state() }),
            final(self).wf(),
    {
        let ghost v = self.state();
        self.detail_cols = Some(size);
        proof {
            wf_carries_over(v, self.state());
        }
    }

    fn drag_below(&mut self, size: u16)
        requires
            old(self).wf(),
        ensures
            final(self).state() == (AppState { detail_rows: Some(size), ..old(self).state() }),
            final(self).wf(),
    {
        let ghost v = self.state();
        self.detail_rows = Some(size);
        proof {
            wf_carries_over(v, self.state());
        }
    }

    /// Move the held splitter to the pointer.
    ///
    /// The new size is measured from the far edge of the pane being resized, as
    /// the previous frame drew it, so the boundary lands under the cursor
    /// wherever the layout happens to have put things. It's stored raw; the
    /// layout clamps it and writes the clamped value back, which is what keeps
    /// a drag past the end from banking distance it would have to be dragged
    /// back through.
    fn on_drag(&mut self, at: Position)
        requires
            old(self).wf(),
        ensures
            final(self).state() == old(self).state().dragged(at),
            final(self).wf(),
    {
        reveal(AppState::dragged);
        let (logs, detail) = self.pane_areas();
        match (self.drag, logs, detail) {
            (Some(Splitter::Logs), Some(logs), _) => self.drag_logs(
                sub_cells(logs.bottom(), at.y),
            ),
            (Some(Splitter::DetailSide), _, Some(detail)) => self.drag_side(
                sub_cells(detail.right(), at.x),
            ),
            (Some(Splitter::DetailBelow), _, Some(detail)) => self.drag_below(
                sub_cells(detail.bottom(), at.y),
            ),
            _ => {},
        }
    }

    fn wheel_palette(&mut self, delta: isize)
        requires
            old(self).wf(),
        ensures
            final(self).state() == old(self).state().palette_wheeled(delta as int),
            final(self).wf(),
    {
        reveal(AppState::palette_wheeled);
        let ghost v = self.state();
        let len: usize = self.palette_matches().len();
        let next: usize = step(self.palette_cursor, len, delta);
        self.set_palette_cursor(next);
        proof {
            wf_carries_over(v, self.state());
        }
    }

    fn on_scroll(&mut self, at: Position, delta: isize, now: u64)
        requires
            old(self).wf(),
        ensures
            final(self).state() == old(self).state().wheeled(at, delta as int, now),
            final(self).wf(),
    {
        reveal(AppState::wheeled);
        match self.mode {
            // The palette is a list too — the wheel should move through it.
            Mode::Palette => self.wheel_palette(delta),
            Mode::Help => {},
            Mode::Confirm => {},
            _ => if self.hits_logs(at) {
                self.scroll_logs(delta);
            } else {
                self.move_selection(delta, now);
            },
        }
    }

    /// Take what the mouse did.
    pub fn on_mouse(&mut self, ev: MouseEvent, now: u64)
        requires
            old(self).wf(),
        ensures
            final(self).state() == old(self).state().moused(ev, now),
            final(self).wf(),
    {
        reveal(AppState::moused);
        let at = Position { x: ev.column, y: ev.row };
        match ev.kind {
            MouseEventKind::Down(MouseButton::Left) => self.on_click(at, now),
            // Only meaningful while a splitter is held; `on_drag` is a no-op
            // otherwise, so dragging across the list still selects nothing.
            MouseEventKind::Drag(MouseButton::Left) => self.on_drag(at),
            MouseEventKind::Up(MouseButton::Left) => self.hold(None),
            MouseEventKind::ScrollDown => self.on_scroll(at, SCROLL_STEP, now),
            MouseEventKind::ScrollUp => self.on_scroll(at, -SCROLL_STEP, now),
            _ => {
                return;
            },
        }
        self.wake();
    }
}

proof fn focusing_keeps_rows(v: AppState, at: Position, now: u64)
    ensures
        v.focused(Focus::List).click_noted(at, now).rows() == v.rows(),
{
    reveal(AppState::focused);
    reveal(AppState::click_noted);
}

proof fn hits_are_listed(regions: Seq<(Rect, usize)>, at: Position, i: int)
    requires
        0 <= i,
        forall|k: int| 0 <= k < regions.len() ==> (#[trigger] regions[k]).1 < COMMAND_COUNT,
    ensures
        first_hit(regions, at, i) matches Some(line) ==> line < COMMAND_COUNT,
    decreases regions.len() - i,
{
    if i < regions.len() && !regions[i].0.holds(at) {
        hits_are_listed(regions, at, i + 1);
    }
}

} // verus!
