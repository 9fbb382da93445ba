//! What each key does.

use vstd::prelude::*;

use crate::action::{
    bound_from, command_at, command_table, key_of, resolve, KeyCode, KeyEvent, KeyEventKind,
    COMMAND_COUNT,
};
use crate::app::input::{blank, Edit};
use crate::app::palette::{palette_for, palette_lines};
use crate::app::state::{part, wf_carries_over, App, AppState};
use crate::app::Mode;

verus! {

broadcast use vstd::string::group_string_axioms;

impl AppState {
    /// A new frame asked for.
    #[verifier::opaque]
    pub open spec fn woken(self) -> AppState {
        AppState { dirty: true, ..self }
    }

    /// The filter edited, and nothing else.
    #[verifier::opaque]
    pub open spec fn filter_touched(self, edit: Edit) -> AppState {
        AppState {
            filter: self.filter.with(self.tab, self.filter.at(self.tab).edited(edit)),
            ..self
        }
    }

    /// The filter edited, and the rows listed afresh.
    #[verifier::opaque]
    pub open spec fn filter_edited(self, edit: Edit) -> AppState {
        self.filter_touched(edit).rebuilt(self.tab)
    }

    /// What a key does while the filter is typed.
    #[verifier::opaque]
    pub open spec fn filter_typed(self, ev: KeyEvent, now: u64) -> AppState {
        match ev.code {
            KeyCode::Esc => (AppState { mode: Mode::Normal, ..self }).filter_edited(Edit::Clear),
            KeyCode::Enter => AppState { mode: Mode::Normal, ..self },
            KeyCode::Backspace => self.filter_edited(Edit::Backspace),
            KeyCode::Delete => self.filter_edited(Edit::Delete),
            KeyCode::Left => self.filter_touched(Edit::Left),
            KeyCode::Right => self.filter_touched(Edit::Right),
            KeyCode::Home => self.filter_touched(Edit::Home),
            KeyCode::End => self.filter_touched(Edit::End),
            KeyCode::Up => self.cursor_moved(-1, now),
            KeyCode::Down => self.cursor_moved(1, now),
            KeyCode::Char(c) => if !ev.ctrl {
                self.filter_edited(Edit::Insert(c))
            } else if c == 'u' {
                self.filter_edited(Edit::Clear)
            } else {
                self
            },
            _ => self,
        }
    }

    /// The palette closed, and what was chosen carried out.
    #[verifier::opaque]
    pub open spec fn palette_chosen(self, now: u64) -> AppState {
        let lines = palette_for(self.palette_input.value);
        let closed = AppState {
            palette_input: blank(),
            palette_cursor: 0,
            mode: Mode::Normal,
            ..self
        };
        if self.palette_cursor < lines.len() {
            closed.ran(command_table()[lines[self.palette_cursor as int] as int], now)
        } else {
            closed
        }
    }

    /// The palette left.
    #[verifier::opaque]
    pub open spec fn palette_left_alone(self) -> AppState {
        AppState { palette_input: blank(), mode: Mode::Normal, ..self }
    }

    /// The palette's cursor one entry up or down, as far as there are any.
    #[verifier::opaque]
    pub open spec fn palette_moved(self, down: bool) -> AppState {
        let len = palette_for(self.palette_input.value).len();
        AppState {
            palette_cursor: if !down {
                if self.palette_cursor > 0 {
                    (self.palette_cursor - 1) as usize
                } else {
                    0
                }
            } else if len == 0 {
                self.palette_cursor
            } else if self.palette_cursor + 1 < len {
                (self.palette_cursor + 1) as usize
            } else {
                (len - 1) as usize
            },
            ..self
        }
    }

    /// The palette's query changed, with the cursor back on top.
    #[verifier::opaque]
    pub open spec fn query_edited(self, edit: Edit) -> AppState {
        AppState { palette_input: self.palette_input.edited(edit), palette_cursor: 0, ..self }
    }

    /// The cursor moved within the palette's query.
    #[verifier::opaque]
    pub open spec fn query_touched(self, edit: Edit) -> AppState {
        AppState { palette_input: self.palette_input.edited(edit), ..self }
    }

    /// What a key does while the palette is open.
    #[verifier::opaque]
    pub open spec fn palette_typed(self, ev: KeyEvent, now: u64) -> AppState {
        match ev.code {
            KeyCode::Esc => self.palette_left_alone(),
            KeyCode::Enter => self.palette_chosen(now),
            KeyCode::Up => self.palette_moved(false),
            KeyCode::Down => self.palette_moved(true),
            KeyCode::Backspace => self.query_edited(Edit::Backspace),
            KeyCode::Left => self.query_touched(Edit::Left),
            KeyCode::Right => self.query_touched(Edit::Right),
            KeyCode::Char(c) => if !ev.ctrl {
                self.query_edited(Edit::Insert(c))
            } else if c == 'u' {
                self.query_edited(Edit::Clear)
            } else {
                self
            },
            _ => self,
        }
    }

    /// What a key does while a question is asked.
    #[verifier::opaque]
    pub open spec fn confirm_typed(self, ev: KeyEvent) -> AppState {
        match ev.code {
            // Move between the two buttons. There are only ever two, so every
            // one of these is a toggle rather than a direction.
            KeyCode::Left | KeyCode::Right | KeyCode::Tab | KeyCode::BackTab
            | KeyCode::Char('h') | KeyCode::Char('l') => AppState {
                confirm_accept: !self.confirm_accept,
                ..self
            },
            KeyCode::Enter => if self.confirm_accept {
                self.confirm_accepted()
            } else {
                self.confirm_cancelled()
            },
            // `y` and `n` answer outright, without having to move first.
            KeyCode::Char('y') | KeyCode::Char('Y') => self.confirm_accepted(),
            KeyCode::Char('n') | KeyCode::Char('N') | KeyCode::Esc => self.confirm_cancelled(),
            _ => self,
        }
    }

    /// What a key does. Terminals that report key releases would otherwise fire
    /// everything twice.
    #[verifier::opaque]
    pub open spec fn typed(self, ev: KeyEvent, now: u64) -> AppState {
        if ev.kind != KeyEventKind::Press {
            self
        } else {
            let woken = self.woken();
            match self.mode {
                Mode::Filter => woken.filter_typed(ev, now),
                Mode::Palette => woken.palette_typed(ev, now),
                Mode::Confirm => woken.confirm_typed(ev),
                // Any key dismisses help.
                Mode::Help => AppState { mode: Mode::Normal, ..woken },
                Mode::Normal => match bound_from(key_of(ev), 0) {
                    Some(cmd) => woken.ran(cmd, now),
                    None => woken,
                },
            }
        }
    }
}

impl App {
    fn touch_filter(&mut self, edit: Edit)
        requires
            old(self).wf(),
        ensures
            final(self).state() == old(self).state().filter_touched(edit),
            final(self).wf(),
    {
        reveal(AppState::filter_touched);
        let ghost v = self.state();
        self.edit_field(edit);
        proof {
            wf_carries_over(v, self.state());
        }
    }

    /// Edit the filter and list the rows afresh.
    pub fn edit_filter(&mut self, edit: Edit)
        requires
            old(self).wf(),
        ensures
            final(self).state() == old(self).state().filter_edited(edit),
            final(self).wf(),
    {
        reveal(AppState::filter_edited);
        let tab = self.tab;
        self.touch_filter(edit);
        self.rebuild(tab);
    }

    /// Leave whatever mode this is.
    pub fn to_normal(&mut self)
        requires
            old(self).wf(),
        ensures
            final(self).state() == (AppState { mode: Mode::Normal, ..old(self).state() }),
            final(self).wf(),
    {
        let ghost v = self.state();
        self.set_mode(Mode::Normal);
        proof {
            wf_carries_over(v, self.state());
        }
    }

    fn on_key_filter(&mut self, ev: KeyEvent, now: u64)
        requires
            old(self).wf(),
        ensures
            final(self).state() == old(self).state().filter_typed(ev, now),
            final(self).wf(),
    {
        reveal(AppState::filter_typed);
        match ev.code {
            KeyCode::Esc => {
                self.to_normal();
                self.edit_filter(Edit::Clear);
            },
            KeyCode::Enter => self.to_normal(),
            KeyCode::Backspace => self.edit_filter(Edit::Backspace),
            KeyCode::Delete => self.edit_filter(Edit::Delete),
            KeyCode::Left => self.touch_filter(Edit::Left),
            KeyCode::Right => self.touch_filter(Edit::Right),
            KeyCode::Home => self.touch_filter(Edit::Home),
            KeyCode::End => self.touch_filter(Edit::End),
            KeyCode::Up => self.move_cursor(-1, now),
            KeyCode::Down => self.move_cursor(1, now),
            KeyCode::Char(c) => if !ev.ctrl {
                self.edit_filter(Edit::Insert(c));
            } else if c == 'u' {
                self.edit_filter(Edit::Clear);
            },
            _ => {},
        }
    }

    /// Rank every command against the palette query.
    ///
    /// A hit in the command's *name* always outranks one that only appears in
    /// its description.
    pub fn palette_matches(&self) -> (out: Vec<usize>)
        ensures
            out@ == palette_for(self.state().palette_input.value),
            forall|k: int| 0 <= k < out.len() ==> #[trigger] out@[k] < COMMAND_COUNT,
    {
        reveal(part);
        palette_lines(&self.palette_input.value)
    }

    fn close_palette(&mut self)
        requires
            old(self).wf(),
        ensures
            final(self).state() == (AppState {
                palette_input: blank(),
                palette_cursor: 0,
                mode: Mode::Normal,
                ..old(self).state()
            }),
            final(self).wf(),
    {
        let ghost v = self.state();
        self.reset_palette();
        self.set_mode(Mode::Normal);
        proof {
            wf_carries_over(v, self.state());
        }
    }

    /// Close the palette and carry out a line of the table.
    pub fn run_line(&mut self, line: usize, now: u64)
        requires
            old(self).wf(),
            line < COMMAND_COUNT,
        ensures
            final(self).state() == (AppState {
                palette_input: blank(),
                palette_cursor: 0,
                mode: Mode::Normal,
                ..old(self).state()
            }).ran(command_table()[line as int], now),
            final(self).wf(),
    {
        self.close_palette();
        self.run(command_at(line), now);
    }

    fn choose_line(&mut self, now: u64)
        requires
            old(self).wf(),
        ensures
            final(self).state() == old(self).state().palette_chosen(now),
            final(self).wf(),
    {
        reveal(AppState::palette_chosen);
        let lines = self.palette_matches();
        let cursor: usize = self.palette_cursor;
        if cursor < lines.len() {
            self.run_line(lines[cursor], now);
        } else {
            self.close_palette();
        }
    }

    /// Leave the palette without choosing anything.
    pub fn leave_palette(&mut self)
        requires
            old(self).wf(),
        ensures
            final(self).state() == old(self).state().palette_left_alone(),
            final(self).wf(),
    {
        reveal(AppState::palette_left_alone);
        let ghost v = self.state();
        self.clear_palette();
        self.set_mode(Mode::Normal);
        proof {
            wf_carries_over(v, self.state());
        }
    }

    fn move_in_palette(&mut self, down: bool)
        requires
            old(self).wf(),
        ensures
            final(self).state() == old(self).state().palette_moved(down),
            final(self).wf(),
    {
        reveal(AppState::palette_moved);
        let ghost v = self.state();
        let len: usize = self.palette_matches().len();
        let cursor: usize = self.palette_cursor;
        if !down {
            self.set_palette_cursor(
                if cursor > 0 {
                    cursor - 1
                } else {
                    0
                },
            );
        } else if len > 0 {
            self.set_palette_cursor(
                if cursor < len - 1 {
                    cursor + 1
                } else {
                    len - 1
                },
            );
        }
        proof {
            wf_carries_over(v, self.state());
        }
    }

    fn change_query(&mut self, edit: Edit)
        requires
            old(self).wf(),
        ensures
            final(self).state() == old(self).state().query_edited(edit),
            final(self).wf(),
    {
        reveal(AppState::query_edited);
        let ghost v = self.state();
        self.edit_query(edit);
        self.set_palette_cursor(0);
        proof {
            wf_carries_over(v, self.state());
        }
    }

    fn touch_query(&mut self, edit: Edit)
        requires
            old(self).wf(),
        ensures
            final(self).state() == old(self).state().query_touched(edit),
            final(self).wf(),
    {
        reveal(AppState::query_touched);
        let ghost v = self.state();
        self.edit_query(edit);
        proof {
            wf_carries_over(v, self.state());
        }
    }

    fn on_key_palette(&mut self, ev: KeyEvent, now: u64)
        requires
            old(self).wf(),
        ensures
            final(self).state() == old(self).state().palette_typed(ev, now),
            final(self).wf(),
    {
        reveal(AppState::palette_typed);
        match ev.code {
            KeyCode::Esc => self.leave_palette(),
            KeyCode::Enter => self.choose_line(now),
            KeyCode::Up => self.move_in_palette(false),
            KeyCode::Down => self.move_in_palette(true),
            KeyCode::Backspace => self.change_query(Edit::Backspace),
            KeyCode::Left => self.touch_query(Edit::Left),
            KeyCode::Right => self.touch_query(Edit::Right),
            KeyCode::Char(c) => if !ev.ctrl {
                self.change_query(Edit::Insert(c));
            } else if c == 'u' {
                self.change_query(Edit::Clear);
            },
            _ => {},
        }
    }

    fn turn_answer(&mut self)
        requires
            old(self).wf(),
        ensures
            final(self).state() == (AppState {
                confirm_accept: !old(self).state().confirm_accept,
                ..old(self).state()
            }),
            final(self).wf(),
    {
        let ghost v = self.state();
        let accept = !self.confirm_accept;
        self.set_confirm_accept(accept);
        proof {
            wf_carries_over(v, self.state());
        }
    }

    fn on_key_confirm(&mut self, ev: KeyEvent)
        requires
            old(self).wf(),
        ensures
            final(self).state() == old(self).state().confirm_typed(ev),
            final(self).wf(),
    {
        reveal(AppState::confirm_typed);
        match ev.code {
            KeyCode::Left | KeyCode::Right | KeyCode::Tab | KeyCode::BackTab
            | KeyCode::Char('h') | KeyCode::Char('l') => self.turn_answer(),
            KeyCode::Enter => if self.confirm_accept {
                self.accept_confirm();
            } else {
                self.cancel_confirm();
            },
            KeyCode::Char('y') | KeyCode::Char('Y') => self.accept_confirm(),
            KeyCode::Char('n') | KeyCode::Char('N') | KeyCode::Esc => self.cancel_confirm(),
            _ => {},
        }
    }

    /// Ask for a new frame.
    pub fn wake(&mut self)
        requires
            old(self).wf(),
        ensures
            final(self).state() == old(self).state().woken(),
            final(self).wf(),
    {
        reveal(AppState::woken);
        let ghost v = self.state();
        self.mark_dirty();
        proof {
            wf_carries_over(v, self.state());
        }
    }

    /// Take a key press.
    pub fn on_key(&mut self, ev: KeyEvent, now: u64)
        requires
            old(self).wf(),
        ensures
            final(self).state() == old(self).state().typed(ev, now),
            final(self).wf(),
    {
        reveal(AppState::typed);
        if ev.kind != KeyEventKind::Press {
            return;
        }
        let mode = self.mode;
        self.wake();
        match mode {
            Mode::Filter => self.on_key_filter(ev, now),
            Mode::Palette => self.on_key_palette(ev, now),
            Mode::Confirm => self.on_key_confirm(ev),
            Mode::Help => self.to_normal(),
            Mode::Normal => match resolve(&ev) {
                Some(cmd) => self.run(cmd, now),
                None => {},
            },
        }
    }
}

} // verus!
