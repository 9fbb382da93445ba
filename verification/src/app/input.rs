//! A one-line text field.

use vstd::prelude::*;

use crate::text::{chars_of, string_of};

verus! {

/// A one-line text field with a cursor. Small enough not to warrant a crate.
#[derive(Debug, Clone)]
pub struct Input {
    pub value: String,
    /// Cursor position in *characters*, not bytes.
    pub cursor: usize,
}

/// The mathematical value of an [`Input`].
pub struct InputView {
    pub value: Seq<char>,
    pub cursor: nat,
}

impl DeepView for Input {
    type V = InputView;

    open spec fn deep_view(&self) -> InputView {
        InputView { value: self.value@, cursor: self.cursor as nat }
    }
}

/// The empty field.
pub open spec fn blank() -> InputView {
    InputView { value: Seq::empty(), cursor: 0 }
}

/// The position after `n`, as far as there is one.
pub open spec fn after(n: nat) -> nat {
    if n < usize::MAX {
        n + 1
    } else {
        n
    }
}

/// Something done to a field.
#[derive(Debug, Clone, Copy, PartialEq, Eq, Structural)]
pub enum Edit {
    Insert(char),
    Backspace,
    Delete,
    Left,
    Right,
    Home,
    End,
    Clear,
}

impl InputView {
    /// The field after an edit.
    #[verifier::opaque]
    pub open spec fn edited(self, edit: Edit) -> InputView {
        match edit {
            Edit::Insert(c) => self.inserted(c),
            Edit::Backspace => self.backspaced(),
            Edit::Delete => self.deleted(),
            Edit::Left => self.lefted(),
            Edit::Right => self.righted(),
            Edit::Home => InputView { cursor: 0, ..self },
            Edit::End => InputView { cursor: self.value.len(), ..self },
            Edit::Clear => blank(),
        }
    }

    /// Where typing happens.
    pub open spec fn point(self) -> int {
        if self.cursor <= self.value.len() {
            self.cursor as int
        } else {
            self.value.len() as int
        }
    }

    /// `c` typed at the cursor.
    pub open spec fn inserted(self, c: char) -> InputView {
        InputView { value: self.value.insert(self.point(), c), cursor: after(self.cursor) }
    }

    /// The character before the cursor taken out.
    pub open spec fn backspaced(self) -> InputView {
        if self.cursor == 0 {
            self
        } else if self.cursor <= self.value.len() {
            InputView {
                value: self.value.remove(self.cursor - 1),
                cursor: (self.cursor - 1) as nat,
            }
        } else {
            InputView { cursor: (self.cursor - 1) as nat, ..self }
        }
    }

    /// The character at the cursor taken out.
    pub open spec fn deleted(self) -> InputView {
        if self.cursor < self.value.len() {
            InputView { value: self.value.remove(self.cursor as int), ..self }
        } else {
            self
        }
    }

    /// The cursor one to the left.
    pub open spec fn lefted(self) -> InputView {
        if self.cursor == 0 {
            self
        } else {
            InputView { cursor: (self.cursor - 1) as nat, ..self }
        }
    }

    /// The cursor one to the right, or at the end.
    pub open spec fn righted(self) -> InputView {
        InputView {
            cursor: if self.cursor < self.value.len() {
                self.cursor + 1
            } else {
                self.value.len()
            },
            ..self
        }
    }
}

impl Default for Input {
    fn default() -> (out: Input)
        ensures
            out.deep_view() == blank(),
    {
        let out = Input { value: String::new(), cursor: 0 };
        assert(out.value@ =~= Seq::<char>::empty());
        out
    }
}

impl Input {
    /// Type `c` at the cursor.
    pub fn insert(&mut self, c: char)
        ensures
            final(self).deep_view() == old(self).deep_view().inserted(c),
    {
        let mut v = chars_of(&self.value);
        let at: usize = if self.cursor <= v.len() {
            self.cursor
        } else {
            v.len()
        };
        v.insert(at, c);
        self.value = string_of(&v);
        if self.cursor < usize::MAX {
            self.cursor += 1;
        }
    }

    /// Take out the character before the cursor.
    pub fn backspace(&mut self)
        ensures
            final(self).deep_view() == old(self).deep_view().backspaced(),
    {
        if self.cursor == 0 {
            return;
        }
        let mut v = chars_of(&self.value);
        if self.cursor <= v.len() {
            let _ = v.remove(self.cursor - 1);
            self.value = string_of(&v);
        }
        self.cursor -= 1;
    }

    /// Take out the character at the cursor.
    pub fn delete(&mut self)
        ensures
            final(self).deep_view() == old(self).deep_view().deleted(),
    {
        let mut v = chars_of(&self.value);
        if self.cursor < v.len() {
            let _ = v.remove(self.cursor);
            self.value = string_of(&v);
        }
    }

    /// Move the cursor one to the left.
    pub fn left(&mut self)
        ensures
            final(self).deep_view() == old(self).deep_view().lefted(),
    {
        if self.cursor > 0 {
            self.cursor -= 1;
        }
    }

    /// Move the cursor one to the right, or to the end.
    pub fn right(&mut self)
        ensures
            final(self).deep_view() == old(self).deep_view().righted(),
    {
        let len = chars_of(&self.value).len();
        self.cursor = if self.cursor < len {
            self.cursor + 1
        } else {
            len
        };
    }

    /// Move the cursor to the start.
    pub fn home(&mut self)
        ensures
            final(self).deep_view() == (InputView { cursor: 0, ..old(self).deep_view() }),
    {
        self.cursor = 0;
    }

    /// Move the cursor to the end.
    pub fn end(&mut self)
        ensures
            final(self).deep_view() == (InputView {
                cursor: old(self).value@.len(),
                ..old(self).deep_view()
            }),
    {
        self.cursor = chars_of(&self.value).len();
    }

    /// Edit the field.
    pub fn apply(&mut self, edit: Edit)
        ensures
            final(self).deep_view() == old(self).deep_view().edited(edit),
    {
        reveal(InputView::edited);
        match edit {
            Edit::Insert(c) => self.insert(c),
            Edit::Backspace => self.backspace(),
            Edit::Delete => self.delete(),
            Edit::Left => self.left(),
            Edit::Right => self.right(),
            Edit::Home => self.home(),
            Edit::End => self.end(),
            Edit::Clear => self.clear(),
        }
    }

    /// Empty the field.
    pub fn clear(&mut self)
        ensures
            final(self).deep_view() == blank(),
    {
        self.value = String::new();
        self.cursor = 0;
        assert(self.value@ =~= Seq::<char>::empty());
    }

    /// Whether nothing is typed.
    pub fn is_empty(&self) -> (out: bool)
        ensures
            out == (self.value@.len() == 0),
    {
        self.value.as_str().is_empty()
    }
}

/// However a field is edited, the cursor stays within the text.
pub proof fn the_cursor_stays_in_the_text(i: InputView, c: char)
    requires
        i.cursor <= i.value.len() < usize::MAX,
    ensures
        i.inserted(c).cursor <= i.inserted(c).value.len(),
        i.backspaced().cursor <= i.backspaced().value.len(),
        i.deleted().cursor <= i.deleted().value.len(),
        i.lefted().cursor <= i.lefted().value.len(),
        i.righted().cursor <= i.righted().value.len(),
{
}

/// Backspace undoes typing.
pub proof fn backspace_undoes_typing(i: InputView, c: char)
    requires
        i.cursor <= i.value.len() < usize::MAX,
    ensures
        i.inserted(c).backspaced() == i,
{
    assert(i.value.insert(i.point(), c).remove(i.point()) =~= i.value);
}

/// Moving left and deleting is the same as backspace.
pub proof fn backspace_is_left_and_delete(i: InputView)
    requires
        0 < i.cursor <= i.value.len(),
    ensures
        i.lefted().deleted() == i.backspaced(),
{
}

/// A character is typed at the cursor, between what lies before it and what lies behind,
/// and the cursor goes behind it. The delete key takes out what the cursor is on, and the
/// other keys only move the cursor: by one, or to either end.
pub proof fn editing_happens_at_the_cursor(i: InputView, c: char)
    requires
        i.cursor <= i.value.len(),
        i.value.len() < usize::MAX,
    ensures
        i.edited(Edit::Insert(c)).value == i.value.take(i.cursor as int) + seq![c] + i.value.skip(
            i.cursor as int,
        ),
        i.edited(Edit::Insert(c)).cursor == i.cursor + 1,
        i.cursor < i.value.len() ==> i.edited(Edit::Delete).value == i.value.take(i.cursor as int)
            + i.value.skip(i.cursor as int + 1) && i.edited(Edit::Delete).cursor == i.cursor,
        i.cursor > 0 ==> i.edited(Edit::Backspace).value == i.value.take(i.cursor as int - 1)
            + i.value.skip(i.cursor as int) && i.edited(Edit::Backspace).cursor == i.cursor - 1,
        i.edited(Edit::Home).value == i.value && i.edited(Edit::Home).cursor == 0,
        i.edited(Edit::End).value == i.value && i.edited(Edit::End).cursor == i.value.len(),
        i.edited(Edit::Left).value == i.value && i.edited(Edit::Right).value == i.value,
        i.cursor > 0 ==> i.edited(Edit::Left).cursor == i.cursor - 1,
        i.cursor < i.value.len() ==> i.edited(Edit::Right).cursor == i.cursor + 1,
        i.edited(Edit::Clear).value.len() == 0 && i.edited(Edit::Clear).cursor == 0,
{
    reveal(InputView::edited);
}

} // verus!
