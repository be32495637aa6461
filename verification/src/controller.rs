use vstd::prelude::*;
use crate::store::{OutOfRange, TodoList, toggled, with_char, without_last_char};

verus! {

/// The controller's mode: navigating the list, about to create an entry,
/// or editing the entry under the cursor. There is no terminal mode; the
/// session ends on the quit key, whatever the mode.
#[derive(Clone, Copy, PartialEq, Eq, Structural, Debug)]
pub enum Mode {
    Navigate,
    Create,
    Edit,
}

/// A key event as the controller sees it. What a character key means
/// depends on the mode: in `Navigate` a few characters are commands,
/// in `Edit` every character is text input.
#[derive(Clone, Copy, PartialEq, Eq, Structural, Debug)]
pub enum Key {
    Char(char),
    Backspace,
    Enter,
    Esc,
    Other,
}

/// What the caller must do after one handled event: move the cursor to
/// `row` and redraw, or end the session when `quit` is set.
#[derive(Clone, Copy, PartialEq, Eq, Structural, Debug)]
pub struct StepResult {
    pub row: usize,
    pub quit: bool,
}

/// A cursor row addresses the item whose index is the row minus the
/// number of header rows above the first item row.
pub open spec fn row_index(row: usize, header: usize) -> int {
    row - header
}

/// Whether a cursor row addresses an item of a list of length `len`.
pub open spec fn row_in_bounds(row: usize, header: usize, len: nat) -> bool {
    header <= row && row - header < len
}

/// The mode after one event of the transition table. Entering `Edit` by
/// the edit key is rejected when the cursor is on a non-item row.
pub open spec fn mode_after(mode: Mode, key: Key, row: usize, header: usize, len: nat) -> Mode {
    match mode {
        Mode::Navigate => match key {
            Key::Char(c) => if c == 'c' {
                Mode::Edit
            } else if c == 'e' && row_in_bounds(row, header, len) {
                Mode::Edit
            } else {
                Mode::Navigate
            },
            _ => Mode::Navigate,
        },
        Mode::Create => Mode::Edit,
        Mode::Edit => match key {
            Key::Enter => Mode::Navigate,
            Key::Esc => Mode::Navigate,
            _ => Mode::Edit,
        },
    }
}

/// The items after one event of the transition table. A mutating key
/// whose cursor row addresses no item is rejected silently.
pub open spec fn items_after(
    mode: Mode,
    key: Key,
    row: usize,
    header: usize,
    s: Seq<(Seq<char>, bool)>,
) -> Seq<(Seq<char>, bool)> {
    match mode {
        Mode::Navigate => match key {
            Key::Char(c) => if c == 'c' {
                s.push((Seq::empty(), false))
            } else if c == 'x' && row_in_bounds(row, header, s.len()) {
                s.remove(row_index(row, header))
            } else if c == 't' && row_in_bounds(row, header, s.len()) {
                toggled(s, row_index(row, header))
            } else {
                s
            },
            _ => s,
        },
        Mode::Create => s.push(("new todo"@, false)),
        Mode::Edit => match key {
            Key::Char(c) => if row_in_bounds(row, header, s.len()) {
                with_char(s, row_index(row, header), c)
            } else {
                s
            },
            Key::Backspace => if row_in_bounds(row, header, s.len()) {
                without_last_char(s, row_index(row, header))
            } else {
                s
            },
            _ => s,
        },
    }
}

/// The cursor row after one event of the transition table: up and down
/// movement clamps at the first and last item row, and a created entry
/// puts the cursor on its own, new row.
pub open spec fn row_after(mode: Mode, key: Key, row: usize, header: usize, len: nat) -> int {
    match mode {
        Mode::Navigate => match key {
            Key::Char(c) => if c == 'k' {
                if row <= header {
                    header as int
                } else {
                    row - 1
                }
            } else if c == 'j' {
                if len == 0 {
                    row as int
                } else if row + 1 >= header + len {
                    header + len - 1
                } else {
                    row + 1
                }
            } else if c == 'c' {
                header + len
            } else {
                row as int
            },
            _ => row as int,
        },
        Mode::Create => header + len,
        Mode::Edit => row as int,
    }
}

/// Map a cursor row to a list index: valid exactly when the row lies on
/// an item row, in which case the index is the row minus the header rows.
pub fn row_to_index(row: usize, header: usize, len: usize) -> (r: Result<usize, OutOfRange>)
    ensures
        row_in_bounds(row, header, len as nat) ==> r == Ok::<usize, OutOfRange>(
            (row - header) as usize,
        ),
        !row_in_bounds(row, header, len as nat) ==> r == Err::<usize, OutOfRange>(OutOfRange),
{
    if row >= header && row - header < len {
        Ok(row - header)
    } else {
        Err(OutOfRange)
    }
}

/// The interaction controller: the current mode, and the fixed number of
/// header rows above the first item row.
pub struct Controller {
    pub mode: Mode,
    pub header: usize,
}

impl Controller {
    /// A controller starts out navigating.
    pub fn new(header: usize) -> (c: Controller)
        ensures
            c.mode == Mode::Navigate,
            c.header == header,
    {
        Controller { mode: Mode::Navigate, header }
    }

    /// One step of the per-mode transition table, without the quit
    /// override; the new cursor row is returned.
    pub fn dispatch(&mut self, key: Key, row: usize, list: &mut TodoList) -> (new_row: usize)
        requires
            old(self).header + old(list)@.len() <= usize::MAX,
        ensures
            final(self).header == old(self).header,
            final(self).mode == mode_after(
                old(self).mode,
                key,
                row,
                old(self).header,
                old(list)@.len(),
            ),
            final(list)@ == items_after(old(self).mode, key, row, old(self).header, old(list)@),
            new_row == row_after(old(self).mode, key, row, old(self).header, old(list)@.len()),
    {
        let header = self.header;
        match self.mode {
            Mode::Navigate => match key {
                Key::Char(c) => {
                    if c == 'k' {
                        if row <= header {
                            header
                        } else {
                            row - 1
                        }
                    } else if c == 'j' {
                        let len = list.len();
                        if len == 0 {
                            row
                        } else if row >= header + len - 1 {
                            header + len - 1
                        } else {
                            row + 1
                        }
                    } else if c == 'c' {
                        let i = list.add(String::new());
                        self.mode = Mode::Edit;
                        header + i
                    } else if c == 'x' {
                        match row_to_index(row, header, list.len()) {
                            Ok(i) => {
                                let _ = list.remove(i);
                            },
                            Err(_) => {},
                        }
                        row
                    } else if c == 'e' {
                        if row_to_index(row, header, list.len()).is_ok() {
                            self.mode = Mode::Edit;
                        }
                        row
                    } else if c == 't' {
                        match row_to_index(row, header, list.len()) {
                            Ok(i) => {
                                let _ = list.toggle(i);
                            },
                            Err(_) => {},
                        }
                        row
                    } else {
                        row
                    }
                },
                _ => row,
            },
            Mode::Create => {
                let i = list.add("new todo".to_owned());
                self.mode = Mode::Edit;
                header + i
            },
            Mode::Edit => match key {
                Key::Char(c) => {
                    match row_to_index(row, header, list.len()) {
                        Ok(i) => {
                            let _ = list.append_char(i, c);
                        },
                        Err(_) => {},
                    }
                    row
                },
                Key::Backspace => {
                    match row_to_index(row, header, list.len()) {
                        Ok(i) => {
                            let _ = list.pop_char(i);
                        },
                        Err(_) => {},
                    }
                    row
                },
                Key::Enter => {
                    self.mode = Mode::Navigate;
                    row
                },
                Key::Esc => {
                    self.mode = Mode::Navigate;
                    row
                },
                Key::Other => row,
            },
        }
    }

    /// Handle one input event. The quit key ends the session whatever the
    /// mode and changes nothing; every other event goes through the
    /// transition table, and the cursor row to restore is returned.
    pub fn handle_event(&mut self, key: Key, row: usize, list: &mut TodoList) -> (res: StepResult)
        requires
            old(self).header + old(list)@.len() <= usize::MAX,
        ensures
            res.quit == (key is Esc),
            key is Esc ==> *final(self) == *old(self) && final(list)@ == old(list)@ && res.row
                == row,
            !(key is Esc) ==> final(self).header == old(self).header && final(self).mode
                == mode_after(old(self).mode, key, row, old(self).header, old(list)@.len())
                && final(list)@ == items_after(
                old(self).mode,
                key,
                row,
                old(self).header,
                old(list)@,
            ) && res.row == row_after(
                old(self).mode,
                key,
                row,
                old(self).header,
                old(list)@.len(),
            ),
    {
        match key {
            Key::Esc => StepResult { row, quit: true },
            _ => {
                let new_row = self.dispatch(key, row, list);
                StepResult { row: new_row, quit: false }
            },
        }
    }
}

} // verus!
