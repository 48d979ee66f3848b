//! The text buffer itself: an ordered sequence of rows, a cursor, and the
//! transition function that applies one editing action.

use vstd::prelude::*;

verus! {

/// A discrete, atomic unit of user intent applied to the buffer. This is the
/// only mutation surface of the core: the presentation layer decodes raw
/// input events into these values and hands them to [`Backend::action`].
pub enum Action {
    Insert(char),
    Delete,
    Up,
    Down,
    Left,
    Right,
    Home,
    End,
    PageUp,
    PageDown,
    Escape,
    Enter,
    Backspace,
}

/// The mathematical model of a buffer: the rows as character sequences, in
/// document order, and the cursor coordinates. `col` counts characters, not
/// bytes, so it is meaningful for any row content.
#[verifier::ext_equal]
pub ghost struct BufferModel {
    pub lines: Seq<Seq<char>>,
    pub row: nat,
    pub col: nat,
}

/// The buffer invariant: there is always at least one row (an empty document
/// is one empty row, never zero rows), the cursor row points at a row, and
/// the cursor column lies within that row, end inclusive.
pub open spec fn buffer_wf(m: BufferModel) -> bool {
    &&& m.lines.len() >= 1
    &&& m.row < m.lines.len()
    &&& m.col <= m.lines[m.row as int].len()
}

/// The model of a freshly created buffer: one empty row, cursor at the
/// origin.
pub open spec fn init_buffer() -> BufferModel {
    BufferModel { lines: seq![Seq::empty()], row: 0, col: 0 }
}

/// The control characters (the two control ranges of the character set) that
/// `Insert` swallows unless they are tab or newline.
pub open spec fn is_control_char(c: char) -> bool {
    (c as u32) < 32 || (127 <= (c as u32) && (c as u32) <= 159)
}

/// The smaller of a column and a row length: where a vertical move lands the
/// cursor past the end of its new row, the column is clamped to that end.
pub open spec fn clamped_col(col: nat, line_len: nat) -> nat {
    if col <= line_len {
        col
    } else {
        line_len
    }
}

/// Splitting the current row at the cursor: the suffix becomes a new row
/// immediately below, and the cursor moves to the start of that new row.
/// This is what `Enter` does, and what `Insert` of a newline redirects to.
pub open spec fn line_split(m: BufferModel) -> BufferModel {
    let line = m.lines[m.row as int];
    BufferModel {
        lines: m.lines.update(m.row as int, line.take(m.col as int)).insert(
            m.row as int + 1,
            line.skip(m.col as int),
        ),
        row: m.row + 1,
        col: 0,
    }
}

/// The transition function of the buffer: the state reached from `m` by one
/// action. Every action is total over well-formed states; edge cases
/// saturate or leave the state unchanged rather than fail.
pub open spec fn apply_action(m: BufferModel, a: Action) -> BufferModel {
    match a {
        Action::Insert(c) => {
            if is_control_char(c) && c != '\t' && c != '\n' {
                m
            } else if c == '\n' {
                line_split(m)
            } else {
                BufferModel {
                    lines: m.lines.update(
                        m.row as int,
                        m.lines[m.row as int].insert(m.col as int, c),
                    ),
                    row: m.row,
                    col: m.col + 1,
                }
            }
        },
        Action::Delete => {
            let line = m.lines[m.row as int];
            if m.col < line.len() {
                BufferModel {
                    lines: m.lines.update(m.row as int, line.remove(m.col as int)),
                    row: m.row,
                    col: m.col,
                }
            } else if m.row + 1 < m.lines.len() {
                BufferModel {
                    lines: m.lines.update(m.row as int, line + m.lines[m.row as int + 1]).remove(
                        m.row as int + 1,
                    ),
                    row: m.row,
                    col: m.col,
                }
            } else {
                m
            }
        },
        Action::Up => {
            let row = if m.row > 0 {
                (m.row - 1) as nat
            } else {
                0
            };
            BufferModel {
                lines: m.lines,
                row,
                col: clamped_col(m.col, m.lines[row as int].len()),
            }
        },
        Action::Down => {
            let row = if m.row + 1 < m.lines.len() {
                m.row + 1
            } else {
                m.row
            };
            BufferModel {
                lines: m.lines,
                row,
                col: clamped_col(m.col, m.lines[row as int].len()),
            }
        },
        Action::Left => {
            BufferModel {
                lines: m.lines,
                row: m.row,
                col: if m.col > 0 {
                    (m.col - 1) as nat
                } else {
                    0
                },
            }
        },
        Action::Right => {
            if m.col < m.lines[m.row as int].len() {
                BufferModel { lines: m.lines, row: m.row, col: m.col + 1 }
            } else if m.row + 1 < m.lines.len() {
                BufferModel { lines: m.lines, row: m.row + 1, col: 0 }
            } else {
                m
            }
        },
        Action::Home => BufferModel { lines: m.lines, row: m.row, col: 0 },
        Action::End => {
            BufferModel { lines: m.lines, row: m.row, col: m.lines[m.row as int].len() }
        },
        Action::PageUp => BufferModel { lines: m.lines, row: 0, col: 0 },
        Action::PageDown => {
            BufferModel {
                lines: m.lines,
                row: (m.lines.len() - 1) as nat,
                col: m.lines[m.lines.len() - 1].len(),
            }
        },
        // Reserved: no behavior is specified for Escape, so it is a
        // deliberate no-op.
        Action::Escape => m,
        Action::Enter => line_split(m),
        Action::Backspace => {
            if m.col > 0 {
                BufferModel {
                    lines: m.lines.update(
                        m.row as int,
                        m.lines[m.row as int].remove(m.col as int - 1),
                    ),
                    row: m.row,
                    col: (m.col - 1) as nat,
                }
            } else if m.row > 0 {
                BufferModel {
                    lines: m.lines.update(
                        m.row as int - 1,
                        m.lines[m.row as int - 1] + m.lines[m.row as int],
                    ).remove(m.row as int),
                    row: (m.row - 1) as nat,
                    col: m.lines[m.row as int - 1].len(),
                }
            } else {
                m
            }
        },
    }
}

/// The full document as one character sequence: the rows joined with a
/// newline separator, in row order.
pub open spec fn joined(lines: Seq<Seq<char>>) -> Seq<char>
    decreases lines.len(),
{
    if lines.len() == 0 {
        Seq::empty()
    } else if lines.len() == 1 {
        lines[0]
    } else {
        joined(lines.drop_last()) + seq!['\n'] + lines.last()
    }
}

/// Relies on String::push of std, which appends the given character to the
/// end of the string.
pub assume_specification[ String::push ](s: &mut String, c: char)
    ensures
        final(s)@ == old(s)@.push(c),
;

/// The editable text buffer: rows of characters plus a cursor. Created with
/// one empty row and the cursor at the origin, and mutated only through
/// [`Backend::action`], which keeps the buffer well formed after every call.
#[derive(Debug)]
pub struct Backend {
    lines: Vec<Vec<char>>,
    cursor_row: usize,
    cursor_column: usize,
}

impl View for Backend {
    type V = BufferModel;

    closed spec fn view(&self) -> BufferModel {
        BufferModel {
            lines: self.lines@.map_values(|line: Vec<char>| line@),
            row: self.cursor_row as nat,
            col: self.cursor_column as nat,
        }
    }
}

impl Backend {
    /// The buffer's invariant, seen through its model.
    pub open spec fn wf(&self) -> bool {
        buffer_wf(self@)
    }
}

impl Default for Backend {
    /// A fresh buffer: one empty row, cursor at the origin.
    fn default() -> (r: Backend)
        ensures
            r.wf(),
            r@ == init_buffer(),
    {
        let mut lines: Vec<Vec<char>> = Vec::new();
        lines.push(Vec::new());
        let r = Backend { lines, cursor_row: 0, cursor_column: 0 };
        proof {
            assert(r@.lines =~= init_buffer().lines);
            assert(r@ =~= init_buffer());
        }
        r
    }
}

impl Backend {
    /// Splits the current row at the cursor; the suffix becomes the row
    /// below, and the cursor moves to the start of that row.
    fn split_current_line(&mut self)
        requires
            old(self).wf(),
        ensures
            final(self).wf(),
            final(self)@ == line_split(old(self)@),
    {
        // Reading the length gives the prover the machine bound on the row
        // index, so the row increment below cannot overflow.
        let _row_count = self.lines.len();
        let mut line = self.lines.remove(self.cursor_row);
        let rest = line.split_off(self.cursor_column);
        self.lines.insert(self.cursor_row, line);
        self.lines.insert(self.cursor_row + 1, rest);
        self.cursor_row += 1;
        self.cursor_column = 0;
        proof {
            assert(self@.lines =~= line_split(old(self)@).lines);
            assert(self@ =~= line_split(old(self)@));
        }
    }

    /// Applies one editing action to the buffer, in place. Every action is
    /// total: edge cases saturate or leave the state unchanged, and no action
    /// fails. The new state is exactly [`apply_action`] of the old one.
    pub fn action(&mut self, action: Action)
        requires
            old(self).wf(),
        ensures
            final(self).wf(),
            final(self)@ == apply_action(old(self)@, action),
    {
        match action {
            Action::Insert(c) => {
                let code = c as u32;
                if (code < 32 || (127 <= code && code <= 159)) && c != '\t' && c != '\n' {
                    // A control character other than tab or newline is
                    // swallowed: a deliberate content filter, not an error.
                } else if c == '\n' {
                    self.split_current_line();
                } else {
                    let mut line = self.lines.remove(self.cursor_row);
                    line.insert(self.cursor_column, c);
                    // Reading the length gives the prover the machine bound
                    // on the column, so its increment cannot overflow.
                    let _line_len = line.len();
                    self.lines.insert(self.cursor_row, line);
                    self.cursor_column += 1;
                    proof {
                        assert(self@.lines =~= apply_action(old(self)@, action).lines);
                    }
                }
            },
            Action::Delete => {
                let line_len = self.lines[self.cursor_row].len();
                if self.cursor_column < line_len {
                    let mut line = self.lines.remove(self.cursor_row);
                    line.remove(self.cursor_column);
                    self.lines.insert(self.cursor_row, line);
                    proof {
                        assert(self@.lines =~= apply_action(old(self)@, action).lines);
                    }
                } else if self.cursor_row < self.lines.len() - 1 {
                    let mut next = self.lines.remove(self.cursor_row + 1);
                    let mut line = self.lines.remove(self.cursor_row);
                    line.append(&mut next);
                    self.lines.insert(self.cursor_row, line);
                    proof {
                        assert(self@.lines =~= apply_action(old(self)@, action).lines);
                    }
                }
            },
            Action::Up => {
                if self.cursor_row > 0 {
                    self.cursor_row -= 1;
                }
                let line_len = self.lines[self.cursor_row].len();
                if self.cursor_column > line_len {
                    self.cursor_column = line_len;
                }
            },
            Action::Down => {
                if self.cursor_row < self.lines.len() - 1 {
                    self.cursor_row += 1;
                }
                let line_len = self.lines[self.cursor_row].len();
                if self.cursor_column > line_len {
                    self.cursor_column = line_len;
                }
            },
            Action::Left => {
                if self.cursor_column > 0 {
                    self.cursor_column -= 1;
                }
            },
            Action::Right => {
                let line_len = self.lines[self.cursor_row].len();
                if self.cursor_column < line_len {
                    self.cursor_column += 1;
                } else if self.cursor_row < self.lines.len() - 1 {
                    self.cursor_row += 1;
                    self.cursor_column = 0;
                }
            },
            Action::Home => {
                self.cursor_column = 0;
            },
            Action::End => {
                self.cursor_column = self.lines[self.cursor_row].len();
            },
            Action::PageUp => {
                self.cursor_row = 0;
                self.cursor_column = 0;
            },
            Action::PageDown => {
                self.cursor_row = self.lines.len() - 1;
                self.cursor_column = self.lines[self.cursor_row].len();
            },
            Action::Escape => {
                // Reserved: no behavior is specified for Escape, so it is a
                // deliberate no-op.
            },
            Action::Enter => {
                self.split_current_line();
            },
            Action::Backspace => {
                if self.cursor_column > 0 {
                    let mut line = self.lines.remove(self.cursor_row);
                    line.remove(self.cursor_column - 1);
                    self.lines.insert(self.cursor_row, line);
                    self.cursor_column -= 1;
                    proof {
                        assert(self@.lines =~= apply_action(old(self)@, action).lines);
                    }
                } else if self.cursor_row > 0 {
                    let removed_line = self.lines.remove(self.cursor_row);
                    self.cursor_row -= 1;
                    let mut destination_line = self.lines.remove(self.cursor_row);
                    self.cursor_column = destination_line.len();
                    let mut removed_line = removed_line;
                    destination_line.append(&mut removed_line);
                    self.lines.insert(self.cursor_row, destination_line);
                    proof {
                        assert(self@.lines =~= apply_action(old(self)@, action).lines);
                    }
                }
            },
        }
        proof {
            assert(self@ =~= apply_action(old(self)@, action));
        }
    }

    /// The full document as one string: the rows joined with a newline
    /// separator, in row order. Read-only: the buffer is unchanged.
    pub fn content(&self) -> (r: String)
        ensures
            r@ == joined(self@.lines),
    {
        let mut r = String::new();
        let row_count = self.lines.len();
        let mut i: usize = 0;
        while i < row_count
            invariant
                row_count == self.lines@.len(),
                i <= row_count,
                r@ == joined(self@.lines.take(i as int)),
            decreases row_count - i,
        {
            if i > 0 {
                r.push('\n');
            }
            let line_len = self.lines[i].len();
            let ghost sep: Seq<char> = if i > 0 {
                seq!['\n']
            } else {
                Seq::empty()
            };
            let mut j: usize = 0;
            while j < line_len
                invariant
                    row_count == self.lines@.len(),
                    i < row_count,
                    line_len == self@.lines[i as int].len(),
                    j <= line_len,
                    r@ == joined(self@.lines.take(i as int)) + sep + self@.lines[i as int].take(
                        j as int,
                    ),
                decreases line_len - j,
            {
                let c = self.lines[i][j];
                r.push(c);
                proof {
                    assert(self@.lines[i as int].take(j + 1) =~= self@.lines[i as int].take(
                        j as int,
                    ).push(c));
                }
                j += 1;
            }
            proof {
                assert(self@.lines[i as int].take(line_len as int) =~= self@.lines[i as int]);
                if i == 0 {
                    assert(r@ =~= joined(self@.lines.take(i + 1)));
                } else {
                    assert(self@.lines.take(i + 1).drop_last() =~= self@.lines.take(i as int));
                    assert(r@ =~= joined(self@.lines.take(i + 1)));
                }
            }
            i += 1;
        }
        proof {
            assert(self@.lines.take(row_count as int) =~= self@.lines);
        }
        r
    }

    /// The cursor as (row, column), for the caller to place a caret.
    pub fn get_cursor_position(&self) -> (p: (usize, usize))
        ensures
            p.0 == self@.row,
            p.1 == self@.col,
    {
        (self.cursor_row, self.cursor_column)
    }
}

} // verus!
