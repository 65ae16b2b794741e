//! A single editable text buffer with a cursor: the building block of forms.
//!
//! A [`TextField`] holds one or more lines of text and a cursor position.
//! It supports insertion, deletion and cursor movement, bulk initialization
//! from an existing string (for edit forms) and bulk extraction back to a
//! newline-joined string (for submission). Invalid events are no-ops; no
//! operation here can fail.

use vstd::prelude::*;
use vstd::string::*;

use crate::keys::KeyEvent;

verus! {

/// The abstract value of a [`TextField`]: its lines and its cursor.
#[verifier::ext_equal]
pub struct FieldView {
    pub lines: Seq<Seq<char>>,
    pub row: int,
    pub col: int,
}

impl FieldView {
    /// A field always holds at least one line, the cursor always sits on a
    /// line, at a position between 0 and that line's length inclusive.
    pub open spec fn wf(self) -> bool {
        &&& self.lines.len() >= 1
        &&& 0 <= self.row < self.lines.len()
        &&& 0 <= self.col <= self.lines[self.row].len()
    }

    /// The buffer content as one string: the lines joined by newlines.
    pub open spec fn text(self) -> Seq<char> {
        join_lines(self.lines)
    }
}

/// The lines of a buffer joined by `'\n'`.
pub open spec fn join_lines(lines: Seq<Seq<char>>) -> Seq<char>
    decreases lines.len(),
{
    if lines.len() == 0 {
        Seq::empty()
    } else if lines.len() == 1 {
        lines[0]
    } else {
        lines[0] + seq!['\n'] + join_lines(lines.subrange(1, lines.len() as int))
    }
}

/// Joining grows one line at a time: appending a line appends a separator
/// (when something precedes it) and then the line.
pub proof fn lemma_join_lines_push(lines: Seq<Seq<char>>, line: Seq<char>)
    ensures
        join_lines(lines.push(line)) == if lines.len() == 0 {
            line
        } else {
            join_lines(lines) + seq!['\n'] + line
        },
    decreases lines.len(),
{
    if lines.len() == 0 {
        assert(lines.push(line) =~= seq![line]);
        assert(join_lines(seq![line]) == line);
    } else {
        let pushed = lines.push(line);
        let tail = lines.subrange(1, lines.len() as int);
        assert(pushed.subrange(1, pushed.len() as int) =~= tail.push(line));
        lemma_join_lines_push(tail, line);
        if lines.len() == 1 {
            assert(join_lines(lines) == lines[0]);
            assert(join_lines(pushed) =~= lines[0] + seq!['\n'] + line);
        } else {
            assert(join_lines(pushed) == lines[0] + seq!['\n'] + (join_lines(tail) + seq!['\n']
                + line));
            assert(lines[0] + seq!['\n'] + (join_lines(tail) + seq!['\n'] + line) =~= (lines[0]
                + seq!['\n'] + join_lines(tail)) + seq!['\n'] + line);
        }
    }
}

/// What one key press does to a field: the transition function of the editor.
///
/// Printable characters are inserted at the cursor; `Enter` splits the
/// current line; `Backspace` and `Delete` remove the character before or
/// under the cursor, joining adjacent lines at line boundaries; the movement
/// keys move the cursor and clamp it to the line they land on. Every other
/// key leaves the field unchanged.
pub open spec fn field_step(f: FieldView, key: KeyEvent) -> FieldView {
    let line = f.lines[f.row];
    match key {
        KeyEvent::Char(c) => FieldView {
            lines: f.lines.update(f.row, line.insert(f.col, c)),
            col: f.col + 1,
            ..f
        },
        KeyEvent::Enter => FieldView {
            lines: f.lines.subrange(0, f.row).push(line.subrange(0, f.col)).push(
                line.subrange(f.col, line.len() as int),
            ) + f.lines.subrange(f.row + 1, f.lines.len() as int),
            row: f.row + 1,
            col: 0,
        },
        KeyEvent::Backspace => if f.col > 0 {
            FieldView { lines: f.lines.update(f.row, line.remove(f.col - 1)), col: f.col - 1, ..f }
        } else if f.row > 0 {
            FieldView {
                lines: f.lines.subrange(0, f.row - 1).push(f.lines[f.row - 1] + line)
                    + f.lines.subrange(f.row + 1, f.lines.len() as int),
                row: f.row - 1,
                col: f.lines[f.row - 1].len() as int,
            }
        } else {
            f
        },
        KeyEvent::Delete => if f.col < line.len() {
            FieldView { lines: f.lines.update(f.row, line.remove(f.col)), ..f }
        } else if f.row + 1 < f.lines.len() {
            FieldView {
                lines: f.lines.subrange(0, f.row).push(line + f.lines[f.row + 1])
                    + f.lines.subrange(f.row + 2, f.lines.len() as int),
                ..f
            }
        } else {
            f
        },
        KeyEvent::Left => if f.col > 0 {
            FieldView { col: f.col - 1, ..f }
        } else {
            f
        },
        KeyEvent::Right => if f.col < line.len() {
            FieldView { col: f.col + 1, ..f }
        } else {
            f
        },
        KeyEvent::Home => FieldView { col: 0, ..f },
        KeyEvent::End => FieldView { col: line.len() as int, ..f },
        KeyEvent::Up => if f.row > 0 {
            FieldView {
                row: f.row - 1,
                col: if f.col <= f.lines[f.row - 1].len() {
                    f.col
                } else {
                    f.lines[f.row - 1].len() as int
                },
                ..f
            }
        } else {
            f
        },
        KeyEvent::Down => if f.row + 1 < f.lines.len() {
            FieldView {
                row: f.row + 1,
                col: if f.col <= f.lines[f.row + 1].len() {
                    f.col
                } else {
                    f.lines[f.row + 1].len() as int
                },
                ..f
            }
        } else {
            f
        },
        _ => f,
    }
}

/// Editing a well-formed field leaves it well-formed, whatever the key.
pub proof fn lemma_field_step_wf(f: FieldView, key: KeyEvent)
    requires
        f.wf(),
    ensures
        field_step(f, key).wf(),
{
}

/// One editable text buffer with a cursor.
pub struct TextField {
    lines: Vec<Vec<char>>,
    cursor_row: usize,
    cursor_col: usize,
}

impl View for TextField {
    type V = FieldView;

    closed spec fn view(&self) -> FieldView {
        FieldView {
            lines: self.lines@.map_values(|l: Vec<char>| l@),
            row: self.cursor_row as int,
            col: self.cursor_col as int,
        }
    }
}

/// Relies on `String::push`: appends the given character to the end of the
/// string.
#[verifier::external_body]
fn push_char(s: &mut String, c: char)
    ensures
        final(s)@ == old(s)@.push(c),
{
    s.push(c);
}

impl TextField {
    /// An empty field: one empty line, cursor at its start.
    pub fn new() -> (r: TextField)
        ensures
            r@.wf(),
            r@.lines == seq![Seq::<char>::empty()],
            r@.row == 0,
            r@.col == 0,
    {
        let lines: Vec<Vec<char>> = vec![Vec::new()];
        let r = TextField { lines, cursor_row: 0, cursor_col: 0 };
        proof {
            assert(r@.lines =~= seq![Seq::<char>::empty()]);
        }
        r
    }

    /// A field pre-filled with an existing string, held as a single line,
    /// with the cursor placed at its end.
    pub fn initialize(text: &str) -> (r: TextField)
        ensures
            r@.wf(),
            r@.lines == seq![text@],
            r@.row == 0,
            r@.col == text@.len(),
    {
        let n = text.unicode_len();
        let mut chars: Vec<char> = Vec::new();
        let mut i: usize = 0;
        while i < n
            invariant
                i <= n,
                n == text@.len(),
                chars@ == text@.subrange(0, i as int),
            decreases n - i,
        {
            chars.push(text.get_char(i));
            proof {
                assert(chars@ =~= text@.subrange(0, i + 1 as int));
            }
            i += 1;
        }
        proof {
            assert(chars@ =~= text@);
        }
        let cursor_col = chars.len();
        let lines: Vec<Vec<char>> = vec![chars];
        let r = TextField { lines, cursor_row: 0, cursor_col };
        proof {
            assert(r@.lines =~= seq![text@]);
        }
        r
    }

    /// Applies one key press to the buffer, as [`field_step`] describes.
    pub fn apply_input(&mut self, key: KeyEvent)
        requires
            old(self)@.wf(),
        ensures
            final(self)@.wf(),
            final(self)@ == field_step(old(self)@, key),
    {
        proof {
            lemma_field_step_wf(old(self)@, key);
        }
        let ghost pre = self@;
        let row = self.cursor_row;
        let col = self.cursor_col;
        let n = self.lines.len();
        proof {
            assert(self@.lines.len() == self.lines@.len());
            assert(row < n);
        }
        match key {
            KeyEvent::Char(c) => {
                self.lines[row].insert(col, c);
                let new_len = self.lines[row].len();
                proof {
                    assert(col + 1 <= new_len);
                }
                self.cursor_col = col + 1;
                proof {
                    assert(self@.lines =~= field_step(pre, key).lines);
                    assert(self@ =~= field_step(pre, key));
                }
            },
            KeyEvent::Enter => {
                let rest = self.lines[row].split_off(col);
                self.lines.insert(row + 1, rest);
                self.cursor_row = row + 1;
                self.cursor_col = 0;
                proof {
                    assert(self@.lines =~= field_step(pre, key).lines);
                    assert(self@ =~= field_step(pre, key));
                }
            },
            KeyEvent::Backspace => {
                if col > 0 {
                    self.lines[row].remove(col - 1);
                    self.cursor_col = col - 1;
                    proof {
                        assert(self@.lines =~= field_step(pre, key).lines);
                        assert(self@ =~= field_step(pre, key));
                    }
                } else if row > 0 {
                    let mut cur = self.lines.remove(row);
                    let prev_len = self.lines[row - 1].len();
                    self.lines[row - 1].append(&mut cur);
                    self.cursor_row = row - 1;
                    self.cursor_col = prev_len;
                    proof {
                        assert(self@.lines =~= field_step(pre, key).lines);
                        assert(self@ =~= field_step(pre, key));
                    }
                }
            },
            KeyEvent::Delete => {
                if col < self.lines[row].len() {
                    self.lines[row].remove(col);
                    proof {
                        assert(self@.lines =~= field_step(pre, key).lines);
                        assert(self@ =~= field_step(pre, key));
                    }
                } else if row + 1 < self.lines.len() {
                    let mut next = self.lines.remove(row + 1);
                    self.lines[row].append(&mut next);
                    proof {
                        assert(self@.lines =~= field_step(pre, key).lines);
                        assert(self@ =~= field_step(pre, key));
                    }
                }
            },
            KeyEvent::Left => {
                if col > 0 {
                    self.cursor_col = col - 1;
                }
                proof {
                    assert(self@ =~= field_step(pre, key));
                }
            },
            KeyEvent::Right => {
                if col < self.lines[row].len() {
                    self.cursor_col = col + 1;
                }
                proof {
                    assert(self@ =~= field_step(pre, key));
                }
            },
            KeyEvent::Home => {
                self.cursor_col = 0;
                proof {
                    assert(self@ =~= field_step(pre, key));
                }
            },
            KeyEvent::End => {
                self.cursor_col = self.lines[row].len();
                proof {
                    assert(self@ =~= field_step(pre, key));
                }
            },
            KeyEvent::Up => {
                if row > 0 {
                    self.cursor_row = row - 1;
                    let len = self.lines[row - 1].len();
                    if col > len {
                        self.cursor_col = len;
                    }
                }
                proof {
                    assert(self@ =~= field_step(pre, key));
                }
            },
            KeyEvent::Down => {
                if row + 1 < self.lines.len() {
                    self.cursor_row = row + 1;
                    let len = self.lines[row + 1].len();
                    if col > len {
                        self.cursor_col = len;
                    }
                }
                proof {
                    assert(self@ =~= field_step(pre, key));
                }
            },
            _ => {
                proof {
                    assert(self@ =~= field_step(pre, key));
                }
            },
        }
    }

    /// The cursor position: row, then column.
    pub fn cursor(&self) -> (r: (usize, usize))
        ensures
            r.0 == self@.row,
            r.1 == self@.col,
    {
        (self.cursor_row, self.cursor_col)
    }

    /// How many lines the buffer holds.
    pub fn line_count(&self) -> (r: usize)
        ensures
            r == self@.lines.len(),
    {
        self.lines.len()
    }

    /// The content of line `i`.
    pub fn line(&self, i: usize) -> (r: String)
        requires
            i < self@.lines.len(),
        ensures
            r@ == self@.lines[i as int],
    {
        let mut r = String::new();
        let line_len = self.lines[i].len();
        let mut j: usize = 0;
        while j < line_len
            invariant
                j <= line_len,
                i < self.lines@.len(),
                line_len == self@.lines[i as int].len(),
                r@ == self@.lines[i as int].subrange(0, j as int),
            decreases line_len - j,
        {
            push_char(&mut r, self.lines[i][j]);
            proof {
                assert(self@.lines[i as int].subrange(0, j as int).push(
                    self@.lines[i as int][j as int],
                ) =~= self@.lines[i as int].subrange(0, j + 1 as int));
            }
            j += 1;
        }
        proof {
            assert(self@.lines[i as int].subrange(0, line_len as int) =~= self@.lines[i as int]);
        }
        r
    }

    /// Extracts the buffer content: the lines joined by newlines.
    pub fn to_string(&self) -> (r: String)
        ensures
            r@ == self@.text(),
    {
        let mut r = String::new();
        let mut i: usize = 0;
        while i < self.lines.len()
            invariant
                i <= self.lines@.len(),
                r@ == join_lines(self@.lines.subrange(0, i as int)),
            decreases self.lines@.len() - i,
        {
            if i > 0 {
                push_char(&mut r, '\n');
            }
            let line_len = self.lines[i].len();
            let mut j: usize = 0;
            while j < line_len
                invariant
                    j <= line_len,
                    i < self.lines@.len(),
                    line_len == self@.lines[i as int].len(),
                    r@ == join_lines(self@.lines.subrange(0, i as int)) + (if i > 0 {
                        seq!['\n']
                    } else {
                        Seq::<char>::empty()
                    }) + self@.lines[i as int].subrange(0, j as int),
                decreases line_len - j,
            {
                push_char(&mut r, self.lines[i][j]);
                proof {
                    let prefix = join_lines(self@.lines.subrange(0, i as int)) + (if i > 0 {
                        seq!['\n']
                    } else {
                        Seq::<char>::empty()
                    });
                    assert(prefix + self@.lines[i as int].subrange(0, j as int).push(
                        self@.lines[i as int][j as int],
                    ) =~= prefix + self@.lines[i as int].subrange(0, j + 1 as int));
                }
                j += 1;
            }
            proof {
                let pre_lines = self@.lines.subrange(0, i as int);
                lemma_join_lines_push(pre_lines, self@.lines[i as int]);
                assert(pre_lines.push(self@.lines[i as int]) =~= self@.lines.subrange(
                    0,
                    i + 1 as int,
                ));
                assert(self@.lines[i as int].subrange(0, line_len as int) =~= self@.lines[
                    i as int]);
                if i == 0 {
                    assert(join_lines(pre_lines) + Seq::<char>::empty() + self@.lines[i as int]
                        =~= self@.lines[i as int]);
                } else {
                    assert(join_lines(pre_lines) + seq!['\n'] + self@.lines[i as int]
                        == join_lines(self@.lines.subrange(0, i + 1 as int)));
                }
            }
            i += 1;
        }
        proof {
            assert(self@.lines.subrange(0, self.lines@.len() as int) =~= self@.lines);
        }
        r
    }
}

} // verus!
