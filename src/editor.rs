use crate::error::EditError;
use crate::file_buffer::{splits_into_lines, strings_view, FileBuffer};
use vstd::prelude::*;

verus! {

/// A position on screen: column `x` within the row, row `y` within the
/// visible window.
#[derive(Clone, Copy, Debug, PartialEq, Eq, Structural)]
pub struct Cursor {
    pub x: u16,
    pub y: u16,
}

impl Cursor {
    /// Moves the cursor to the top left corner.
    pub fn reset(&mut self)
        ensures
            final(self).x == 0,
            final(self).y == 0,
    {
        self.x = 0;
        self.y = 0;
    }
}

/// The abstract state of an editor: the cursor as stored, the viewport's
/// size, the file's rows and path, and the window `[start, end)` of rows on
/// screen.
pub struct EditorState {
    pub cursor: Cursor,
    pub width: u16,
    pub height: u16,
    pub rows: Seq<Seq<char>>,
    pub path: Seq<char>,
    pub start: int,
    pub end: int,
}

/// The smaller of two integers.
pub open spec fn min_of(a: int, b: int) -> int {
    if a <= b {
        a
    } else {
        b
    }
}

/// A column `x` held to the last column of a row of `len` characters, and
/// to column 0 on an empty row.
pub open spec fn clamp_column(x: int, len: int) -> int {
    if len == 0 {
        0
    } else {
        min_of(x, len - 1)
    }
}

impl EditorState {
    /// The window lies within the rows and fits the viewport, and the
    /// cursor's row lies within the viewport (at its top where the viewport
    /// has no rows).
    pub open spec fn inv(&self) -> bool {
        &&& 0 <= self.start <= self.end <= self.rows.len()
        &&& self.end - self.start <= self.height
        &&& self.height > 0 ==> self.cursor.y < self.height
        &&& self.height == 0 ==> self.cursor.y == 0
    }

    /// Whether a row stands at the cursor's absolute row.
    pub open spec fn on_row(&self) -> bool {
        self.cursor_row() < self.rows.len()
    }

    /// The absolute row under the cursor.
    pub open spec fn cursor_row(&self) -> int {
        self.start + self.cursor.y
    }

    /// The length of the row under the cursor; 0 where there is none.
    pub open spec fn row_len(&self) -> int {
        if self.on_row() {
            self.rows[self.cursor_row()].len() as int
        } else {
            0
        }
    }

    /// The cursor's column as it is read: held to the row's last column.
    pub open spec fn read_x(&self) -> int {
        clamp_column(self.cursor.x as int, self.row_len())
    }
}

/// Whatever motion commands have run, while the window shows a row: the
/// cursor's row lies within the viewport, its column as read lies within
/// the row under it, and the window fits the viewport.
pub proof fn lemma_cursor_invariants(s: EditorState)
    requires
        s.inv(),
        s.height > 0,
        s.on_row(),
    ensures
        0 <= s.cursor.y < s.height,
        0 <= s.read_x() <= s.row_len(),
        s.end - s.start <= s.height,
{
}

/// The cursor and viewport over one file's buffer.
pub struct Editor {
    cursor: Cursor,
    width: u16,
    height: u16,
    file_buffer: FileBuffer,
    index_start: usize,
    index_end: usize,
}

impl View for Editor {
    type V = EditorState;

    closed spec fn view(&self) -> EditorState {
        EditorState {
            cursor: self.cursor,
            width: self.width,
            height: self.height,
            rows: self.file_buffer@,
            path: self.file_buffer.path(),
            start: self.index_start as int,
            end: self.index_end as int,
        }
    }
}

impl Editor {
    pub closed spec fn wf(&self) -> bool {
        self.file_buffer.wf() && self@.inv()
    }

    /// A well-formed editor's state meets the state invariant.
    pub proof fn lemma_wf_inv(&self)
        requires
            self.wf(),
        ensures
            self@.inv(),
    {
    }

    /// An editor with no file loaded and a viewport of size zero.
    pub fn new() -> (r: Self)
        ensures
            r.wf(),
            r@.inv(),
            r@ == (EditorState {
                cursor: Cursor { x: 0, y: 0 },
                width: 0,
                height: 0,
                rows: Seq::empty(),
                path: Seq::empty(),
                start: 0,
                end: 0,
            }),
    {
        Editor {
            cursor: Cursor { x: 0, y: 0 },
            width: 0,
            height: 0,
            file_buffer: FileBuffer::new(),
            index_start: 0,
            index_end: 0,
        }
    }

    /// The length of the row under the cursor; 0 where there is none.
    pub fn row_len(&self) -> (r: usize)
        requires
            self.wf(),
        ensures
            r == self@.row_len(),
    {
        if (self.cursor.y as usize) < self.file_buffer.len() - self.index_start {
            self.file_buffer.len_at(self.index_start + self.cursor.y as usize)
        } else {
            0
        }
    }

    /// The cursor as it is read: its column held to the row's last column
    /// (column 0 on an empty row), its row within the window.
    pub fn get_cursor(&self) -> (r: Cursor)
        requires
            self.wf(),
        ensures
            r.x == self@.read_x(),
            r.y == self@.cursor.y,
    {
        let len = self.row_len();
        let x = if len == 0 {
            0
        } else if (self.cursor.x as usize) < len - 1 {
            self.cursor.x
        } else {
            (len - 1) as u16
        };
        Cursor { x, y: self.cursor.y }
    }
    /// Loads `contents`, the outcome of reading the file at `path`. On an
    /// error nothing changes and the error is returned. Otherwise the rows
    /// become the lines of the text, the cursor goes to the top left and
    /// the window to the first rows that fit the viewport.
    pub fn load_file(&mut self, path: &str, contents: Result<String, EditError>) -> (r: Result<
        (),
        EditError,
    >)
        requires
            old(self).wf(),
        ensures
            final(self).wf(),
            final(self)@.inv(),
            contents is Err ==> r == Err::<(), EditError>(contents->Err_0) && final(self)@ == old(self)@,
            contents is Ok ==> {
                &&& r is Ok
                &&& splits_into_lines(contents->Ok_0@, final(self)@.rows)
                &&& final(self)@ == (EditorState {
                    cursor: Cursor { x: 0, y: 0 },
                    rows: final(self)@.rows,
                    path: path@,
                    start: 0,
                    end: min_of(old(self)@.height as int, final(self)@.rows.len() as int),
                    ..old(self)@
                })
            },
    {
        match contents {
            Err(e) => Err(e),
            Ok(text) => {
                self.file_buffer.load(path, text.as_str());
                self.cursor.reset();
                self.index_start = 0;
                let rows = self.file_buffer.len();
                self.index_end = if (self.height as usize) < rows {
                    self.height as usize
                } else {
                    rows
                };
                Ok(())
            },
        }
    }

    /// The texts of the rows in the window, in order.
    pub fn get_text(&self) -> (r: Vec<String>)
        requires
            self.wf(),
        ensures
            strings_view(r@) == self@.rows.subrange(self@.start, self@.end),
    {
        match self.file_buffer.get_strings_between(self.index_start, self.index_end) {
            Ok(v) => v,
            Err(_) => Vec::new(),
        }
    }

    /// Sets the viewport's size. Where it changes, the window goes back to
    /// the first rows that fit and the cursor to the top left; otherwise
    /// nothing changes.
    pub fn set_editor_size(&mut self, width: u16, height: u16)
        requires
            old(self).wf(),
        ensures
            final(self).wf(),
            final(self)@.inv(),
            width == old(self)@.width && height == old(self)@.height ==> final(self)@ == old(
                self,
            )@,
            width != old(self)@.width || height != old(self)@.height ==> final(self)@ == (
            EditorState {
                cursor: Cursor { x: 0, y: 0 },
                width,
                height,
                start: 0,
                end: min_of(height as int, old(self)@.rows.len() as int),
                ..old(self)@
            }),
    {
        if self.width != width || self.height != height {
            self.width = width;
            self.height = height;
            self.index_start = 0;
            let rows = self.file_buffer.len();
            self.index_end = if (height as usize) < rows {
                height as usize
            } else {
                rows
            };
            self.cursor.reset();
        }
    }

    /// Moves the cursor up one row. At the top of the window, with rows
    /// above it, the window slides up by one row instead.
    pub fn cursor_up(&mut self)
        requires
            old(self).wf(),
        ensures
            final(self).wf(),
            final(self)@.inv(),
            old(self)@.cursor.y == 0 && old(self)@.start > 0 ==> final(self)@ == (EditorState {
                start: old(self)@.start - 1,
                end: old(self)@.end - 1,
                ..old(self)@
            }),
            old(self)@.cursor.y == 0 && old(self)@.start == 0 ==> final(self)@ == old(self)@,
            old(self)@.cursor.y > 0 ==> final(self)@ == (EditorState {
                cursor: Cursor { y: (old(self)@.cursor.y - 1) as u16, ..old(self)@.cursor },
                ..old(self)@
            }),
    {
        if self.cursor.y == 0 && self.index_start > 0 {
            self.index_start = self.index_start - 1;
            self.index_end = self.index_end - 1;
        }
        if self.cursor.y > 0 {
            self.cursor.y = self.cursor.y - 1;
        }
    }

    /// Moves the cursor down one row, up to the viewport's last row. On that
    /// row, with rows below the window, the window slides down by one row
    /// instead. Below the file's last row no row stands under the cursor.
    pub fn cursor_down(&mut self)
        requires
            old(self).wf(),
        ensures
            final(self).wf(),
            final(self)@.inv(),
            ({
                let o = old(self)@;
                if o.height > 0 && o.cursor.y == o.height - 1 && o.end < o.rows.len() {
                    final(self)@ == (EditorState { start: o.start + 1, end: o.end + 1, ..o })
                } else if o.height > 0 && o.cursor.y + 1 < o.height {
                    final(self)@ == (EditorState {
                        cursor: Cursor { y: (o.cursor.y + 1) as u16, ..o.cursor },
                        ..o
                    })
                } else {
                    final(self)@ == o
                }
            }),
    {
        let rows = self.file_buffer.len();
        if self.height > 0 && self.cursor.y == self.height - 1 && self.index_end < rows {
            self.index_start = self.index_start + 1;
            self.index_end = self.index_end + 1;
        } else if self.height > 0 && self.cursor.y < self.height - 1 {
            self.cursor.y = self.cursor.y + 1;
        }
    }

    /// Moves the cursor one column left of where it is read, where that is
    /// not column 0.
    pub fn cursor_left(&mut self)
        requires
            old(self).wf(),
        ensures
            final(self).wf(),
            final(self)@.inv(),
            old(self)@.read_x() > 0 ==> final(self)@ == (EditorState {
                cursor: Cursor { x: (old(self)@.read_x() - 1) as u16, ..old(self)@.cursor },
                ..old(self)@
            }),
            old(self)@.read_x() == 0 ==> final(self)@ == old(self)@,
    {
        let cursor = self.get_cursor();
        if cursor.x > 0 {
            self.cursor.x = cursor.x - 1;
        }
    }

    /// Moves the cursor one column right, up to the row's length.
    pub fn cursor_right(&mut self)
        requires
            old(self).wf(),
        ensures
            final(self).wf(),
            final(self)@.inv(),
            old(self)@.cursor.x < old(self)@.row_len() && old(self)@.cursor.x < u16::MAX
                ==> final(self)@ == (EditorState {
                cursor: Cursor { x: (old(self)@.cursor.x + 1) as u16, ..old(self)@.cursor },
                ..old(self)@
            }),
            !(old(self)@.cursor.x < old(self)@.row_len() && old(self)@.cursor.x < u16::MAX)
                ==> final(self)@ == old(self)@,
    {
        let len = self.row_len();
        if (self.cursor.x as usize) < len && self.cursor.x < u16::MAX {
            self.cursor.x = self.cursor.x + 1;
        }
    }

    /// Inserts `ch` in the row under the cursor at the column where the
    /// cursor is read, and moves the cursor right past it. Fails with
    /// `OutOfBounds`, changing nothing, where no row stands at the cursor
    /// (the file has no rows).
    pub fn insert_at_cursor(&mut self, ch: char) -> (r: Result<(), EditError>)
        requires
            old(self).wf(),
            old(self)@.row_len() < usize::MAX,
        ensures
            final(self).wf(),
            final(self)@.inv(),
            r is Ok <==> old(self)@.on_row(),
            r is Err ==> r == Err::<(), EditError>(EditError::OutOfBounds) && final(self)@
                == old(self)@,
            r is Ok ==> final(self)@ == (EditorState {
                cursor: Cursor {
                    x: (if old(self)@.read_x() < u16::MAX {
                        old(self)@.read_x() + 1
                    } else {
                        old(self)@.read_x()
                    }) as u16,
                    ..old(self)@.cursor
                },
                rows: old(self)@.rows.update(
                    old(self)@.cursor_row(),
                    old(self)@.rows[old(self)@.cursor_row()].insert(old(self)@.read_x(), ch),
                ),
                ..old(self)@
            }),
    {
        if (self.cursor.y as usize) >= self.file_buffer.len() - self.index_start {
            return Err(EditError::OutOfBounds);
        }
        let cursor = self.get_cursor();
        let row = self.index_start + cursor.y as usize;
        let r = self.file_buffer.insert_at(row, cursor.x as usize, ch);
        self.cursor.x = cursor.x;
        self.cursor_right();
        r
    }

    /// Removes the character left of where the cursor is read, and moves
    /// the cursor onto its place. At column 0 nothing changes.
    pub fn delete_at_cursor(&mut self)
        requires
            old(self).wf(),
        ensures
            final(self).wf(),
            final(self)@.inv(),
            old(self)@.read_x() == 0 ==> final(self)@ == old(self)@,
            old(self)@.read_x() > 0 ==> final(self)@ == (EditorState {
                cursor: Cursor { x: (old(self)@.read_x() - 1) as u16, ..old(self)@.cursor },
                rows: old(self)@.rows.update(
                    old(self)@.cursor_row(),
                    old(self)@.rows[old(self)@.cursor_row()].remove(old(self)@.read_x() - 1),
                ),
                ..old(self)@
            }),
    {
        let cursor = self.get_cursor();
        if cursor.x > 0 {
            assert(self@.row_len() > 0);
            assert(self@.on_row());
            let rows = self.file_buffer.len();
            assert(self.index_start + cursor.y < rows);
            let row = self.index_start + cursor.y as usize;
            let _ = self.file_buffer.delete_at(row, cursor.x as usize - 1);
            self.cursor.x = cursor.x - 1;
        }
    }

    /// The text that saving writes to the file's path: every row, in order.
    pub fn save_file(&self) -> (r: String)
        requires
            self.wf(),
        ensures
            r@ == self@.rows.flatten(),
    {
        self.file_buffer.contents()
    }

    /// The window of rows on screen, as its first row and the row past its
    /// last.
    pub fn get_window(&self) -> (r: (usize, usize))
        ensures
            r.0 == self@.start,
            r.1 == self@.end,
    {
        (self.index_start, self.index_end)
    }

    /// The path of the loaded file.
    pub fn file_path(&self) -> (r: &String)
        ensures
            r@ == self@.path,
    {
        self.file_buffer.file_path()
    }
}

} // verus!
