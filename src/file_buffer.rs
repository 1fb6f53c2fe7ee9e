use crate::error::EditError;
use crate::line_buffer::LineBuffer;
use crate::text::{chars_of, push_chars};
use vstd::prelude::*;

verus! {

/// `line` is one line of a file: not empty, with a line terminator at most
/// as its last character.
pub open spec fn is_line(line: Seq<char>) -> bool {
    &&& line.len() > 0
    &&& forall|i: int| 0 <= i < line.len() - 1 ==> line[i] != '\n'
}

/// `rows` are the lines of `text`: joined in order they give `text`, and
/// every row but the last ends with a line terminator.
pub open spec fn splits_into_lines(text: Seq<char>, rows: Seq<Seq<char>>) -> bool {
    &&& rows.flatten() == text
    &&& forall|i: int| 0 <= i < rows.len() ==> is_line(#[trigger] rows[i])
    &&& forall|i: int| 0 <= i < rows.len() - 1 ==> (#[trigger] rows[i]).last() == '\n'
}

/// The texts of a run of lines.
pub open spec fn lines_view(lines: Seq<LineBuffer>) -> Seq<Seq<char>> {
    lines.map_values(|l: LineBuffer| l@)
}

/// The texts of a run of strings.
pub open spec fn strings_view(strings: Seq<String>) -> Seq<Seq<char>> {
    strings.map_values(|s: String| s@)
}

/// `r` is what reading rows `i` to `j` (`j` excluded) of `rows` gives:
/// their texts where `i <= j <= rows.len()`, `OutOfBounds` otherwise.
pub open spec fn window_result(
    rows: Seq<Seq<char>>,
    i: int,
    j: int,
    r: Result<Vec<String>, EditError>,
) -> bool {
    if 0 <= i <= j <= rows.len() {
        r is Ok && strings_view(r->Ok_0@) == rows.subrange(i, j)
    } else {
        r == Err::<Vec<String>, EditError>(EditError::OutOfBounds)
    }
}

/// Loading a text and persisting the rows with no edit between gives the
/// text back: where `loaded` is a buffer as `load` leaves it for `text`, and
/// `persisted` is what `contents` returns for it, the two texts are equal.
pub proof fn lemma_load_then_persist(text: Seq<char>, loaded: FileBuffer, persisted: Seq<char>)
    requires
        splits_into_lines(text, loaded@),
        persisted == loaded@.flatten(),
    ensures
        persisted == text,
{
}

/// Reading the same rows twice with no change between gives the same texts.
pub proof fn lemma_window_reads_agree(
    rows: Seq<Seq<char>>,
    i: int,
    j: int,
    first: Result<Vec<String>, EditError>,
    second: Result<Vec<String>, EditError>,
)
    requires
        window_result(rows, i, j, first),
        window_result(rows, i, j, second),
    ensures
        first is Ok <==> second is Ok,
        first is Ok ==> strings_view(first->Ok_0@) == strings_view(second->Ok_0@),
        first is Err ==> first == second,
{
}

/// The lines of one open file, in row order, and the file's path.
pub struct FileBuffer {
    file_path: String,
    buffer: Vec<LineBuffer>,
}

impl View for FileBuffer {
    type V = Seq<Seq<char>>;

    closed spec fn view(&self) -> Seq<Seq<char>> {
        lines_view(self.buffer@)
    }
}

impl FileBuffer {
    pub closed spec fn wf(&self) -> bool {
        forall|i: int| 0 <= i < self.buffer@.len() ==> (#[trigger] self.buffer@[i]).wf()
    }

    /// The path the lines were loaded from.
    pub closed spec fn path(&self) -> Seq<char> {
        self.file_path@
    }

    /// A buffer with no lines and an empty path.
    pub fn new() -> (r: Self)
        ensures
            r.wf(),
            r@ == Seq::<Seq<char>>::empty(),
            r.path() == Seq::<char>::empty(),
    {
        let r = FileBuffer { file_path: String::new(), buffer: Vec::new() };
        assert(r@ =~= Seq::<Seq<char>>::empty());
        r
    }

    /// Replaces the lines with those of `text`, the contents of the file at
    /// `path`: each line keeps its terminator, and a last line without one
    /// is kept as it is.
    pub fn load(&mut self, path: &str, text: &str)
        ensures
            final(self).wf(),
            splits_into_lines(text@, final(self)@),
            final(self).path() == path@,
    {
        let chars = chars_of(text);
        let mut rows: Vec<LineBuffer> = Vec::new();
        let mut line: Vec<char> = Vec::new();
        let mut i: usize = 0;
        while i < chars.len()
            invariant
                i <= chars@.len(),
                chars@ == text@,
                forall|k: int| 0 <= k < rows@.len() ==> (#[trigger] rows@[k]).wf(),
                lines_view(rows@).flatten() + line@ == chars@.subrange(0, i as int),
                forall|k: int|
                    0 <= k < rows@.len() ==> is_line(#[trigger] lines_view(rows@)[k])
                        && lines_view(rows@)[k].last() == '\n',
                forall|k: int| 0 <= k < line@.len() ==> line@[k] != '\n',
            decreases chars.len() - i,
        {
            let c = chars[i];
            let ghost before = lines_view(rows@);
            let ghost old_line = line@;
            line.push(c);
            assert(chars@.subrange(0, i + 1) =~= chars@.subrange(0, i as int).push(c));
            assert(before.flatten() + line@ =~= chars@.subrange(0, i + 1));
            if c == '\n' {
                let l = LineBuffer::from_chars(line);
                rows.push(l);
                proof {
                    assert(lines_view(rows@) =~= before.push(l@));
                    before.lemma_flatten_push(l@);
                }
                line = Vec::new();
            }
            i += 1;
        }
        if line.len() > 0 {
            let ghost before = lines_view(rows@);
            let l = LineBuffer::from_chars(line);
            rows.push(l);
            proof {
                assert(lines_view(rows@) =~= before.push(l@));
                before.lemma_flatten_push(l@);
            }
        }
        assert(chars@.subrange(0, i as int) =~= chars@);
        self.buffer = rows;
        self.file_path = path.to_owned();
    }

    /// The texts of rows `i` to `j`, `j` excluded. Fails with
    /// `OutOfBounds` where `j` exceeds the number of rows or `i` exceeds `j`.
    pub fn get_strings_between(&self, i: usize, j: usize) -> (r: Result<Vec<String>, EditError>)
        requires
            self.wf(),
        ensures
            window_result(self@, i as int, j as int, r),
    {
        if j > self.buffer.len() || i > j {
            return Err(EditError::OutOfBounds);
        }
        let mut vs: Vec<String> = Vec::new();
        let mut u: usize = i;
        while u < j
            invariant
                self.wf(),
                i <= u <= j <= self.buffer@.len(),
                strings_view(vs@) == self@.subrange(i as int, u as int),
            decreases j - u,
        {
            let s = self.buffer[u].to_string();
            let ghost before = strings_view(vs@);
            vs.push(s);
            u += 1;
            assert(strings_view(vs@) =~= before.push(s@));
            assert(strings_view(vs@) =~= self@.subrange(i as int, u as int));
        }
        Ok(vs)
    }

    /// The number of characters in row `i`.
    pub fn len_at(&self, i: usize) -> (r: usize)
        requires
            self.wf(),
            i < self@.len(),
        ensures
            r == self@[i as int].len(),
    {
        self.buffer[i].len()
    }

    /// The number of rows.
    pub fn len(&self) -> (r: usize)
        ensures
            r == self@.len(),
    {
        self.buffer.len()
    }

    /// Inserts `ch` in row `y` at column `x`. Fails with `OutOfBounds`,
    /// changing nothing, where there is no row `y` or `x` exceeds its length.
    pub fn insert_at(&mut self, y: usize, x: usize, ch: char) -> (r: Result<(), EditError>)
        requires
            old(self).wf(),
            y < old(self)@.len() ==> old(self)@[y as int].len() < usize::MAX,
        ensures
            final(self).wf(),
            final(self).path() == old(self).path(),
            r is Ok <==> y < old(self)@.len() && x <= old(self)@[y as int].len(),
            r is Ok ==> final(self)@ == old(self)@.update(
                y as int,
                old(self)@[y as int].insert(x as int, ch),
            ),
            r is Err ==> r == Err::<(), EditError>(EditError::OutOfBounds) && final(self)@
                == old(self)@,
    {
        if y >= self.buffer.len() {
            return Err(EditError::OutOfBounds);
        }
        let ghost before = self.buffer@;
        let r = self.buffer[y].insert(x, ch);
        assert(self@ =~= lines_view(before).update(y as int, self.buffer@[y as int]@));
        r
    }

    /// Removes the character of row `y` at column `x`. Fails with
    /// `OutOfBounds`, changing nothing, where there is no such character.
    pub fn delete_at(&mut self, y: usize, x: usize) -> (r: Result<(), EditError>)
        requires
            old(self).wf(),
        ensures
            final(self).wf(),
            final(self).path() == old(self).path(),
            r is Ok <==> y < old(self)@.len() && x < old(self)@[y as int].len(),
            r is Ok ==> final(self)@ == old(self)@.update(
                y as int,
                old(self)@[y as int].remove(x as int),
            ),
            r is Err ==> r == Err::<(), EditError>(EditError::OutOfBounds) && final(self)@
                == old(self)@,
    {
        if y >= self.buffer.len() {
            return Err(EditError::OutOfBounds);
        }
        let ghost before = self.buffer@;
        let r = self.buffer[y].remove(x);
        assert(self@ =~= lines_view(before).update(y as int, self.buffer@[y as int]@));
        r
    }

    /// The text to persist: every row, in order.
    pub fn contents(&self) -> (r: String)
        requires
            self.wf(),
        ensures
            r@ == self@.flatten(),
    {
        let mut out = String::new();
        let mut k: usize = 0;
        while k < self.buffer.len()
            invariant
                self.wf(),
                k <= self@.len(),
                out@ == self@.subrange(0, k as int).flatten(),
            decreases self@.len() - k,
        {
            let chars = self.buffer[k].chars();
            push_chars(&mut out, &chars);
            proof {
                assert(self@.subrange(0, k + 1) =~= self@.subrange(0, k as int).push(self@[k as int]));
                self@.subrange(0, k as int).lemma_flatten_push(self@[k as int]);
            }
            k += 1;
        }
        assert(self@.subrange(0, k as int) =~= self@);
        out
    }

    /// The path the lines were loaded from.
    pub fn file_path(&self) -> (r: &String)
        ensures
            r@ == self.path(),
    {
        &self.file_path
    }
}

} // verus!
