use crate::file_buffer::strings_view;
use crate::text::{chars_of, push_char};
use vstd::prelude::*;

verus! {

/// Where the line that starts at `pos` ends: just past its terminator, or
/// at the end of the text.
pub open spec fn line_end(text: Seq<char>, pos: int) -> int
    decreases text.len() - pos,
{
    if pos >= text.len() {
        text.len() as int
    } else if text[pos] == '\n' {
        pos + 1
    } else {
        line_end(text, pos + 1)
    }
}

/// Where the line that holds position `k - 1` starts: just past the last
/// terminator before it, or at 0.
pub open spec fn line_start(text: Seq<char>, k: int) -> int
    decreases k,
{
    if k <= 0 {
        0
    } else if text[k - 1] == '\n' {
        k
    } else {
        line_start(text, k - 1)
    }
}

/// Where the line that ends at `pos` starts.
pub open spec fn line_before(text: Seq<char>, pos: int) -> int {
    if pos <= 0 {
        0
    } else {
        line_start(text, pos - 1)
    }
}

/// Up to `n` lines of `text` from `pos` on, in order.
pub open spec fn lines_forward(text: Seq<char>, pos: int, n: int) -> Seq<Seq<char>>
    decreases n,
{
    if n <= 0 || pos < 0 || pos >= text.len() {
        Seq::empty()
    } else {
        seq![text.subrange(pos, line_end(text, pos))] + lines_forward(
            text,
            line_end(text, pos),
            n - 1,
        )
    }
}

/// Where reading `n` lines forward from `pos` stops.
pub open spec fn pos_after_forward(text: Seq<char>, pos: int, n: int) -> int
    decreases n,
{
    if n <= 0 || pos < 0 || pos >= text.len() {
        pos
    } else {
        pos_after_forward(text, line_end(text, pos), n - 1)
    }
}

/// Up to `n` lines of `text` that end at or before `pos`, the nearest
/// ones, in order.
pub open spec fn lines_backward(text: Seq<char>, pos: int, n: int) -> Seq<Seq<char>>
    decreases n,
{
    if n <= 0 || pos <= 0 || pos > text.len() {
        Seq::empty()
    } else {
        lines_backward(text, line_before(text, pos), n - 1).push(
            text.subrange(line_before(text, pos), pos),
        )
    }
}

/// Where reading `n` lines backward from `pos` stops.
pub open spec fn pos_after_backward(text: Seq<char>, pos: int, n: int) -> int
    decreases n,
{
    if n <= 0 || pos <= 0 || pos > text.len() {
        pos
    } else {
        pos_after_backward(text, line_before(text, pos), n - 1)
    }
}

proof fn lemma_line_end_bounds(text: Seq<char>, pos: int)
    requires
        0 <= pos <= text.len(),
    ensures
        pos <= line_end(text, pos) <= text.len(),
        pos < text.len() ==> pos < line_end(text, pos),
    decreases text.len() - pos,
{
    if pos < text.len() && text[pos] != '\n' {
        lemma_line_end_bounds(text, pos + 1);
    }
}

proof fn lemma_line_start_bounds(text: Seq<char>, k: int)
    requires
        0 <= k <= text.len(),
    ensures
        0 <= line_start(text, k) <= k,
    decreases k,
{
    if k > 0 && text[k - 1] != '\n' {
        lemma_line_start_bounds(text, k - 1);
    }
}

/// A reader of the lines of a text, forward and backward from a position.
pub struct FlexReader {
    text: Vec<char>,
    pos: usize,
}

impl FlexReader {
    /// The text read.
    pub closed spec fn text(&self) -> Seq<char> {
        self.text@
    }

    /// The position reached, counted in characters.
    pub closed spec fn pos(&self) -> int {
        self.pos as int
    }

    pub closed spec fn wf(&self) -> bool {
        self.pos <= self.text@.len()
    }

    /// A reader at the start of `text`.
    pub fn from_reader(text: &str) -> (r: Self)
        ensures
            r.wf(),
            r.text() == text@,
            r.pos() == 0,
    {
        FlexReader { text: chars_of(text), pos: 0 }
    }

    /// The characters from `a` to `b`, `b` excluded.
    fn slice(&self, a: usize, b: usize) -> (r: String)
        requires
            a <= b <= self.text@.len(),
        ensures
            r@ == self.text@.subrange(a as int, b as int),
    {
        let mut out = String::new();
        let mut k: usize = a;
        while k < b
            invariant
                a <= k <= b <= self.text@.len(),
                out@ == self.text@.subrange(a as int, k as int),
            decreases b - k,
        {
            push_char(&mut out, self.text[k]);
            k += 1;
            assert(out@ =~= self.text@.subrange(a as int, k as int));
        }
        out
    }

    /// Reads the line at the position, its terminator included, and moves
    /// past it; also gives how many characters were read (0 at the end).
    /// The count is in characters, not bytes, because the reader holds its
    /// text as characters and measures every position in them.
    pub fn read_line(&mut self) -> (r: (String, usize))
        requires
            old(self).wf(),
        ensures
            final(self).wf(),
            final(self).text() == old(self).text(),
            final(self).pos() == line_end(old(self).text(), old(self).pos()),
            r.0@ == old(self).text().subrange(old(self).pos(), final(self).pos()),
            r.1 == final(self).pos() - old(self).pos(),
    {
        let start = self.pos;
        let n = self.text.len();
        let mut k: usize = start;
        proof {
            lemma_line_end_bounds(self.text@, start as int);
        }
        while k < n && self.text[k] != '\n'
            invariant
                start <= k <= n == self.text@.len(),
                line_end(self.text@, start as int) == line_end(self.text@, k as int),
            decreases n - k,
        {
            k += 1;
        }
        if k < n {
            k += 1;
        }
        let s = self.slice(start, k);
        self.pos = k;
        (s, k - start)
    }

    /// Reads up to `limit` lines forward, stopping at the end of the text.
    pub fn read_lines(&mut self, limit: u32) -> (r: Vec<String>)
        requires
            old(self).wf(),
        ensures
            final(self).wf(),
            final(self).text() == old(self).text(),
            strings_view(r@) == lines_forward(
                old(self).text(),
                old(self).pos(),
                limit as int,
            ),
            final(self).pos() == pos_after_forward(old(self).text(), old(self).pos(), limit as int),
    {
        let ghost text = self.text@;
        let ghost first_pos = self.pos as int;
        let mut ss: Vec<String> = Vec::new();
        let mut i: u32 = 0;
        while i < limit
            invariant
                self.wf(),
                self.text@ == text,
                i <= limit,
                strings_view(ss@) + lines_forward(
                    text,
                    self.pos as int,
                    limit - i,
                ) == lines_forward(text, first_pos, limit as int),
                pos_after_forward(text, self.pos as int, limit - i) == pos_after_forward(
                    text,
                    first_pos,
                    limit as int,
                ),
            ensures
                self.wf(),
                self.text@ == text,
                strings_view(ss@) == lines_forward(text, first_pos, limit as int),
                self.pos == pos_after_forward(text, first_pos, limit as int),
            decreases limit - i,
        {
            let ghost before = strings_view(ss@);
            let ghost p = self.pos as int;
            proof {
                lemma_line_end_bounds(text, p);
            }
            let (s, u) = self.read_line();
            if u == 0 {
                proof {
                    assert(lines_forward(text, p, limit - i) =~= Seq::<Seq<char>>::empty());
                    assert(before + Seq::<Seq<char>>::empty() =~= before);
                }
                break ;
            }
            ss.push(s);
            i += 1;
            proof {
                assert(strings_view(ss@) =~= before.push(s@));
                assert(lines_forward(text, p, limit - i + 1) == seq![s@] + lines_forward(
                    text,
                    self.pos as int,
                    limit - i,
                ));
                assert(before.push(s@) + lines_forward(text, self.pos as int, limit - i) =~= before
                    + (seq![s@] + lines_forward(text, self.pos as int, limit - i)));
                if i == limit {
                    assert(strings_view(ss@) + Seq::<Seq<char>>::empty()
                        =~= strings_view(ss@));
                }
            }
        }
        ss
    }
    /// Reads the line that ends at the position, its terminator included,
    /// and moves to its start; also gives how many characters were read (0
    /// at the start of the text), counted in characters as in `read_line`.
    pub fn read_line_backward(&mut self) -> (r: (String, usize))
        requires
            old(self).wf(),
        ensures
            final(self).wf(),
            final(self).text() == old(self).text(),
            final(self).pos() == line_before(old(self).text(), old(self).pos()),
            r.0@ == old(self).text().subrange(final(self).pos(), old(self).pos()),
            r.1 == old(self).pos() - final(self).pos(),
    {
        let end = self.pos;
        let mut k: usize = 0;
        if end > 0 {
            k = end - 1;
            while k > 0 && self.text[k - 1] != '\n'
                invariant
                    0 <= k < end <= self.text@.len(),
                    line_start(self.text@, k as int) == line_start(self.text@, end - 1),
                decreases k,
            {
                k -= 1;
            }
        }
        let s = self.slice(k, end);
        self.pos = k;
        (s, end - k)
    }

    /// Reads up to `limit` lines backward, stopping at the start of the
    /// text, and gives them in the order they stand in the text.
    pub fn read_lines_backward(&mut self, limit: i32) -> (r: Vec<String>)
        requires
            old(self).wf(),
        ensures
            final(self).wf(),
            final(self).text() == old(self).text(),
            strings_view(r@) == lines_backward(
                old(self).text(),
                old(self).pos(),
                limit as int,
            ),
            final(self).pos() == pos_after_backward(old(self).text(), old(self).pos(), limit as int),
    {
        let ghost text = self.text@;
        let ghost first_pos = self.pos as int;
        let mut ss: Vec<String> = Vec::new();
        let mut i: i32 = 0;
        if limit <= 0 {
            proof {
                assert(strings_view(ss@) =~= Seq::<Seq<char>>::empty());
            }
            return ss;
        }
        while i < limit
            invariant
                self.wf(),
                self.text@ == text,
                0 <= i <= limit,
                lines_backward(text, self.pos as int, limit - i) + strings_view(
                    ss@,
                ) == lines_backward(text, first_pos, limit as int),
                pos_after_backward(text, self.pos as int, limit - i) == pos_after_backward(
                    text,
                    first_pos,
                    limit as int,
                ),
            ensures
                self.wf(),
                self.text@ == text,
                strings_view(ss@) == lines_backward(text, first_pos, limit as int),
                self.pos == pos_after_backward(text, first_pos, limit as int),
            decreases limit - i,
        {
            let ghost before = strings_view(ss@);
            let ghost p = self.pos as int;
            proof {
                if p > 0 {
                    lemma_line_start_bounds(text, p - 1);
                }
            }
            let (s, u) = self.read_line_backward();
            if u == 0 {
                proof {
                    assert(lines_backward(text, p, limit - i) =~= Seq::<Seq<char>>::empty());
                    assert(Seq::<Seq<char>>::empty() + before =~= before);
                }
                break ;
            }
            ss.insert(0, s);
            i += 1;
            proof {
                let q = self.pos as int;
                assert(strings_view(ss@) =~= seq![s@] + before);
                assert(lines_backward(text, p, limit - i + 1) == lines_backward(
                    text,
                    q,
                    limit - i,
                ).push(s@));
                assert(lines_backward(text, q, limit - i).push(s@) + before =~= lines_backward(
                    text,
                    q,
                    limit - i,
                ) + (seq![s@] + before));
                if i == limit {
                    assert(Seq::<Seq<char>>::empty() + strings_view(ss@)
                        =~= strings_view(ss@));
                }
            }
        }
        ss
    }

    /// Moves to the start of the text.
    pub fn seek_to_top(&mut self)
        requires
            old(self).wf(),
        ensures
            final(self).wf(),
            final(self).text() == old(self).text(),
            final(self).pos() == 0,
    {
        self.pos = 0;
    }

    /// Moves to the end of the text.
    pub fn seek_to_end(&mut self)
        requires
            old(self).wf(),
        ensures
            final(self).wf(),
            final(self).text() == old(self).text(),
            final(self).pos() == final(self).text().len(),
    {
        self.pos = self.text.len();
    }
}

} // verus!
