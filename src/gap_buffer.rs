use crate::error::EditError;
use vstd::prelude::*;

verus! {

/// A sequence stored in one array with a movable unused region (the gap).
///
/// The contents are `buffer[0..gap_index] ++ buffer[right_index..]`; the
/// slots `buffer[gap_index..right_index]` are free capacity.
pub struct GapBuffer<T> {
    buffer: Vec<T>,
    gap_index: usize,
    right_index: usize,
}

/// One edit of a sequence at a position.
pub enum Operation<T> {
    Insert(T),
    Delete,
}

/// What an edit does to a plain sequence: an insertion at a position up to
/// the length, a removal at a position below it; anything else leaves the
/// sequence as it was.
pub open spec fn apply_op<T>(s: Seq<T>, index: int, op: Operation<T>) -> Seq<T> {
    match op {
        Operation::Insert(x) => if 0 <= index <= s.len() {
            s.insert(index, x)
        } else {
            s
        },
        Operation::Delete => if 0 <= index < s.len() {
            s.remove(index)
        } else {
            s
        },
    }
}

/// Whether an edit at `index` is within bounds of a sequence of length `len`.
pub open spec fn op_in_bounds<T>(len: nat, index: int, op: Operation<T>) -> bool {
    match op {
        Operation::Insert(_) => 0 <= index <= len,
        Operation::Delete => 0 <= index < len,
    }
}

/// The result of applying `ops` in order to a plain sequence, each an index
/// and an edit.
pub open spec fn apply_ops<T>(s: Seq<T>, ops: Seq<(int, Operation<T>)>) -> Seq<T>
    decreases ops.len(),
{
    if ops.len() == 0 {
        s
    } else {
        apply_op(apply_ops(s, ops.drop_last()), ops.last().0, ops.last().1)
    }
}

/// A gap buffer edited by a run of operations holds what a plain sequence
/// holds after the same operations: where `states` are the buffer before
/// each of `ops` and after the last, each step as `operate` leaves it, the
/// last state's contents are the first state's contents with `ops` applied.
pub proof fn lemma_operate_matches_reference<T>(
    states: Seq<GapBuffer<T>>,
    ops: Seq<(int, Operation<T>)>,
)
    requires
        states.len() == ops.len() + 1,
        forall|k: int|
            0 <= k < ops.len() ==> #[trigger] states[k + 1]@ == apply_op(
                states[k]@,
                ops[k].0,
                ops[k].1,
            ),
    ensures
        states.last()@ == apply_ops(states[0]@, ops),
    decreases ops.len(),
{
    if ops.len() > 0 {
        let k = ops.len() - 1;
        lemma_operate_matches_reference(states.drop_last(), ops.drop_last());
        assert(states[k + 1]@ == apply_op(states[k]@, ops[k].0, ops[k].1));
    }
}

/// Edits at the end: inserting at the length appends and is in bounds;
/// deleting at the length minus one removes the last element and is in
/// bounds.
pub proof fn lemma_edits_at_end<T>(s: Seq<T>, x: T)
    ensures
        op_in_bounds(s.len(), s.len() as int, Operation::Insert(x)),
        apply_op(s, s.len() as int, Operation::Insert(x)) == s.push(x),
        s.len() > 0 ==> op_in_bounds(s.len(), s.len() - 1, Operation::<T>::Delete),
        s.len() > 0 ==> apply_op(s, s.len() - 1, Operation::<T>::Delete) == s.drop_last(),
{
    assert(s.insert(s.len() as int, x) =~= s.push(x));
    if s.len() > 0 {
        assert(s.remove(s.len() - 1) =~= s.drop_last());
    }
}

impl<T> View for GapBuffer<T> {
    type V = Seq<T>;

    closed spec fn view(&self) -> Seq<T> {
        self.buffer@.subrange(0, self.gap_index as int) + self.buffer@.subrange(
            self.right_index as int,
            self.buffer@.len() as int,
        )
    }
}

impl<T: Copy> GapBuffer<T> {
    /// The gap lies within the storage.
    pub closed spec fn wf(&self) -> bool {
        self.gap_index <= self.right_index <= self.buffer@.len()
    }

    /// Where the gap starts in the storage.
    pub closed spec fn gap_start(&self) -> int {
        self.gap_index as int
    }

    /// Where the gap ends in the storage (its first slot past the gap).
    pub closed spec fn gap_end(&self) -> int {
        self.right_index as int
    }

    /// The length of the storage, gap included.
    pub closed spec fn storage_len(&self) -> int {
        self.buffer@.len() as int
    }

    /// A well-formed buffer's gap lies within its storage, and its contents
    /// are the storage without the gap.
    pub proof fn lemma_gap_bounds(&self)
        requires
            self.wf(),
        ensures
            0 <= self.gap_start() <= self.gap_end() <= self.storage_len(),
            self@.len() == self.storage_len() - (self.gap_end() - self.gap_start()),
    {
    }

    /// Builds a buffer holding `vec`, with an empty gap at its end.
    pub fn from(vec: Vec<T>) -> (r: Self)
        ensures
            r.wf(),
            r@ == vec@,
            r.storage_len() == vec@.len(),
            r.gap_start() == vec@.len(),
            r.gap_end() == vec@.len(),
    {
        let len = vec.len();
        let r = GapBuffer { buffer: vec, gap_index: len, right_index: len };
        assert(r@ =~= vec@);
        r
    }

    fn gap_size(&self) -> (r: usize)
        requires
            self.wf(),
        ensures
            r == self.right_index - self.gap_index,
    {
        self.right_index - self.gap_index
    }

    /// Replaces an empty gap with a new one at the same place, of
    /// `max(1, len / 2)` slots (less only where the storage length would
    /// pass `usize::MAX`), filled with copies of `filler`.
    fn allocate_gap(&mut self, filler: T)
        requires
            old(self).wf(),
            old(self).gap_index == old(self).right_index,
            old(self).buffer@.len() < usize::MAX,
        ensures
            final(self).wf(),
            final(self)@ == old(self)@,
            final(self).gap_index == old(self).gap_index,
            final(self).gap_index < final(self).right_index,
    {
        let n = self.buffer.len();
        let g = self.gap_index;
        let half = n / 2;
        let extra: usize = if half == 0 {
            1
        } else if half > usize::MAX - n {
            usize::MAX - n
        } else {
            half
        };
        let ghost old_buf = self.buffer@;
        let mut grown: Vec<T> = Vec::with_capacity(n + extra);
        let mut i: usize = 0;
        while i < g
            invariant
                i <= g <= n == old_buf.len(),
                self.buffer@ == old_buf,
                grown@ == old_buf.subrange(0, i as int),
            decreases g - i,
        {
            grown.push(self.buffer[i]);
            i += 1;
        }
        let mut j: usize = 0;
        while j < extra
            invariant
                j <= extra,
                grown@.len() == g + j,
                grown@.subrange(0, g as int) == old_buf.subrange(0, g as int),
            decreases extra - j,
        {
            grown.push(filler);
            j += 1;
            proof {
                assert(grown@.subrange(0, g as int) =~= old_buf.subrange(0, g as int));
            }
        }
        let mut k: usize = g;
        while k < n
            invariant
                g <= k <= n == old_buf.len(),
                self.buffer@ == old_buf,
                grown@.len() == k + extra,
                grown@.subrange(0, g as int) == old_buf.subrange(0, g as int),
                grown@.subrange(g + extra, k + extra) == old_buf.subrange(g as int, k as int),
            decreases n - k,
        {
            grown.push(self.buffer[k]);
            k += 1;
            proof {
                assert(grown@.subrange(0, g as int) =~= old_buf.subrange(0, g as int));
                assert(grown@.subrange(g + extra, k + extra) =~= old_buf.subrange(
                    g as int,
                    k as int,
                ));
            }
        }
        self.buffer = grown;
        self.right_index = g + extra;
        assert(self@ =~= old(self)@);
    }

    /// Moves the gap, keeping the contents: to start at `index` where that
    /// lies before the gap, to end at `index` where it lies after the gap's
    /// end. An index within the gap leaves the buffer as it is.
    fn slide_gap_to(&mut self, index: usize)
        requires
            old(self).wf(),
            index <= old(self).buffer@.len(),
        ensures
            old(self).gap_index <= index <= old(self).right_index ==> *final(self) == *old(self),
            final(self).wf(),
            final(self)@ == old(self)@,
            final(self).buffer@.len() == old(self).buffer@.len(),
            final(self).right_index - final(self).gap_index == old(self).right_index
                - old(self).gap_index,
            index <= old(self).gap_index ==> final(self).gap_index == index,
            old(self).right_index <= index ==> final(self).right_index == index,
    {
        let ghost old_buf = self.buffer@;
        let g = self.gap_index;
        let r = self.right_index;
        let gs = r - g;
        if index < g {
            let mut k: usize = g;
            while k > index
                invariant
                    index <= k <= g <= r <= old_buf.len(),
                    gs == r - g,
                    self.gap_index == g,
                    self.right_index == r,
                    self.buffer@.len() == old_buf.len(),
                    forall|j: int| 0 <= j < k ==> self.buffer@[j] == old_buf[j],
                    forall|j: int| k + gs <= j < r ==> self.buffer@[j] == old_buf[j - gs],
                    forall|j: int| r <= j < old_buf.len() ==> self.buffer@[j] == old_buf[j],
                decreases k,
            {
                k -= 1;
                let x = self.buffer[k];
                self.buffer.set(k + gs, x);
            }
            self.gap_index = index;
            self.right_index = index + gs;
            assert(self@ =~= old(self)@);
        } else if r < index {
            let mut k: usize = r;
            while k < index
                invariant
                    g <= r <= k <= index <= old_buf.len(),
                    gs == r - g,
                    self.gap_index == g,
                    self.right_index == r,
                    self.buffer@.len() == old_buf.len(),
                    forall|j: int| 0 <= j < g ==> self.buffer@[j] == old_buf[j],
                    forall|j: int| g <= j < k - gs ==> self.buffer@[j] == old_buf[j + gs],
                    forall|j: int| k <= j < old_buf.len() ==> self.buffer@[j] == old_buf[j],
                decreases index - k,
            {
                let x = self.buffer[k];
                self.buffer.set(k - gs, x);
                k += 1;
            }
            self.gap_index = index - gs;
            self.right_index = index;
            assert(self@ =~= old(self)@);
        }
    }

    /// Where an insertion at virtual position `virtual_index` lands in the
    /// storage.
    fn to_actual_index(&self, virtual_index: usize) -> (r: usize)
        requires
            self.wf(),
            virtual_index <= self@.len(),
        ensures
            virtual_index <= self.gap_index ==> r == virtual_index,
            virtual_index > self.gap_index ==> r == virtual_index + (self.right_index
                - self.gap_index),
            r <= self.buffer@.len(),
    {
        if virtual_index <= self.gap_index {
            virtual_index
        } else {
            let n = self.buffer.len();
            assert(self@.len() == n - (self.right_index - self.gap_index));
            virtual_index + self.gap_size()
        }
    }

    /// The number of elements held.
    pub fn len(&self) -> (r: usize)
        requires
            self.wf(),
        ensures
            r == self@.len(),
    {
        self.buffer.len() - self.gap_size()
    }
    /// Inserts `elem` so that it stands at position `virtual_index`.
    /// Fails with `OutOfBounds`, changing nothing, where `virtual_index`
    /// exceeds the length.
    pub fn insert(&mut self, virtual_index: usize, elem: T) -> (r: Result<(), EditError>)
        requires
            old(self).wf(),
            old(self)@.len() < usize::MAX,
        ensures
            final(self).wf(),
            r is Ok <==> virtual_index <= old(self)@.len(),
            r is Ok ==> final(self)@ == old(self)@.insert(virtual_index as int, elem),
            r is Ok ==> final(self).gap_start() == virtual_index + 1,
            r is Err ==> r == Err::<(), EditError>(EditError::OutOfBounds) && *final(self)
                == *old(self),
    {
        if virtual_index > self.len() {
            return Err(EditError::OutOfBounds);
        }
        let ghost before = self@;
        if self.gap_size() == 0 {
            self.allocate_gap(elem);
        }
        let actual_index = self.to_actual_index(virtual_index);
        self.slide_gap_to(actual_index);
        self.buffer.set(self.gap_index, elem);
        self.gap_index = self.gap_index + 1;
        assert(self@ =~= before.insert(virtual_index as int, elem));
        Ok(())
    }

    /// Removes the element at position `virtual_index`. Fails with
    /// `OutOfBounds`, changing nothing, where there is no such element.
    pub fn delete(&mut self, virtual_index: usize) -> (r: Result<(), EditError>)
        requires
            old(self).wf(),
        ensures
            final(self).wf(),
            r is Ok <==> virtual_index < old(self)@.len(),
            r is Ok ==> final(self)@ == old(self)@.remove(virtual_index as int),
            r is Ok ==> final(self).storage_len() == old(self).storage_len(),
            r is Ok ==> final(self).gap_start() == virtual_index,
            r is Ok ==> final(self).gap_end() - final(self).gap_start() == old(self).gap_end()
                - old(self).gap_start() + 1,
            r is Err ==> r == Err::<(), EditError>(EditError::OutOfBounds) && *final(self)
                == *old(self),
    {
        if virtual_index >= self.len() {
            return Err(EditError::OutOfBounds);
        }
        let ghost before = self@;
        if virtual_index < self.gap_index {
            self.slide_gap_to(virtual_index + 1);
            self.gap_index = self.gap_index - 1;
        } else {
            let n = self.buffer.len();
            assert(before.len() == n - (self.right_index - self.gap_index));
            let actual_index = virtual_index + self.gap_size();
            self.slide_gap_to(actual_index);
            self.right_index = self.right_index + 1;
        }
        assert(self@ =~= before.remove(virtual_index as int));
        Ok(())
    }

    /// The contents, in order, without the gap.
    pub fn as_vec(&self) -> (r: Vec<T>)
        requires
            self.wf(),
        ensures
            r@ == self@,
    {
        let mut r: Vec<T> = Vec::new();
        let mut i: usize = 0;
        while i < self.gap_index
            invariant
                self.wf(),
                i <= self.gap_index,
                r@ == self.buffer@.subrange(0, i as int),
            decreases self.gap_index - i,
        {
            r.push(self.buffer[i]);
            i += 1;
            assert(r@ =~= self.buffer@.subrange(0, i as int));
        }
        let n = self.buffer.len();
        let mut k: usize = self.right_index;
        while k < n
            invariant
                self.wf(),
                n == self.buffer@.len(),
                self.right_index <= k <= n,
                r@ == self.buffer@.subrange(0, self.gap_index as int) + self.buffer@.subrange(
                    self.right_index as int,
                    k as int,
                ),
            decreases n - k,
        {
            r.push(self.buffer[k]);
            k += 1;
            assert(r@ =~= self.buffer@.subrange(0, self.gap_index as int) + self.buffer@.subrange(
                self.right_index as int,
                k as int,
            ));
        }
        r
    }

    /// Applies one edit at `index`: an insertion or a deletion. Fails with
    /// `OutOfBounds`, changing nothing, where the edit is out of bounds.
    pub fn operate(&mut self, index: usize, op: Operation<T>) -> (r: Result<(), EditError>)
        requires
            old(self).wf(),
            op is Insert ==> old(self)@.len() < usize::MAX,
        ensures
            final(self).wf(),
            r is Ok <==> op_in_bounds(old(self)@.len(), index as int, op),
            r is Err ==> r == Err::<(), EditError>(EditError::OutOfBounds),
            final(self)@ == apply_op(old(self)@, index as int, op),
    {
        match op {
            Operation::Insert(x) => self.insert(index, x),
            Operation::Delete => self.delete(index),
        }
    }
}

} // verus!
