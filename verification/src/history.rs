use vstd::prelude::*;

verus! {

/// The last `n` entries of `s` (all of `s` when it is no longer than `n`).
pub open spec fn newest<T>(s: Seq<T>, n: nat) -> Seq<T> {
    if s.len() <= n {
        s
    } else {
        s.skip(s.len() - n)
    }
}

/// The smallest number of snapshots a history keeps.
pub open spec fn min_capacity() -> nat {
    8
}

/// Bounded undo/redo history of snapshots of a value.
///
/// The undo stack holds snapshots taken before changes (newest last); the redo
/// stack holds the values replaced by undo (newest last). Together they never
/// hold more than `capacity()` snapshots.
#[derive(Debug)]
pub struct History<T> {
    undo: Vec<T>,
    redo: Vec<T>,
    limit: usize,
}

impl<T> History<T> {
    #[verifier::type_invariant]
    spec fn bounded(self) -> bool {
        &&& self.limit >= min_capacity()
        &&& self.undo@.len() + self.redo@.len() <= self.limit
    }

    /// Snapshots that undo can restore, oldest first.
    pub closed spec fn undo_stack(self) -> Seq<T> {
        self.undo@
    }

    /// Snapshots that redo can restore, oldest first.
    pub closed spec fn redo_stack(self) -> Seq<T> {
        self.redo@
    }

    /// The number of snapshots the history keeps at most.
    pub closed spec fn capacity(self) -> nat {
        self.limit as nat
    }

    /// The bound that every history value keeps.
    pub open spec fn well_bounded(self) -> bool {
        &&& self.capacity() >= min_capacity()
        &&& self.undo_stack().len() + self.redo_stack().len() <= self.capacity()
    }
}

impl<T: Clone> Clone for History<T> {
    /// A history with copies of the same snapshots and the same capacity.
    fn clone(&self) -> (copy: Self)
        ensures
            copy.capacity() == self.capacity(),
            copy.undo_stack().len() == self.undo_stack().len(),
            copy.redo_stack().len() == self.redo_stack().len(),
            forall|i: int|
                0 <= i < self.undo_stack().len() ==> cloned(
                    self.undo_stack()[i],
                    #[trigger] copy.undo_stack()[i],
                ),
            forall|i: int|
                0 <= i < self.redo_stack().len() ==> cloned(
                    self.redo_stack()[i],
                    #[trigger] copy.redo_stack()[i],
                ),
    {
        proof {
            use_type_invariant(self);
        }
        History { undo: self.undo.clone(), redo: self.redo.clone(), limit: self.limit }
    }
}

impl<T: Clone> History<T> {
    /// `next` is `self` after a checkpoint of `current`: a copy of `current`
    /// goes on top of the undo stack, the oldest snapshots beyond the capacity
    /// are dropped, and the redo stack is emptied.
    pub open spec fn checkpointed(self, next: Self, current: T) -> bool {
        &&& next.capacity() == self.capacity()
        &&& next.undo_stack().len() > 0
        &&& cloned(current, next.undo_stack().last())
        &&& next.undo_stack() == newest(
            self.undo_stack().push(next.undo_stack().last()),
            self.capacity(),
        )
        &&& next.redo_stack() == Seq::<T>::empty()
    }

    /// `next` and `after` are `self` and the value `before` after an undo
    /// that returned `done`.
    pub open spec fn undone(self, next: Self, before: T, after: T, done: bool) -> bool {
        &&& done == (self.undo_stack().len() > 0)
        &&& next.capacity() == self.capacity()
        &&& if done {
            &&& after == self.undo_stack().last()
            &&& next.undo_stack() == self.undo_stack().drop_last()
            &&& next.redo_stack().len() == self.redo_stack().len() + 1
            &&& next.redo_stack().drop_last() == self.redo_stack()
            &&& cloned(before, next.redo_stack().last())
        } else {
            &&& after == before
            &&& next.undo_stack() == self.undo_stack()
            &&& next.redo_stack() == self.redo_stack()
        }
    }

    /// `next` and `after` are `self` and the value `before` after a redo
    /// that returned `done`.
    pub open spec fn redone(self, next: Self, before: T, after: T, done: bool) -> bool {
        &&& done == (self.redo_stack().len() > 0)
        &&& next.capacity() == self.capacity()
        &&& if done {
            &&& after == self.redo_stack().last()
            &&& next.redo_stack() == self.redo_stack().drop_last()
            &&& next.undo_stack().len() == self.undo_stack().len() + 1
            &&& next.undo_stack().drop_last() == self.undo_stack()
            &&& cloned(before, next.undo_stack().last())
        } else {
            &&& after == before
            &&& next.undo_stack() == self.undo_stack()
            &&& next.redo_stack() == self.redo_stack()
        }
    }

    /// An empty history that keeps at most `limit` snapshots, and never fewer
    /// than eight.
    pub fn new(limit: usize) -> (h: Self)
        ensures
            h.undo_stack() == Seq::<T>::empty(),
            h.redo_stack() == Seq::<T>::empty(),
            h.capacity() == if limit >= 8 { limit as nat } else { min_capacity() },
            h.well_bounded(),
    {
        let limit = if limit >= 8 { limit } else { 8 };
        History { undo: Vec::new(), redo: Vec::new(), limit }
    }

    /// Records a snapshot of `current` that a later undo can restore, and
    /// forgets everything that redo could have restored.
    pub fn checkpoint(&mut self, current: &T)
        ensures
            old(self).checkpointed(*final(self), *current),
            final(self).well_bounded(),
    {
        proof {
            use_type_invariant(&*self);
        }
        let snapshot = current.clone();
        let mut undo: Vec<T> = Vec::new();
        let mut redo: Vec<T> = Vec::new();
        std::mem::swap(&mut undo, &mut self.undo);
        std::mem::swap(&mut redo, &mut self.redo);
        let ghost old_undo = undo@;
        undo.push(snapshot);
        if undo.len() > self.limit {
            let overflow = undo.len() - self.limit;
            undo = undo.split_off(overflow);
        }
        assert(undo@ == newest(old_undo.push(snapshot), self.limit as nat));
        self.undo = undo;
    }

    /// Restores the newest undo snapshot into `current`, keeping the replaced
    /// value for redo. Returns false, changing nothing, when there is nothing
    /// to undo.
    pub fn undo(&mut self, current: &mut T) -> (done: bool)
        ensures
            old(self).undone(*final(self), *old(current), *final(current), done),
            final(self).well_bounded(),
    {
        proof {
            use_type_invariant(&*self);
        }
        let mut undo: Vec<T> = Vec::new();
        let mut redo: Vec<T> = Vec::new();
        std::mem::swap(&mut undo, &mut self.undo);
        std::mem::swap(&mut redo, &mut self.redo);
        let ghost old_redo = redo@;
        let done = match undo.pop() {
            Some(previous) => {
                let copy = current.clone();
                redo.push(copy);
                assert(redo@.drop_last() =~= old_redo);
                *current = previous;
                true
            },
            None => false,
        };
        self.undo = undo;
        self.redo = redo;
        done
    }

    /// Restores the newest redo snapshot into `current`, keeping the replaced
    /// value for undo. Returns false, changing nothing, when there is nothing
    /// to redo.
    pub fn redo(&mut self, current: &mut T) -> (done: bool)
        ensures
            old(self).redone(*final(self), *old(current), *final(current), done),
            final(self).well_bounded(),
    {
        proof {
            use_type_invariant(&*self);
        }
        let mut undo: Vec<T> = Vec::new();
        let mut redo: Vec<T> = Vec::new();
        std::mem::swap(&mut undo, &mut self.undo);
        std::mem::swap(&mut redo, &mut self.redo);
        let ghost old_undo = undo@;
        let done = match redo.pop() {
            Some(next) => {
                let copy = current.clone();
                undo.push(copy);
                assert(undo@.drop_last() =~= old_undo);
                *current = next;
                true
            },
            None => false,
        };
        self.redo = redo;
        self.undo = undo;
        done
    }

    /// Forgets every snapshot.
    pub fn clear(&mut self)
        ensures
            final(self).undo_stack() == Seq::<T>::empty(),
            final(self).redo_stack() == Seq::<T>::empty(),
            final(self).capacity() == old(self).capacity(),
            final(self).well_bounded(),
    {
        proof {
            use_type_invariant(&*self);
        }
        self.undo = Vec::new();
        self.redo = Vec::new();
    }
}

/// Undo right after a checkpoint succeeds and gives back a copy of the
/// checkpointed value; when the checkpoint dropped nothing, the undo stack is
/// back to what it was before the checkpoint.
pub proof fn lemma_undo_restores_checkpoint<T: Clone>(
    h0: History<T>,
    h1: History<T>,
    h2: History<T>,
    saved: T,
    before: T,
    after: T,
    done: bool,
)
    requires
        h0.checkpointed(h1, saved),
        h1.undone(h2, before, after, done),
    ensures
        done,
        cloned(saved, after),
        h0.undo_stack().len() < h0.capacity() ==> h2.undo_stack() == h0.undo_stack(),
        h2.redo_stack().len() == 1,
        cloned(before, h2.redo_stack().last()),
{
    if h0.undo_stack().len() < h0.capacity() {
        assert(h2.undo_stack() =~= h0.undo_stack());
    }
}

/// Redo right after a successful undo succeeds and gives back a copy of the
/// value the undo replaced; the redo stack is back to what it was, and the
/// undo stack holds the same snapshots, its newest one copied.
pub proof fn lemma_redo_reverts_undo<T: Clone>(
    h0: History<T>,
    h1: History<T>,
    h2: History<T>,
    v0: T,
    v1: T,
    v2: T,
    undo_done: bool,
    redo_done: bool,
)
    requires
        h0.undone(h1, v0, v1, undo_done),
        undo_done,
        h1.redone(h2, v1, v2, redo_done),
    ensures
        redo_done,
        cloned(v0, v2),
        h2.redo_stack() == h0.redo_stack(),
        h2.undo_stack().len() == h0.undo_stack().len(),
        h2.undo_stack().drop_last() == h0.undo_stack().drop_last(),
        cloned(h0.undo_stack().last(), h2.undo_stack().last()),
{
}

/// Undo right after a successful redo succeeds and gives back a copy of the
/// value the redo replaced; the undo stack is back to what it was, and the
/// redo stack holds the same snapshots, its newest one copied.
pub proof fn lemma_undo_reverts_redo<T: Clone>(
    h0: History<T>,
    h1: History<T>,
    h2: History<T>,
    v0: T,
    v1: T,
    v2: T,
    redo_done: bool,
    undo_done: bool,
)
    requires
        h0.redone(h1, v0, v1, redo_done),
        redo_done,
        h1.undone(h2, v1, v2, undo_done),
    ensures
        undo_done,
        cloned(v0, v2),
        h2.undo_stack() == h0.undo_stack(),
        h2.redo_stack().len() == h0.redo_stack().len(),
        h2.redo_stack().drop_last() == h0.redo_stack().drop_last(),
        cloned(h0.redo_stack().last(), h2.redo_stack().last()),
{
}

/// After a checkpoint there is nothing to redo: redo returns false and
/// leaves the value alone.
pub proof fn lemma_checkpoint_ends_redo<T: Clone>(
    h0: History<T>,
    h1: History<T>,
    h2: History<T>,
    saved: T,
    before: T,
    after: T,
    done: bool,
)
    requires
        h0.checkpointed(h1, saved),
        h1.redone(h2, before, after, done),
    ensures
        !done,
        after == before,
        h2.undo_stack() == h1.undo_stack(),
{
}

/// Checkpoint, undo and redo keep a history within its capacity, and the
/// capacity never changes.
pub proof fn lemma_operations_keep_bound<T: Clone>(
    h0: History<T>,
    h1: History<T>,
    saved: T,
    before: T,
    after: T,
    done: bool,
)
    requires
        h0.well_bounded(),
        h0.checkpointed(h1, saved) || h0.undone(h1, before, after, done) || h0.redone(
            h1,
            before,
            after,
            done,
        ),
    ensures
        h1.well_bounded(),
        h1.capacity() == h0.capacity(),
{
}

/// An emptied history has nothing to undo or redo.
pub proof fn lemma_cleared_history_is_inert<T: Clone>(
    h0: History<T>,
    h1: History<T>,
    before: T,
    after: T,
    done: bool,
)
    requires
        h0.undo_stack() == Seq::<T>::empty(),
        h0.redo_stack() == Seq::<T>::empty(),
        h0.undone(h1, before, after, done) || h0.redone(h1, before, after, done),
    ensures
        !done,
        after == before,
{
}

/// A checkpoint adds one snapshot on top and, when the history is full,
/// drops exactly the oldest snapshots needed to make room: what stays below
/// the new snapshot are the newest of the earlier snapshots, in order.
pub proof fn lemma_checkpoint_keeps_newest<T: Clone>(h0: History<T>, h1: History<T>, saved: T)
    requires
        h0.well_bounded(),
        h0.checkpointed(h1, saved),
    ensures
        h1.undo_stack().len() == if h0.undo_stack().len() < h0.capacity() {
            h0.undo_stack().len() + 1
        } else {
            h0.capacity()
        },
        cloned(saved, h1.undo_stack().last()),
        forall|i: int|
            0 <= i < h1.undo_stack().len() - 1 ==> #[trigger] h1.undo_stack()[i]
                == h0.undo_stack()[h0.undo_stack().len() + 1 - h1.undo_stack().len() + i],
{
}

} // verus!
