use vstd::prelude::*;

verus! {

/// The abstract drawing canvas: the committed strokes in drawing order
/// (`done`), the strokes taken back by undo with the most recently undone
/// one last (`undone`), and the strokes still being drawn, keyed by the
/// pointer or touch sequence that draws them (`active`).
pub struct Canvas<S> {
    pub done: Seq<S>,
    pub undone: Seq<S>,
    pub active: Map<u32, S>,
}

impl<S> Canvas<S> {
    /// A canvas with nothing on it.
    pub open spec fn empty() -> Self {
        Canvas { done: Seq::empty(), undone: Seq::empty(), active: Map::empty() }
    }

    /// Every stroke that undo and redo can reach, in drawing order:
    /// the committed ones followed by the undone ones, oldest first.
    pub open spec fn timeline(self) -> Seq<S> {
        self.done + self.undone.reverse()
    }

    /// Starting a stroke under `seq` replaces whatever that sequence was drawing.
    pub open spec fn begin(self, seq: u32, s: S) -> Self {
        Canvas { done: self.done, undone: self.undone, active: self.active.insert(seq, s) }
    }

    /// Finishing the stroke under `seq` commits it and forgets every undone
    /// stroke; without a stroke under `seq` nothing happens.
    pub open spec fn end(self, seq: u32) -> Self {
        if self.active.contains_key(seq) {
            Canvas {
                done: self.done.push(self.active[seq]),
                undone: Seq::empty(),
                active: self.active.remove(seq),
            }
        } else {
            self
        }
    }

    /// Dropping the stroke under `seq` without committing it.
    pub open spec fn cancel(self, seq: u32) -> Self {
        Canvas { done: self.done, undone: self.undone, active: self.active.remove(seq) }
    }

    /// Undo moves the last committed stroke onto the undone pile.
    pub open spec fn undo(self) -> Self {
        if self.done.len() == 0 {
            self
        } else {
            Canvas {
                done: self.done.drop_last(),
                undone: self.undone.push(self.done.last()),
                active: self.active,
            }
        }
    }

    /// Redo moves the most recently undone stroke back to the committed ones.
    pub open spec fn redo(self) -> Self {
        if self.undone.len() == 0 {
            self
        } else {
            Canvas {
                done: self.done.push(self.undone.last()),
                undone: self.undone.drop_last(),
                active: self.active,
            }
        }
    }

    /// Clearing forgets committed, undone and active strokes alike.
    pub open spec fn clear(self) -> Self {
        Canvas::empty()
    }
}

/// Redo right after an undo that took a stroke back restores the canvas.
pub proof fn lemma_redo_reverts_undo<S>(c: Canvas<S>)
    requires
        c.done.len() > 0,
    ensures
        c.undo().redo() == c,
{
    assert(c.undo().redo().done =~= c.done);
    assert(c.undo().redo().undone =~= c.undone);
}

/// Undo right after a redo that brought a stroke back restores the canvas.
pub proof fn lemma_undo_reverts_redo<S>(c: Canvas<S>)
    requires
        c.undone.len() > 0,
    ensures
        c.redo().undo() == c,
{
    assert(c.redo().undo().done =~= c.done);
    assert(c.redo().undo().undone =~= c.undone);
}

/// Undo and redo only move the boundary between committed and undone
/// strokes: the timeline of strokes they can reach never changes.
pub proof fn lemma_undo_redo_keep_timeline<S>(c: Canvas<S>)
    ensures
        c.undo().timeline() == c.timeline(),
        c.redo().timeline() == c.timeline(),
        c.undo().active == c.active,
        c.redo().active == c.active,
{
    if c.done.len() > 0 {
        let u = c.undo();
        assert(u.timeline() =~= c.timeline()) by {
            assert(u.undone.reverse().len() == c.undone.len() + 1);
            assert forall|i: int| 0 <= i < u.timeline().len() implies u.timeline()[i]
                == c.timeline()[i] by {
                if i < c.done.len() - 1 {
                } else if i == c.done.len() - 1 {
                    assert(u.undone.reverse()[0] == u.undone[u.undone.len() - 1]);
                } else {
                    let j = i - c.done.len();
                    assert(u.undone.reverse()[j + 1] == u.undone[u.undone.len() - 1 - (j + 1)]);
                    assert(c.undone.reverse()[j] == c.undone[c.undone.len() - 1 - j]);
                }
            }
        }
    }
    if c.undone.len() > 0 {
        let r = c.redo();
        assert(r.timeline() =~= c.timeline()) by {
            assert(r.undone.reverse().len() + 1 == c.undone.len());
            assert forall|i: int| 0 <= i < r.timeline().len() implies r.timeline()[i]
                == c.timeline()[i] by {
                if i < c.done.len() {
                } else if i == c.done.len() {
                    assert(c.undone.reverse()[0] == c.undone[c.undone.len() - 1]);
                } else {
                    let j = i - c.done.len() - 1;
                    assert(r.undone.reverse()[j] == r.undone[r.undone.len() - 1 - j]);
                    assert(c.undone.reverse()[j + 1] == c.undone[c.undone.len() - 1 - (j + 1)]);
                }
            }
        }
    }
}

/// A stroke begun under `seq` and finished under `seq` lands on top of the
/// committed strokes, the undone pile is emptied and `seq` is free again.
pub proof fn lemma_begin_end_commits<S>(c: Canvas<S>, seq: u32, s: S)
    ensures
        c.begin(seq, s).end(seq).done == c.done.push(s),
        c.begin(seq, s).end(seq).undone == Seq::<S>::empty(),
        c.begin(seq, s).end(seq).active == c.active.remove(seq),
{
    assert(c.active.insert(seq, s).remove(seq) =~= c.active.remove(seq));
}

/// Committing a stroke discards the redo history: redo right after it does nothing.
pub proof fn lemma_end_discards_redo<S>(c: Canvas<S>, seq: u32)
    requires
        c.active.contains_key(seq),
    ensures
        c.end(seq).undone.len() == 0,
        c.end(seq).redo() == c.end(seq),
{
}

/// Finishing a sequence that draws nothing leaves the canvas as it was.
pub proof fn lemma_end_unknown_is_noop<S>(c: Canvas<S>, seq: u32)
    requires
        !c.active.contains_key(seq),
    ensures
        c.end(seq) == c,
{
}

/// What one sequence does never touches the stroke of another sequence.
pub proof fn lemma_sequences_independent<S>(c: Canvas<S>, seq: u32, other: u32, s: S)
    requires
        seq != other,
    ensures
        c.begin(seq, s).active.contains_key(other) == c.active.contains_key(other),
        c.end(seq).active.contains_key(other) == c.active.contains_key(other),
        c.cancel(seq).active.contains_key(other) == c.active.contains_key(other),
        c.active.contains_key(other) ==> c.begin(seq, s).active[other] == c.active[other],
        c.active.contains_key(other) ==> c.end(seq).active[other] == c.active[other],
        c.active.contains_key(other) ==> c.cancel(seq).active[other] == c.active[other],
{
}

/// After clearing, undo and redo have nothing to bring back.
pub proof fn lemma_clear_forgets_everything<S>(c: Canvas<S>)
    ensures
        c.clear().timeline().len() == 0,
        c.clear().active.dom().len() == 0,
        c.clear().undo() == c.clear(),
        c.clear().redo() == c.clear(),
{
    assert(c.clear().timeline() =~= Seq::<S>::empty());
    assert(c.clear().active.dom() =~= Set::<u32>::empty());
}

/// With nothing committed, undo changes nothing: it never brings an undone
/// stroke back.
pub proof fn lemma_undo_without_committed_is_noop<S>(c: Canvas<S>)
    requires
        c.done.len() == 0,
    ensures
        c.undo() == c,
        c.undo().done.len() == 0,
        c.undo().undone == c.undone,
{
}

/// With nothing undone, redo changes nothing.
pub proof fn lemma_redo_without_undone_is_noop<S>(c: Canvas<S>)
    requires
        c.undone.len() == 0,
    ensures
        c.redo() == c,
        c.redo().done == c.done,
{
}

/// Undo takes exactly one stroke, the newest committed one, and puts it on
/// top of the undone pile; nothing else moves.
pub proof fn lemma_undo_moves_newest<S>(c: Canvas<S>)
    requires
        c.done.len() > 0,
    ensures
        c.undo().done.len() + 1 == c.done.len(),
        c.undo().undone.len() == c.undone.len() + 1,
        c.undo().done.push(c.undo().undone.last()) == c.done,
        c.undo().undone.last() == c.done.last(),
        c.undo().undone.drop_last() == c.undone,
        c.undo().active == c.active,
{
    assert(c.undo().done.push(c.undo().undone.last()) =~= c.done);
    assert(c.undo().undone.drop_last() =~= c.undone);
}

/// Redo takes exactly one stroke, the most recently undone one, and puts it
/// on top of the committed strokes; nothing else moves.
pub proof fn lemma_redo_moves_newest_undone<S>(c: Canvas<S>)
    requires
        c.undone.len() > 0,
    ensures
        c.redo().done.len() == c.done.len() + 1,
        c.redo().undone.len() + 1 == c.undone.len(),
        c.redo().undone.push(c.redo().done.last()) == c.undone,
        c.redo().done.last() == c.undone.last(),
        c.redo().done.drop_last() == c.done,
        c.redo().active == c.active,
{
    assert(c.redo().undone.push(c.redo().done.last()) =~= c.undone);
    assert(c.redo().done.drop_last() =~= c.done);
}

/// Finishing a sequence that draws a stroke commits exactly that stroke on
/// top of the committed ones, empties the undone pile and frees the sequence.
pub proof fn lemma_end_commits_active<S>(c: Canvas<S>, seq: u32)
    requires
        c.active.contains_key(seq),
    ensures
        c.end(seq).done.len() == c.done.len() + 1,
        c.end(seq).done.last() == c.active[seq],
        c.end(seq).done.drop_last() == c.done,
        c.end(seq).undone.len() == 0,
        !c.end(seq).active.contains_key(seq),
        forall|k: u32| k != seq ==> c.end(seq).active.contains_key(k) == c.active.contains_key(k),
{
    assert(c.end(seq).done.drop_last() =~= c.done);
}

/// Beginning a stroke under a sequence makes it that sequence's stroke and
/// touches neither committed nor undone strokes.
pub proof fn lemma_begin_sets_stroke<S>(c: Canvas<S>, seq: u32, s: S)
    ensures
        c.begin(seq, s).active.contains_key(seq),
        c.begin(seq, s).active[seq] == s,
        c.begin(seq, s).done == c.done,
        c.begin(seq, s).undone == c.undone,
{
}

/// Cancelling frees the sequence and touches neither committed nor undone strokes.
pub proof fn lemma_cancel_frees_sequence<S>(c: Canvas<S>, seq: u32)
    ensures
        !c.cancel(seq).active.contains_key(seq),
        c.cancel(seq).done == c.done,
        c.cancel(seq).undone == c.undone,
{
}

} // verus!
