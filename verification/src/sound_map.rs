//! The queue in which a sound graph registers the sources and oscillators
//! it builds; nodes refer to one another's output by its position there.
use vstd::prelude::*;

verus! {

/// A position that does not hold an entry of the queue.
#[derive(Clone, Copy, PartialEq, Eq, Structural, Debug)]
pub struct OutOfBounds {
    pub index: usize,
    pub len: usize,
}

/// The sources and oscillators built so far. Position 0 of each list holds
/// the silent entry the queue was made (or last cleared) with, so that
/// position 0 can stand for "no input"; the silent entries are kept apart
/// from the later ones, so every queue has them.
pub struct SoundQueue<S, O> {
    silent_source: S,
    sources: Vec<S>,
    silent_oscillator: O,
    oscillators: Vec<O>,
}

impl<S, O> SoundQueue<S, O> {
    /// Both lists hold at least their silent entry at position 0 (which every
    /// queue does: see `lemma_silent_entries_kept`).
    pub open spec fn wf(self) -> bool {
        self.sources().len() >= 1 && self.oscillators().len() >= 1
    }

    /// The sources, position by position.
    pub closed spec fn sources(self) -> Seq<S> {
        seq![self.silent_source] + self.sources@
    }

    /// The oscillators, position by position.
    pub closed spec fn oscillators(self) -> Seq<O> {
        seq![self.silent_oscillator] + self.oscillators@
    }

    /// A queue that holds only the silent source and the silent oscillator.
    pub fn new(silent_source: S, silent_oscillator: O) -> (r: Self)
        ensures
            r.sources() == seq![silent_source],
            r.oscillators() == seq![silent_oscillator],
            r.wf(),
    {
        let r = SoundQueue { silent_source, sources: Vec::new(), silent_oscillator, oscillators: Vec::new() };
        assert(r.sources() =~= seq![r.silent_source]);
        assert(r.oscillators() =~= seq![r.silent_oscillator]);
        r
    }

    /// Appends a source and returns its position.
    pub fn push_sound(&mut self, sound: S) -> (idx: usize)
        requires
            old(self).sources().len() < usize::MAX,
        ensures
            final(self).sources() == old(self).sources().push(sound),
            final(self).oscillators() == old(self).oscillators(),
            idx == old(self).sources().len(),
            final(self).wf(),
    {
        self.sources.push(sound);
        assert(self.sources() =~= old(self).sources().push(sound));
        self.sources.len()
    }

    /// Appends an oscillator and returns its position.
    pub fn push_osc(&mut self, osc: O) -> (idx: usize)
        requires
            old(self).oscillators().len() < usize::MAX,
        ensures
            final(self).oscillators() == old(self).oscillators().push(osc),
            final(self).sources() == old(self).sources(),
            idx == old(self).oscillators().len(),
            final(self).wf(),
    {
        self.oscillators.push(osc);
        assert(self.oscillators() =~= old(self).oscillators().push(osc));
        self.oscillators.len()
    }

    /// How many sources the queue holds (the largest `usize` for a queue too
    /// long to count in one).
    pub fn sound_queue_len(&self) -> (r: usize)
        ensures
            self.sources().len() <= usize::MAX ==> r == self.sources().len(),
            self.sources().len() > usize::MAX ==> r == usize::MAX,
    {
        if self.sources.len() < usize::MAX {
            self.sources.len() + 1
        } else {
            usize::MAX
        }
    }

    /// How many oscillators the queue holds (the largest `usize` for a queue
    /// too long to count in one).
    pub fn osc_queue_len(&self) -> (r: usize)
        ensures
            self.oscillators().len() <= usize::MAX ==> r == self.oscillators().len(),
            self.oscillators().len() > usize::MAX ==> r == usize::MAX,
    {
        if self.oscillators.len() < usize::MAX {
            self.oscillators.len() + 1
        } else {
            usize::MAX
        }
    }

    /// Drops every source and oscillator, leaving the given silent pair at
    /// position 0.
    pub fn clear(&mut self, silent_source: S, silent_oscillator: O)
        ensures
            final(self).sources() == seq![silent_source],
            final(self).oscillators() == seq![silent_oscillator],
            final(self).wf(),
    {
        *self = SoundQueue::new(silent_source, silent_oscillator);
    }
}

/// Every queue holds its silent entries: position 0 of each list exists.
pub proof fn lemma_silent_entries_kept<S, O>(queue: SoundQueue<S, O>)
    ensures
        queue.wf(),
{
}

impl<S: Clone, O> SoundQueue<S, O> {
    /// A copy of the source at position `idx`; a position past the end is
    /// refused.
    pub fn clone_sound(&self, idx: usize) -> (r: Result<S, OutOfBounds>)
        ensures
            r is Ok <==> idx < self.sources().len(),
            r matches Ok(s) ==> cloned(self.sources()[idx as int], s),
            r matches Err(e) ==> e == (OutOfBounds { index: idx, len: self.sources().len() as usize }),
    {
        if idx == 0 {
            return Ok(self.silent_source.clone());
        }
        if idx - 1 >= self.sources.len() {
            return Err(OutOfBounds { index: idx, len: self.sources.len() + 1 });
        }
        Ok(self.sources[idx - 1].clone())
    }
}

impl<S, O: Clone> SoundQueue<S, O> {
    /// A copy of the oscillator at position `idx`; a position past the end is
    /// refused.
    pub fn clone_osc(&self, idx: usize) -> (r: Result<O, OutOfBounds>)
        ensures
            r is Ok <==> idx < self.oscillators().len(),
            r matches Ok(o) ==> cloned(self.oscillators()[idx as int], o),
            r matches Err(e) ==> e == (OutOfBounds { index: idx, len: self.oscillators().len() as usize }),
    {
        if idx == 0 {
            return Ok(self.silent_oscillator.clone());
        }
        if idx - 1 >= self.oscillators.len() {
            return Err(OutOfBounds { index: idx, len: self.oscillators.len() + 1 });
        }
        Ok(self.oscillators[idx - 1].clone())
    }
}

/// Pushing a source onto a queue of `n` sources: the position given back
/// is `n`, the queue then holds `n + 1` sources, position `n` holds the
/// pushed source (so `clone_sound(n)` succeeds with a copy of it), every
/// position below `n` still holds what it held, and the oscillators are
/// untouched. `after` and `idx` are what `push_sound` leaves and gives; the
/// queue must still have room for a count that fits in a `usize`, as a
/// vector's length must.
pub proof fn lemma_push_sound_law<S, O>(before: SoundQueue<S, O>, after: SoundQueue<S, O>, sound: S, idx: usize)
    requires
        before.sources().len() < usize::MAX,
        after.sources() == before.sources().push(sound),
        after.oscillators() == before.oscillators(),
        idx == before.sources().len(),
    ensures
        idx == before.sources().len(),
        after.sources().len() == idx + 1,
        after.sources().len() <= usize::MAX,
        idx < after.sources().len() && after.sources()[idx as int] == sound,
        forall|i: int| 0 <= i < idx ==> #[trigger] after.sources()[i] == before.sources()[i],
        after.oscillators() == before.oscillators(),
        after.sources()[0] == before.sources()[0],
{
    lemma_silent_entries_kept(before);
}

/// Reading back what was pushed: after a source is pushed, the position that
/// `push_sound` returned holds it, every earlier position still holds what it
/// held, and position 0 still holds the silent source.
pub proof fn lemma_push_then_read<S>(before: Seq<S>, sound: S)
    requires
        before.len() >= 1,
    ensures
        before.push(sound)[before.len() as int] == sound,
        forall|i: int| 0 <= i < before.len() ==> #[trigger] before.push(sound)[i] == before[i],
        before.push(sound)[0] == before[0],
        before.push(sound).len() == before.len() + 1,
{
}

} // verus!
