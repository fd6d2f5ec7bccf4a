//! Playing one source after another.
use vstd::prelude::*;

verus! {

/// Where an `After` stands: still on its first source, on its second, or
/// done with both.
#[derive(Clone, Copy, Debug, PartialEq, Eq, Structural)]
pub enum AfterState {
    PlayingFirst,
    PlayingSecond,
    Finished,
}

/// Which source the next sample is to be asked from, if any.
#[derive(Clone, Copy, Debug, PartialEq, Eq, Structural)]
pub enum AfterAction {
    AskFirst,
    AskSecond,
    Silence,
}

impl AfterState {
    /// How far the sequence has gone: 0 on the first source, 1 on the second,
    /// 2 when finished.
    pub open spec fn rank(self) -> int {
        match self {
            AfterState::PlayingFirst => 0,
            AfterState::PlayingSecond => 1,
            AfterState::Finished => 2,
        }
    }

    /// The source a sample is asked from in this state.
    pub open spec fn asked(self) -> AfterAction {
        match self {
            AfterState::PlayingFirst => AfterAction::AskFirst,
            AfterState::PlayingSecond => AfterAction::AskSecond,
            AfterState::Finished => AfterAction::Silence,
        }
    }

    /// The state after a source was asked for a sample: unchanged when it
    /// gave one; when it ran dry, on to the second source after the first,
    /// and finished after the second.
    pub open spec fn after_ask(self, ran_dry: bool) -> AfterState {
        if !ran_dry {
            self
        } else {
            match self {
                AfterState::PlayingFirst => AfterState::PlayingSecond,
                _ => AfterState::Finished,
            }
        }
    }

    /// The source to ask for the next sample: the first one while it plays,
    /// then the second one, then none.
    pub fn action(&self) -> (r: AfterAction)
        ensures
            r == self.asked(),
    {
        match self {
            AfterState::PlayingFirst => AfterAction::AskFirst,
            AfterState::PlayingSecond => AfterAction::AskSecond,
            AfterState::Finished => AfterAction::Silence,
        }
    }

    /// The source that was asked has run out. When the first one ran out,
    /// the same sample is asked from the second one, whatever it gives;
    /// when the second one ran out, the sequence is finished and silent.
    pub fn ran_dry(&mut self) -> (r: AfterAction)
        ensures
            *old(self) == AfterState::PlayingFirst ==> *final(self) == AfterState::PlayingSecond
                && r == AfterAction::AskSecond,
            *old(self) != AfterState::PlayingFirst ==> *final(self) == AfterState::Finished
                && r == AfterAction::Silence,
            *old(self) == AfterState::Finished ==> *final(self) == AfterState::Finished,
            *final(self) == old(self).after_ask(true),
            r == final(self).asked(),
            final(self).rank() >= old(self).rank(),
    {
        match self {
            AfterState::PlayingFirst => {
                *self = AfterState::PlayingSecond;
                AfterAction::AskSecond
            },
            _ => {
                *self = AfterState::Finished;
                AfterAction::Silence
            },
        }
    }
}

/// The state reached from `start` after a run of asks, each of which ran
/// dry or not, in order.
pub open spec fn state_after(start: AfterState, ran_dry: Seq<bool>) -> AfterState
    decreases ran_dry.len(),
{
    if ran_dry.len() == 0 {
        start
    } else {
        state_after(start, ran_dry.drop_last()).after_ask(ran_dry.last())
    }
}

/// Playing one source after another never goes back: whatever the sources
/// give on later asks, the sequence only moves forward; once the first
/// source has run dry it is never asked again, and once both have run dry
/// only silence follows.
pub proof fn lemma_after_never_goes_back(start: AfterState, earlier: Seq<bool>, later: Seq<bool>)
    ensures
        state_after(start, earlier + later).rank() >= state_after(start, earlier).rank(),
        state_after(start, earlier) != AfterState::PlayingFirst ==> state_after(start, earlier + later).asked()
            != AfterAction::AskFirst,
        state_after(start, earlier) == AfterState::Finished ==> state_after(start, earlier + later).asked()
            == AfterAction::Silence,
    decreases later.len(),
{
    if later.len() == 0 {
        assert(earlier + later =~= earlier);
    } else {
        assert((earlier + later).drop_last() =~= earlier + later.drop_last());
        assert((earlier + later).last() == later.last());
        lemma_after_never_goes_back(start, earlier, later.drop_last());
    }
}

/// Starting on the first source, the first source is asked exactly until
/// it first runs dry: while every ask so far gave a sample, the first source
/// is still the one asked.
pub proof fn lemma_first_until_dry(ran_dry: Seq<bool>)
    requires
        forall|i: int| 0 <= i < ran_dry.len() ==> !(#[trigger] ran_dry[i]),
    ensures
        state_after(AfterState::PlayingFirst, ran_dry) == AfterState::PlayingFirst,
    decreases ran_dry.len(),
{
    if ran_dry.len() > 0 {
        assert(!ran_dry[ran_dry.len() - 1]);
        lemma_first_until_dry(ran_dry.drop_last());
    }
}

/// Plays `first` until it runs out, then `second` until it runs out, then
/// nothing.
#[derive(Clone, Debug)]
pub struct After<T, U> {
    pub first: T,
    pub second: U,
    pub current: AfterState,
}

impl<T, U> After<T, U> {
    /// `second` after `first`, starting on `first`.
    pub fn new(first: T, second: U) -> (r: Self)
        ensures
            r.first == first,
            r.second == second,
            r.current == AfterState::PlayingFirst,
    {
        Self { first, second, current: AfterState::PlayingFirst }
    }
}

} // verus!
