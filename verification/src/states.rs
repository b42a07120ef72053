use vstd::prelude::*;

verus! {

/// The state a node of the restaurant is in.
#[derive(Debug, Hash, PartialEq, Eq, Structural, Clone, Copy)]
pub enum States {
    // General states
    Initializing,
    NotResponding,
    Dead,
    // Philosopher states
    PhilosopherThinking,
    PhilosopherHungry,
    PhilosopherEating,
    // Cutlery states; the flag tells whether a philosopher holds the cutlery
    CutleryClean(bool),
    CutleryDirty(bool),
    CutleryStatsClean,
    CutleryStatsDirty,
    // Waiter states
    WaiterActive,
}

impl States {
    /// The state is a clean piece of cutlery.
    pub open spec fn spec_is_clean(self) -> bool {
        self is CutleryClean
    }

    /// The state is a piece of cutlery held by a philosopher.
    pub open spec fn spec_is_used(self) -> bool {
        self == States::CutleryClean(true) || self == States::CutleryDirty(true)
    }

    pub fn is_clean(&self) -> (r: bool)
        ensures
            r == self.spec_is_clean(),
            r == (*self == States::CutleryClean(true) || *self == States::CutleryClean(false)),
    {
        match self {
            States::CutleryClean(_) => true,
            _ => false,
        }
    }

    /// Every state that is not a clean piece of cutlery counts as dirty.
    pub fn is_dirty(&self) -> (r: bool)
        ensures
            r == !self.spec_is_clean(),
            r == !(*self == States::CutleryClean(true) || *self == States::CutleryClean(false)),
    {
        !self.is_clean()
    }

    /// Tells whether a philosopher holds this piece of cutlery.
    pub fn is_used(&self) -> (r: bool)
        ensures
            r == self.spec_is_used(),
            r ==> *self is CutleryClean || *self is CutleryDirty,
            *self == States::CutleryClean(true) ==> r,
            *self == States::CutleryDirty(true) ==> r,
            *self == States::CutleryClean(false) ==> !r,
            *self == States::CutleryDirty(false) ==> !r,
    {
        match self {
            States::CutleryClean(true) | States::CutleryDirty(true) => true,
            _ => false,
        }
    }
}

/// A clean piece of cutlery is never dirty and the other way round; only a
/// piece of cutlery can be held, and it is held exactly when its flag says
/// so.
pub proof fn lemma_cutlery_flags(s: States, held: bool)
    ensures
        States::CutleryClean(held).spec_is_clean(),
        !States::CutleryDirty(held).spec_is_clean(),
        States::CutleryClean(held).spec_is_used() == held,
        States::CutleryDirty(held).spec_is_used() == held,
        !(s is CutleryClean) && !(s is CutleryDirty) ==> !s.spec_is_used() && !s.spec_is_clean(),
{
}

} // verus!
