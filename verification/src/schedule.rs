//! The update sets and the order in which they run.

use vstd::prelude::*;

verus! {

/// High-level groupings of systems that run on every update.
///
/// A new variant has to be given its place in [`AppSet::run_order`]; until it
/// has one, [`lemma_every_set_is_ordered`] does not verify.
#[derive(Clone, Copy, Debug, PartialEq, Eq, Hash, Structural)]
pub enum AppSet {
    /// Tick timers.
    TickTimers,
    /// Record player input.
    RecordInput,
    /// Do everything else.
    Update,
}

impl AppSet {
    /// The sets as a chain: each set runs after the one before it.
    pub open spec fn run_order() -> Seq<AppSet> {
        seq![AppSet::TickTimers, AppSet::RecordInput, AppSet::Update]
    }

    /// Place of the set in an update, counted from zero.
    pub open spec fn rank(self) -> nat {
        match self {
            AppSet::TickTimers => 0,
            AppSet::RecordInput => 1,
            AppSet::Update => 2,
        }
    }

    /// Whether the systems of `self` have run when those of `later` start.
    pub open spec fn precedes(self, later: AppSet) -> bool {
        self.rank() < later.rank()
    }

    /// The sets in the order in which they run.
    pub fn ordered() -> (sets: [AppSet; 3])
        ensures
            sets@ == Self::run_order(),
    {
        let sets = [AppSet::TickTimers, AppSet::RecordInput, AppSet::Update];
        assert(sets@ =~= Self::run_order());
        sets
    }

    /// Place of the set in [`AppSet::ordered`].
    pub fn position(self) -> (place: usize)
        ensures
            place == self.rank(),
    {
        match self {
            AppSet::TickTimers => 0,
            AppSet::RecordInput => 1,
            AppSet::Update => 2,
        }
    }
}

/// Every set stands in the run order, at the place that is its rank, and
/// nowhere else.
pub proof fn lemma_every_set_is_ordered(set: AppSet)
    ensures
        set.rank() < AppSet::run_order().len(),
        AppSet::run_order()[set.rank() as int] == set,
        forall|i: int|
            0 <= i < AppSet::run_order().len() && AppSet::run_order()[i] == set ==> i
                == set.rank(),
{
}

/// The run order is a chain: of two sets in it, the one that stands first
/// precedes the other.
pub proof fn lemma_run_order_is_a_chain(i: int, j: int)
    requires
        0 <= i < AppSet::run_order().len(),
        0 <= j < AppSet::run_order().len(),
    ensures
        AppSet::run_order()[i].precedes(AppSet::run_order()[j]) <==> i < j,
{
}

/// The sets are strictly and totally ordered: no set precedes itself, of two
/// different sets exactly one precedes the other, and a set that precedes a
/// second one precedes every set that the second one precedes.
pub proof fn lemma_precedes_is_a_strict_total_order(a: AppSet, b: AppSet, c: AppSet)
    ensures
        !a.precedes(a),
        a != b ==> (a.precedes(b) <==> !b.precedes(a)),
        a.precedes(b) && b.precedes(c) ==> a.precedes(c),
{
}

} // verus!
