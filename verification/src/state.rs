use vstd::prelude::*;

verus! {

/// The counts of the C clock API that a clock holds: `clk_get()` references,
/// `clk_prepare()` counts and `clk_enable()` counts, in that order.
pub type Counts = (int, int, int);

/// Whether counts are ones that a single clock handle can hold: at most one
/// reference, and enabled only while prepared, prepared only while referenced.
pub open spec fn counts_consistent(c: Counts) -> bool {
    0 <= c.2 <= c.1 <= c.0 <= 1
}

/// A trait representing the different states that a clock can be in.
pub trait ClkState: crate::sealed::Sealed {
    /// Whether the clock should be disabled when dropped.
    const DISABLE_ON_DROP: bool;

    /// Whether the clock should be unprepared when dropped.
    const UNPREPARE_ON_DROP: bool;

    /// The counts that a clock in this state holds.
    spec fn held() -> Counts;

    /// A clock in this state holds one reference and consistent counts, and
    /// what it undoes when dropped is exactly what it holds.
    proof fn lemma_held()
        ensures
            Self::held().0 == 1,
            counts_consistent(Self::held()),
            Self::DISABLE_ON_DROP <==> Self::held().2 == 1,
            Self::UNPREPARE_ON_DROP <==> Self::held().1 == 1,
    ;
}

/// A state where the clock is not prepared and not enabled.
pub struct Unprepared;

/// A state where the clock is prepared but not enabled.
pub struct Prepared;

/// A state where the clock is both prepared and enabled.
pub struct Enabled;

impl ClkState for Unprepared {
    const DISABLE_ON_DROP: bool = false;

    const UNPREPARE_ON_DROP: bool = false;

    open spec fn held() -> Counts {
        (1, 0, 0)
    }

    proof fn lemma_held() {
    }
}

impl ClkState for Prepared {
    const DISABLE_ON_DROP: bool = false;

    const UNPREPARE_ON_DROP: bool = true;

    open spec fn held() -> Counts {
        (1, 1, 0)
    }

    proof fn lemma_held() {
    }
}

impl ClkState for Enabled {
    const DISABLE_ON_DROP: bool = true;

    const UNPREPARE_ON_DROP: bool = true;

    open spec fn held() -> Counts {
        (1, 1, 1)
    }

    proof fn lemma_held() {
    }
}

} // verus!
