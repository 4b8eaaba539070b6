use vstd::prelude::*;

verus! {

/// Closes `ClkState` to the states of this crate.
pub trait Sealed {}

impl Sealed for crate::state::Unprepared {}

impl Sealed for crate::state::Prepared {}

impl Sealed for crate::state::Enabled {}

} // verus!
