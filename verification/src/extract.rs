//! The request body that handlers receive once it has been parsed and has
//! passed its field rules.

use vstd::prelude::*;

verus! {

/// A request body that has been parsed and has passed its field rules.
#[derive(Debug, Clone, Copy, Default)]
pub struct ValidatedJson<T>(pub T);

impl<T> ValidatedJson<T> {
    pub fn into_inner(self) -> (t: T)
        ensures
            t == self.0,
    {
        self.0
    }
}

} // verus!
