//! Tracked website records.

use vstd::prelude::*;

verus! {

/// A tracked website record as held by the store.
#[derive(Debug)]
pub struct Website {
    pub id: String,
    pub url: String,
    pub is_valid: bool,
}

impl Website {
    /// The stored liveness flag disagrees with a freshly observed one.
    pub fn is_stale(&self, is_valid: bool) -> (r: bool)
        ensures
            r == (self.is_valid != is_valid),
    {
        self.is_valid != is_valid
    }
}

} // verus!
