//! The general commands: threads.

use vstd::prelude::*;

verus! {

/// The category that threads are created in, and live in until they are
/// archived: the id of that category.
#[derive(Clone, Copy, Debug, PartialEq, Eq, Structural)]
pub struct ThreadCategory {
    pub id: u64,
}

} // verus!
