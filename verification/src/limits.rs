//! The result-count bounds served in the capability document.
use vstd::prelude::*;
use crate::types::Limits;

verus! {

/// The bounds this indexer serves: at most 1000 results, 50 by default.
pub fn search_limits() -> (r: Limits)
    ensures
        r.max == 1000u32,
        r.default == 50u32,
{
    Limits { max: 1000, default: 50 }
}

} // verus!
