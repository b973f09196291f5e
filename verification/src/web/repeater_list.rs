use vstd::prelude::*;

verus! {

/// The list of repeaters.
pub struct RepeaterListPath;

} // verus!
