use vstd::prelude::*;

verus! {

/// The logged-in user's own page.
pub struct MyPagePath;

} // verus!
