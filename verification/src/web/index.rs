use vstd::prelude::*;

verus! {

/// The home page.
pub struct HomePath;

/// The repeater list page.
pub struct RepeatersPath;

/// The page of one repeater.
pub struct RepeaterDetailPath {
    pub call_sign: String,
}

} // verus!
