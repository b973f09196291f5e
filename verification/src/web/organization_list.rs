use vstd::prelude::*;

verus! {

/// The list of organizations.
pub struct OrganizationListPath;

} // verus!
