use vstd::prelude::*;

verus! {

/// The CHIRP channel file download.
pub struct ChirpExportPath;

} // verus!
