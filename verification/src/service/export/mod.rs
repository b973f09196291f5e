use vstd::prelude::*;

pub mod chirp;

verus! {

/// What a channel export includes.
#[derive(Debug, Clone, Copy)]
pub struct ExportOptions {
    /// Whether the repeater's access (receive) tone is exported.
    pub export_rx_tone: bool,
}

impl ExportOptions {
    /// The default options: export the access tone too.
    pub fn default() -> (r: ExportOptions)
        ensures
            r.export_rx_tone,
    {
        ExportOptions { export_rx_tone: true }
    }
}

} // verus!
