use vstd::prelude::*;

use crate::maidenhead_locator::MaidenheadLocator;
use crate::text::{opt_view, trim, trim_str};

verus! {

/// The length of the locator computed for a geocoded address.
pub const DEFAULT_MAIDENHEAD_LEN: usize = 6;

/// The address a site keeps: trimmed; none when nothing is left.
pub open spec fn cleaned_address(address: Option<Seq<char>>) -> Option<Seq<char>> {
    match address {
        Some(a) => if trim(a).len() == 0 {
            None
        } else {
            Some(trim(a))
        },
        None => None,
    }
}

/// Trims an address and drops it when nothing is left.
pub fn clean_address(address: Option<String>) -> (r: Option<String>)
    ensures
        opt_view(r) == cleaned_address(opt_view(address)),
{
    match address {
        Some(a) => {
            let t = trim_str(a.as_str());
            if t.unicode_len() == 0 {
                None
            } else {
                Some(t)
            }
        },
        None => None,
    }
}

/// Where the position of a site comes from.
pub enum LocationSource {
    /// The site has a locator: its centre is the position, and the cleaned
    /// address is kept.
    Locator { address: Option<String>, locator: MaidenheadLocator },
    /// The site has no locator but an address, which is to be geocoded.
    Geocode { address: String },
    /// The site has neither: nothing is known of its position.
    Nothing,
}

/// Decides where the position of a site comes from: a locator wins; else a
/// (cleaned) address is geocoded; else nothing is known.
pub fn location_source(address: Option<String>, maidenhead: Option<MaidenheadLocator>) -> (r:
    LocationSource)
    ensures
        match maidenhead {
            Some(m) => r matches LocationSource::Locator { address: a, locator } && opt_view(a)
                == cleaned_address(opt_view(address)) && locator == m,
            None => match cleaned_address(opt_view(address)) {
                Some(a) => r matches LocationSource::Geocode { address: g } && g@ == a,
                None => r is Nothing,
            },
        },
{
    let address = clean_address(address);
    match maidenhead {
        Some(m) => LocationSource::Locator { address, locator: m },
        None => match address {
            Some(a) => LocationSource::Geocode { address: a },
            None => LocationSource::Nothing,
        },
    }
}

} // verus!
