use vstd::prelude::*;

use crate::text::{opt_view, trim};

verus! {

/// One of the logged-in user's saved locations.
pub struct UserLocationPath {
    pub id: i64,
}

/// A form field that counts only when it holds more than whitespace; it is
/// then kept as typed.
pub fn non_blank(field: Option<String>) -> (r: Option<String>)
    ensures
        opt_view(r) == match opt_view(field) {
            Some(t) => if trim(t).len() == 0 {
                None
            } else {
                Some(t)
            },
            None => None,
        },
{
    match field {
        Some(t) => {
            let trimmed = crate::text::trim_str(t.as_str());
            if trimmed.unicode_len() == 0 {
                None
            } else {
                Some(t)
            }
        },
        None => None,
    }
}

} // verus!
