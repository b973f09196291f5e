use vstd::prelude::*;

use crate::dao::call_sign::{CallSign, CallSignKind};
use crate::text::{trim, trim_str, to_uppercase, unicode_upper};

verus! {

/// How many call signs a search returns at most.
pub const SEARCH_LIMIT: i64 = 50;

/// The call sign search.
pub struct CallSignSearchPath;

/// The search's query string.
pub struct CallSignSearchQuery {
    pub q: Option<String>,
}

/// One call sign found.
pub struct CallSignSearchResult {
    pub call_sign: String,
    pub kind: String,
}

/// The call signs found.
pub struct CallSignSearchResponse {
    pub results: Vec<CallSignSearchResult>,
}

/// The label a search result shows for a call sign's kind.
pub open spec fn kind_label_text(kind: CallSignKind) -> Seq<char> {
    match kind {
        CallSignKind::Repeater => seq!['r', 'e', 'p', 'e', 'a', 't', 'e', 'r'],
        CallSignKind::Contact => seq!['o', 'r', 'g', 'a', 'n', 'i', 'z', 'a', 't', 'i', 'o', 'n'],
    }
}

/// The label a search result shows for a call sign's kind: contacts are
/// organizations.
pub fn call_sign_kind_label(kind: CallSignKind) -> (r: &'static str)
    ensures
        r@ == kind_label_text(kind),
{
    proof {
        reveal_strlit("repeater");
        reveal_strlit("organization");
    }
    match kind {
        CallSignKind::Repeater => "repeater",
        CallSignKind::Contact => "organization",
    }
}

/// The call sign prefix a query searches for: the query trimmed and in upper
/// case; none, and so no results, when there is no query or it is blank.
pub fn search_prefix(query: &CallSignSearchQuery) -> (r: Option<String>)
    ensures
        match query.q {
            None => r is None,
            Some(q) => if trim(q@).len() == 0 {
                r is None
            } else {
                r matches Some(p) && p@ == unicode_upper(trim(q@))
            },
        },
{
    match &query.q {
        None => None,
        Some(raw) => {
            let normalized = trim_str(raw.as_str());
            if normalized.as_str().is_empty() {
                None
            } else {
                Some(to_uppercase(normalized.as_str()))
            }
        },
    }
}

/// The search result for a call sign found.
pub fn search_result(row: CallSign) -> (r: CallSignSearchResult)
    ensures
        r.call_sign == row.value,
        r.kind@ == kind_label_text(row.kind),
{
    CallSignSearchResult {
        call_sign: row.value,
        kind: crate::text::owned(call_sign_kind_label(row.kind)),
    }
}

} // verus!
