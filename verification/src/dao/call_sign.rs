use vstd::prelude::*;

verus! {

/// Whether a call sign belongs to a repeater or to a contact.
#[derive(Debug, Copy, Clone, PartialEq, Eq, Structural)]
pub enum CallSignKind {
    Repeater,
    Contact,
}

impl CallSignKind {
    /// The text the database stores for the value.
    pub open spec fn sql_text(self) -> Seq<char> {
        match self {
            CallSignKind::Repeater => seq!['r', 'e', 'p', 'e', 'a', 't', 'e', 'r'],
            CallSignKind::Contact => seq!['c', 'o', 'n', 't', 'a', 'c', 't'],
        }
    }

    /// The value a stored text names, if any.
    pub open spec fn from_sql_spec(t: Seq<char>) -> Option<CallSignKind> {
        if t == seq!['r', 'e', 'p', 'e', 'a', 't', 'e', 'r'] {
            Some(CallSignKind::Repeater)
        } else if t == seq!['c', 'o', 'n', 't', 'a', 'c', 't'] {
            Some(CallSignKind::Contact)
        } else {
            None
        }
    }

    /// The text the database stores for the value.
    pub fn to_sql_text(&self) -> (r: &'static str)
        ensures
            r@ == self.sql_text(),
    {
        proof {
            reveal_strlit("repeater");
            reveal_strlit("contact");
        }
        match self {
            CallSignKind::Repeater => "repeater",
            CallSignKind::Contact => "contact",
        }
    }

    /// Reads a stored text; `None` for a text that names no value.
    pub fn from_sql_text(t: &str) -> (r: Option<CallSignKind>)
        ensures
            r == CallSignKind::from_sql_spec(t@),
    {
        proof {
            reveal_strlit("repeater");
            reveal_strlit("contact");
        }
        if crate::text::str_eq(t, "repeater") {
            proof {
                assert("repeater"@ =~= seq!['r', 'e', 'p', 'e', 'a', 't', 'e', 'r']);
            }
            Some(CallSignKind::Repeater)
        } else if crate::text::str_eq(t, "contact") {
            proof {
                assert("contact"@ =~= seq!['c', 'o', 'n', 't', 'a', 'c', 't']);
            }
            Some(CallSignKind::Contact)
        } else {
            proof {
                assert("repeater"@ =~= seq!['r', 'e', 'p', 'e', 'a', 't', 'e', 'r']);
                assert("contact"@ =~= seq!['c', 'o', 'n', 't', 'a', 'c', 't']);
            }
            None
        }
    }
}

/// Every call sign kind survives being stored as text and read back, and a
/// stored text reads back only as the value that is stored as it.
pub proof fn lemma_call_sign_kind_sql_roundtrip(value: CallSignKind, t: Seq<char>)
    ensures
        CallSignKind::from_sql_spec(value.sql_text()) == Some(value),
        CallSignKind::from_sql_spec(t) matches Some(v) ==> v.sql_text() == t,
{
    match value {
        CallSignKind::Repeater => {
            assert(seq!['r', 'e', 'p', 'e', 'a', 't', 'e', 'r'] != seq!['c', 'o', 'n', 't', 'a', 'c', 't']) by {
                assert(seq!['r', 'e', 'p', 'e', 'a', 't', 'e', 'r'].len() != seq!['c', 'o', 'n', 't', 'a', 'c', 't'].len());
            }
        },
        CallSignKind::Contact => {
            assert(seq!['c', 'o', 'n', 't', 'a', 'c', 't'] != seq!['r', 'e', 'p', 'e', 'a', 't', 'e', 'r']) by {
                assert(seq!['c', 'o', 'n', 't', 'a', 'c', 't'].len() != seq!['r', 'e', 'p', 'e', 'a', 't', 'e', 'r'].len());
            }
        },
    }
}

/// A call sign to register.
pub struct NewCallSign {
    pub value: String,
    pub kind: CallSignKind,
}

impl NewCallSign {
    /// A repeater's call sign.
    pub fn new_repeater(call_sign: String) -> (r: NewCallSign)
        ensures
            r.kind == CallSignKind::Repeater,
            r.value == call_sign,
    {
        NewCallSign { kind: CallSignKind::Repeater, value: call_sign }
    }

    /// A contact's call sign.
    pub fn new_contact(call_sign: String) -> (r: NewCallSign)
        ensures
            r.kind == CallSignKind::Contact,
            r.value == call_sign,
    {
        NewCallSign { kind: CallSignKind::Contact, value: call_sign }
    }
}

/// A registered call sign.
pub struct CallSign {
    pub value: String,
    pub kind: CallSignKind,
}

} // verus!
