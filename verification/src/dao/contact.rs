use vstd::prelude::*;

verus! {

/// Whether a contact is an organization or a person.
#[derive(Debug, Copy, Clone, PartialEq, Eq, Structural)]
pub enum ContactKind {
    Organization,
    Individual,
}

impl ContactKind {
    /// The text the database stores for the value.
    pub open spec fn sql_text(self) -> Seq<char> {
        match self {
            ContactKind::Organization => seq!['o', 'r', 'g', 'a', 'n', 'i', 'z', 'a', 't', 'i', 'o', 'n'],
            ContactKind::Individual => seq!['i', 'n', 'd', 'i', 'v', 'i', 'd', 'u', 'a', 'l'],
        }
    }

    /// The value a stored text names, if any.
    pub open spec fn from_sql_spec(t: Seq<char>) -> Option<ContactKind> {
        if t == seq!['o', 'r', 'g', 'a', 'n', 'i', 'z', 'a', 't', 'i', 'o', 'n'] {
            Some(ContactKind::Organization)
        } else if t == seq!['i', 'n', 'd', 'i', 'v', 'i', 'd', 'u', 'a', 'l'] {
            Some(ContactKind::Individual)
        } else {
            None
        }
    }

    /// The text the database stores for the value.
    pub fn to_sql_text(&self) -> (r: &'static str)
        ensures
            r@ == self.sql_text(),
    {
        proof {
            reveal_strlit("organization");
            reveal_strlit("individual");
        }
        match self {
            ContactKind::Organization => "organization",
            ContactKind::Individual => "individual",
        }
    }

    /// Reads a stored text; `None` for a text that names no value.
    pub fn from_sql_text(t: &str) -> (r: Option<ContactKind>)
        ensures
            r == ContactKind::from_sql_spec(t@),
    {
        proof {
            reveal_strlit("organization");
            reveal_strlit("individual");
        }
        if crate::text::str_eq(t, "organization") {
            proof {
                assert("organization"@ =~= seq!['o', 'r', 'g', 'a', 'n', 'i', 'z', 'a', 't', 'i', 'o', 'n']);
            }
            Some(ContactKind::Organization)
        } else if crate::text::str_eq(t, "individual") {
            proof {
                assert("individual"@ =~= seq!['i', 'n', 'd', 'i', 'v', 'i', 'd', 'u', 'a', 'l']);
            }
            Some(ContactKind::Individual)
        } else {
            proof {
                assert("organization"@ =~= seq!['o', 'r', 'g', 'a', 'n', 'i', 'z', 'a', 't', 'i', 'o', 'n']);
                assert("individual"@ =~= seq!['i', 'n', 'd', 'i', 'v', 'i', 'd', 'u', 'a', 'l']);
            }
            None
        }
    }
}

/// Every contact kind survives being stored as text and read back, and a
/// stored text reads back only as the value that is stored as it.
pub proof fn lemma_contact_kind_sql_roundtrip(value: ContactKind, t: Seq<char>)
    ensures
        ContactKind::from_sql_spec(value.sql_text()) == Some(value),
        ContactKind::from_sql_spec(t) matches Some(v) ==> v.sql_text() == t,
{
    match value {
        ContactKind::Organization => {
            assert(seq!['o', 'r', 'g', 'a', 'n', 'i', 'z', 'a', 't', 'i', 'o', 'n'] != seq!['i', 'n', 'd', 'i', 'v', 'i', 'd', 'u', 'a', 'l']) by {
                assert(seq!['o', 'r', 'g', 'a', 'n', 'i', 'z', 'a', 't', 'i', 'o', 'n'].len() != seq!['i', 'n', 'd', 'i', 'v', 'i', 'd', 'u', 'a', 'l'].len());
            }
        },
        ContactKind::Individual => {
            assert(seq!['i', 'n', 'd', 'i', 'v', 'i', 'd', 'u', 'a', 'l'] != seq!['o', 'r', 'g', 'a', 'n', 'i', 'z', 'a', 't', 'i', 'o', 'n']) by {
                assert(seq!['i', 'n', 'd', 'i', 'v', 'i', 'd', 'u', 'a', 'l'].len() != seq!['o', 'r', 'g', 'a', 'n', 'i', 'z', 'a', 't', 'i', 'o', 'n'].len());
            }
        },
    }
}

} // verus!
