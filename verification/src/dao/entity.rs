use vstd::prelude::*;

verus! {

/// Whether an entity is a repeater or a contact.
#[derive(Debug, Copy, Clone, PartialEq, Eq, Structural)]
pub enum EntityKind {
    Repeater,
    Contact,
}

impl EntityKind {
    /// The text the database stores for the value.
    pub open spec fn sql_text(self) -> Seq<char> {
        match self {
            EntityKind::Repeater => seq!['r', 'e', 'p', 'e', 'a', 't', 'e', 'r'],
            EntityKind::Contact => seq!['c', 'o', 'n', 't', 'a', 'c', 't'],
        }
    }

    /// The value a stored text names, if any.
    pub open spec fn from_sql_spec(t: Seq<char>) -> Option<EntityKind> {
        if t == seq!['r', 'e', 'p', 'e', 'a', 't', 'e', 'r'] {
            Some(EntityKind::Repeater)
        } else if t == seq!['c', 'o', 'n', 't', 'a', 'c', 't'] {
            Some(EntityKind::Contact)
        } else {
            None
        }
    }

    /// The text the database stores for the value.
    pub fn to_sql_text(&self) -> (r: &'static str)
        ensures
            r@ == self.sql_text(),
    {
        proof {
            reveal_strlit("repeater");
            reveal_strlit("contact");
        }
        match self {
            EntityKind::Repeater => "repeater",
            EntityKind::Contact => "contact",
        }
    }

    /// Reads a stored text; `None` for a text that names no value.
    pub fn from_sql_text(t: &str) -> (r: Option<EntityKind>)
        ensures
            r == EntityKind::from_sql_spec(t@),
    {
        proof {
            reveal_strlit("repeater");
            reveal_strlit("contact");
        }
        if crate::text::str_eq(t, "repeater") {
            proof {
                assert("repeater"@ =~= seq!['r', 'e', 'p', 'e', 'a', 't', 'e', 'r']);
            }
            Some(EntityKind::Repeater)
        } else if crate::text::str_eq(t, "contact") {
            proof {
                assert("contact"@ =~= seq!['c', 'o', 'n', 't', 'a', 'c', 't']);
            }
            Some(EntityKind::Contact)
        } else {
            proof {
                assert("repeater"@ =~= seq!['r', 'e', 'p', 'e', 'a', 't', 'e', 'r']);
                assert("contact"@ =~= seq!['c', 'o', 'n', 't', 'a', 'c', 't']);
            }
            None
        }
    }
}

/// Every entity kind survives being stored as text and read back, and a
/// stored text reads back only as the value that is stored as it.
pub proof fn lemma_entity_kind_sql_roundtrip(value: EntityKind, t: Seq<char>)
    ensures
        EntityKind::from_sql_spec(value.sql_text()) == Some(value),
        EntityKind::from_sql_spec(t) matches Some(v) ==> v.sql_text() == t,
{
    match value {
        EntityKind::Repeater => {
            assert(seq!['r', 'e', 'p', 'e', 'a', 't', 'e', 'r'] != seq!['c', 'o', 'n', 't', 'a', 'c', 't']) by {
                assert(seq!['r', 'e', 'p', 'e', 'a', 't', 'e', 'r'].len() != seq!['c', 'o', 'n', 't', 'a', 'c', 't'].len());
            }
        },
        EntityKind::Contact => {
            assert(seq!['c', 'o', 'n', 't', 'a', 'c', 't'] != seq!['r', 'e', 'p', 'e', 'a', 't', 'e', 'r']) by {
                assert(seq!['c', 'o', 'n', 't', 'a', 'c', 't'].len() != seq!['r', 'e', 'p', 'e', 'a', 't', 'e', 'r'].len());
            }
        },
    }
}

} // verus!
