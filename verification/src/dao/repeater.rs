use vstd::prelude::*;

verus! {

/// The modulation of a repeater.
#[derive(Debug, Copy, Clone, PartialEq, Eq, Structural)]
pub enum Modulation {
    FmNarrow,
    FmWide,
    Am,
    Lsb,
    Usb,
    Dmr,
}

/// How a repeater's subtone is given.
#[derive(Debug, Copy, Clone, PartialEq, Eq, Structural)]
pub enum SubtoneMode {
    NoTone,
    CTCSS,
    DCS,
}

impl Modulation {
    /// The text the database stores for the value.
    pub open spec fn sql_text(self) -> Seq<char> {
        match self {
            Modulation::FmNarrow => seq!['F', 'm', 'N', 'a', 'r', 'r', 'o', 'w'],
            Modulation::FmWide => seq!['F', 'm', 'W', 'i', 'd', 'e'],
            Modulation::Am => seq!['A', 'm'],
            Modulation::Lsb => seq!['L', 's', 'b'],
            Modulation::Usb => seq!['U', 's', 'b'],
            Modulation::Dmr => seq!['D', 'm', 'r'],
        }
    }

    /// The value a stored text names, if any.
    pub open spec fn from_sql_spec(t: Seq<char>) -> Option<Modulation> {
        if t == seq!['F', 'm', 'N', 'a', 'r', 'r', 'o', 'w'] {
            Some(Modulation::FmNarrow)
        } else if t == seq!['F', 'm', 'W', 'i', 'd', 'e'] {
            Some(Modulation::FmWide)
        } else if t == seq!['A', 'm'] {
            Some(Modulation::Am)
        } else if t == seq!['L', 's', 'b'] {
            Some(Modulation::Lsb)
        } else if t == seq!['U', 's', 'b'] {
            Some(Modulation::Usb)
        } else if t == seq!['D', 'm', 'r'] {
            Some(Modulation::Dmr)
        } else {
            None
        }
    }

    /// The text the database stores for the value.
    pub fn to_sql_text(&self) -> (r: &'static str)
        ensures
            r@ == self.sql_text(),
    {
        proof {
            reveal_strlit("FmNarrow");
            reveal_strlit("FmWide");
            reveal_strlit("Am");
            reveal_strlit("Lsb");
            reveal_strlit("Usb");
            reveal_strlit("Dmr");
        }
        match self {
            Modulation::FmNarrow => "FmNarrow",
            Modulation::FmWide => "FmWide",
            Modulation::Am => "Am",
            Modulation::Lsb => "Lsb",
            Modulation::Usb => "Usb",
            Modulation::Dmr => "Dmr",
        }
    }

    /// Reads a stored text; `None` for a text that names no value.
    pub fn from_sql_text(t: &str) -> (r: Option<Modulation>)
        ensures
            r == Modulation::from_sql_spec(t@),
    {
        proof {
            reveal_strlit("FmNarrow");
            reveal_strlit("FmWide");
            reveal_strlit("Am");
            reveal_strlit("Lsb");
            reveal_strlit("Usb");
            reveal_strlit("Dmr");
        }
        if crate::text::str_eq(t, "FmNarrow") {
            proof {
                assert("FmNarrow"@ =~= seq!['F', 'm', 'N', 'a', 'r', 'r', 'o', 'w']);
            }
            Some(Modulation::FmNarrow)
        } else if crate::text::str_eq(t, "FmWide") {
            proof {
                assert("FmWide"@ =~= seq!['F', 'm', 'W', 'i', 'd', 'e']);
            }
            Some(Modulation::FmWide)
        } else if crate::text::str_eq(t, "Am") {
            proof {
                assert("Am"@ =~= seq!['A', 'm']);
            }
            Some(Modulation::Am)
        } else if crate::text::str_eq(t, "Lsb") {
            proof {
                assert("Lsb"@ =~= seq!['L', 's', 'b']);
            }
            Some(Modulation::Lsb)
        } else if crate::text::str_eq(t, "Usb") {
            proof {
                assert("Usb"@ =~= seq!['U', 's', 'b']);
            }
            Some(Modulation::Usb)
        } else if crate::text::str_eq(t, "Dmr") {
            proof {
                assert("Dmr"@ =~= seq!['D', 'm', 'r']);
            }
            Some(Modulation::Dmr)
        } else {
            proof {
                assert("FmNarrow"@ =~= seq!['F', 'm', 'N', 'a', 'r', 'r', 'o', 'w']);
                assert("FmWide"@ =~= seq!['F', 'm', 'W', 'i', 'd', 'e']);
                assert("Am"@ =~= seq!['A', 'm']);
                assert("Lsb"@ =~= seq!['L', 's', 'b']);
                assert("Usb"@ =~= seq!['U', 's', 'b']);
                assert("Dmr"@ =~= seq!['D', 'm', 'r']);
            }
            None
        }
    }
}

/// Every modulation survives being stored as text and read back, and a
/// stored text reads back only as the value that is stored as it.
pub proof fn lemma_modulation_sql_roundtrip(value: Modulation, t: Seq<char>)
    ensures
        Modulation::from_sql_spec(value.sql_text()) == Some(value),
        Modulation::from_sql_spec(t) matches Some(v) ==> v.sql_text() == t,
{
    match value {
        Modulation::FmNarrow => {
            assert(seq!['F', 'm', 'N', 'a', 'r', 'r', 'o', 'w'] != seq!['F', 'm', 'W', 'i', 'd', 'e']) by {
                assert(seq!['F', 'm', 'N', 'a', 'r', 'r', 'o', 'w'].len() != seq!['F', 'm', 'W', 'i', 'd', 'e'].len());
            }
            assert(seq!['F', 'm', 'N', 'a', 'r', 'r', 'o', 'w'] != seq!['A', 'm']) by {
                assert(seq!['F', 'm', 'N', 'a', 'r', 'r', 'o', 'w'].len() != seq!['A', 'm'].len());
            }
            assert(seq!['F', 'm', 'N', 'a', 'r', 'r', 'o', 'w'] != seq!['L', 's', 'b']) by {
                assert(seq!['F', 'm', 'N', 'a', 'r', 'r', 'o', 'w'].len() != seq!['L', 's', 'b'].len());
            }
            assert(seq!['F', 'm', 'N', 'a', 'r', 'r', 'o', 'w'] != seq!['U', 's', 'b']) by {
                assert(seq!['F', 'm', 'N', 'a', 'r', 'r', 'o', 'w'].len() != seq!['U', 's', 'b'].len());
            }
            assert(seq!['F', 'm', 'N', 'a', 'r', 'r', 'o', 'w'] != seq!['D', 'm', 'r']) by {
                assert(seq!['F', 'm', 'N', 'a', 'r', 'r', 'o', 'w'].len() != seq!['D', 'm', 'r'].len());
            }
        },
        Modulation::FmWide => {
            assert(seq!['F', 'm', 'W', 'i', 'd', 'e'] != seq!['F', 'm', 'N', 'a', 'r', 'r', 'o', 'w']) by {
                assert(seq!['F', 'm', 'W', 'i', 'd', 'e'].len() != seq!['F', 'm', 'N', 'a', 'r', 'r', 'o', 'w'].len());
            }
            assert(seq!['F', 'm', 'W', 'i', 'd', 'e'] != seq!['A', 'm']) by {
                assert(seq!['F', 'm', 'W', 'i', 'd', 'e'].len() != seq!['A', 'm'].len());
            }
            assert(seq!['F', 'm', 'W', 'i', 'd', 'e'] != seq!['L', 's', 'b']) by {
                assert(seq!['F', 'm', 'W', 'i', 'd', 'e'].len() != seq!['L', 's', 'b'].len());
            }
            assert(seq!['F', 'm', 'W', 'i', 'd', 'e'] != seq!['U', 's', 'b']) by {
                assert(seq!['F', 'm', 'W', 'i', 'd', 'e'].len() != seq!['U', 's', 'b'].len());
            }
            assert(seq!['F', 'm', 'W', 'i', 'd', 'e'] != seq!['D', 'm', 'r']) by {
                assert(seq!['F', 'm', 'W', 'i', 'd', 'e'].len() != seq!['D', 'm', 'r'].len());
            }
        },
        Modulation::Am => {
            assert(seq!['A', 'm'] != seq!['F', 'm', 'N', 'a', 'r', 'r', 'o', 'w']) by {
                assert(seq!['A', 'm'].len() != seq!['F', 'm', 'N', 'a', 'r', 'r', 'o', 'w'].len());
            }
            assert(seq!['A', 'm'] != seq!['F', 'm', 'W', 'i', 'd', 'e']) by {
                assert(seq!['A', 'm'].len() != seq!['F', 'm', 'W', 'i', 'd', 'e'].len());
            }
            assert(seq!['A', 'm'] != seq!['L', 's', 'b']) by {
                assert(seq!['A', 'm'].len() != seq!['L', 's', 'b'].len());
            }
            assert(seq!['A', 'm'] != seq!['U', 's', 'b']) by {
                assert(seq!['A', 'm'].len() != seq!['U', 's', 'b'].len());
            }
            assert(seq!['A', 'm'] != seq!['D', 'm', 'r']) by {
                assert(seq!['A', 'm'].len() != seq!['D', 'm', 'r'].len());
            }
        },
        Modulation::Lsb => {
            assert(seq!['L', 's', 'b'] != seq!['F', 'm', 'N', 'a', 'r', 'r', 'o', 'w']) by {
                assert(seq!['L', 's', 'b'].len() != seq!['F', 'm', 'N', 'a', 'r', 'r', 'o', 'w'].len());
            }
            assert(seq!['L', 's', 'b'] != seq!['F', 'm', 'W', 'i', 'd', 'e']) by {
                assert(seq!['L', 's', 'b'].len() != seq!['F', 'm', 'W', 'i', 'd', 'e'].len());
            }
            assert(seq!['L', 's', 'b'] != seq!['A', 'm']) by {
                assert(seq!['L', 's', 'b'].len() != seq!['A', 'm'].len());
            }
            assert(seq!['L', 's', 'b'] != seq!['U', 's', 'b']) by {
                assert(seq!['L', 's', 'b'][0] != seq!['U', 's', 'b'][0]);
            }
            assert(seq!['L', 's', 'b'] != seq!['D', 'm', 'r']) by {
                assert(seq!['L', 's', 'b'][0] != seq!['D', 'm', 'r'][0]);
            }
        },
        Modulation::Usb => {
            assert(seq!['U', 's', 'b'] != seq!['F', 'm', 'N', 'a', 'r', 'r', 'o', 'w']) by {
                assert(seq!['U', 's', 'b'].len() != seq!['F', 'm', 'N', 'a', 'r', 'r', 'o', 'w'].len());
            }
            assert(seq!['U', 's', 'b'] != seq!['F', 'm', 'W', 'i', 'd', 'e']) by {
                assert(seq!['U', 's', 'b'].len() != seq!['F', 'm', 'W', 'i', 'd', 'e'].len());
            }
            assert(seq!['U', 's', 'b'] != seq!['A', 'm']) by {
                assert(seq!['U', 's', 'b'].len() != seq!['A', 'm'].len());
            }
            assert(seq!['U', 's', 'b'] != seq!['L', 's', 'b']) by {
                assert(seq!['U', 's', 'b'][0] != seq!['L', 's', 'b'][0]);
            }
            assert(seq!['U', 's', 'b'] != seq!['D', 'm', 'r']) by {
                assert(seq!['U', 's', 'b'][0] != seq!['D', 'm', 'r'][0]);
            }
        },
        Modulation::Dmr => {
            assert(seq!['D', 'm', 'r'] != seq!['F', 'm', 'N', 'a', 'r', 'r', 'o', 'w']) by {
                assert(seq!['D', 'm', 'r'].len() != seq!['F', 'm', 'N', 'a', 'r', 'r', 'o', 'w'].len());
            }
            assert(seq!['D', 'm', 'r'] != seq!['F', 'm', 'W', 'i', 'd', 'e']) by {
                assert(seq!['D', 'm', 'r'].len() != seq!['F', 'm', 'W', 'i', 'd', 'e'].len());
            }
            assert(seq!['D', 'm', 'r'] != seq!['A', 'm']) by {
                assert(seq!['D', 'm', 'r'].len() != seq!['A', 'm'].len());
            }
            assert(seq!['D', 'm', 'r'] != seq!['L', 's', 'b']) by {
                assert(seq!['D', 'm', 'r'][0] != seq!['L', 's', 'b'][0]);
            }
            assert(seq!['D', 'm', 'r'] != seq!['U', 's', 'b']) by {
                assert(seq!['D', 'm', 'r'][0] != seq!['U', 's', 'b'][0]);
            }
        },
    }
}

impl SubtoneMode {
    /// The text the database stores for the value.
    pub open spec fn sql_text(self) -> Seq<char> {
        match self {
            SubtoneMode::NoTone => seq!['N', 'o', 'n', 'e'],
            SubtoneMode::CTCSS => seq!['C', 'T', 'C', 'S', 'S'],
            SubtoneMode::DCS => seq!['D', 'C', 'S'],
        }
    }

    /// The value a stored text names, if any.
    pub open spec fn from_sql_spec(t: Seq<char>) -> Option<SubtoneMode> {
        if t == seq!['N', 'o', 'n', 'e'] {
            Some(SubtoneMode::NoTone)
        } else if t == seq!['C', 'T', 'C', 'S', 'S'] {
            Some(SubtoneMode::CTCSS)
        } else if t == seq!['D', 'C', 'S'] {
            Some(SubtoneMode::DCS)
        } else {
            None
        }
    }

    /// The text the database stores for the value.
    pub fn to_sql_text(&self) -> (r: &'static str)
        ensures
            r@ == self.sql_text(),
    {
        proof {
            reveal_strlit("None");
            reveal_strlit("CTCSS");
            reveal_strlit("DCS");
        }
        match self {
            SubtoneMode::NoTone => "None",
            SubtoneMode::CTCSS => "CTCSS",
            SubtoneMode::DCS => "DCS",
        }
    }

    /// Reads a stored text; `None` for a text that names no value.
    pub fn from_sql_text(t: &str) -> (r: Option<SubtoneMode>)
        ensures
            r == SubtoneMode::from_sql_spec(t@),
    {
        proof {
            reveal_strlit("None");
            reveal_strlit("CTCSS");
            reveal_strlit("DCS");
        }
        if crate::text::str_eq(t, "None") {
            proof {
                assert("None"@ =~= seq!['N', 'o', 'n', 'e']);
            }
            Some(SubtoneMode::NoTone)
        } else if crate::text::str_eq(t, "CTCSS") {
            proof {
                assert("CTCSS"@ =~= seq!['C', 'T', 'C', 'S', 'S']);
            }
            Some(SubtoneMode::CTCSS)
        } else if crate::text::str_eq(t, "DCS") {
            proof {
                assert("DCS"@ =~= seq!['D', 'C', 'S']);
            }
            Some(SubtoneMode::DCS)
        } else {
            proof {
                assert("None"@ =~= seq!['N', 'o', 'n', 'e']);
                assert("CTCSS"@ =~= seq!['C', 'T', 'C', 'S', 'S']);
                assert("DCS"@ =~= seq!['D', 'C', 'S']);
            }
            None
        }
    }
}

/// Every subtone mode survives being stored as text and read back, and a
/// stored text reads back only as the value that is stored as it.
pub proof fn lemma_subtone_mode_sql_roundtrip(value: SubtoneMode, t: Seq<char>)
    ensures
        SubtoneMode::from_sql_spec(value.sql_text()) == Some(value),
        SubtoneMode::from_sql_spec(t) matches Some(v) ==> v.sql_text() == t,
{
    match value {
        SubtoneMode::NoTone => {
            assert(seq!['N', 'o', 'n', 'e'] != seq!['C', 'T', 'C', 'S', 'S']) by {
                assert(seq!['N', 'o', 'n', 'e'].len() != seq!['C', 'T', 'C', 'S', 'S'].len());
            }
            assert(seq!['N', 'o', 'n', 'e'] != seq!['D', 'C', 'S']) by {
                assert(seq!['N', 'o', 'n', 'e'].len() != seq!['D', 'C', 'S'].len());
            }
        },
        SubtoneMode::CTCSS => {
            assert(seq!['C', 'T', 'C', 'S', 'S'] != seq!['N', 'o', 'n', 'e']) by {
                assert(seq!['C', 'T', 'C', 'S', 'S'].len() != seq!['N', 'o', 'n', 'e'].len());
            }
            assert(seq!['C', 'T', 'C', 'S', 'S'] != seq!['D', 'C', 'S']) by {
                assert(seq!['C', 'T', 'C', 'S', 'S'].len() != seq!['D', 'C', 'S'].len());
            }
        },
        SubtoneMode::DCS => {
            assert(seq!['D', 'C', 'S'] != seq!['N', 'o', 'n', 'e']) by {
                assert(seq!['D', 'C', 'S'].len() != seq!['N', 'o', 'n', 'e'].len());
            }
            assert(seq!['D', 'C', 'S'] != seq!['C', 'T', 'C', 'S', 'S']) by {
                assert(seq!['D', 'C', 'S'].len() != seq!['C', 'T', 'C', 'S', 'S'].len());
            }
        },
    }
}

} // verus!
