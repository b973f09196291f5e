use vstd::prelude::*;

use crate::frequency::Frequency;

verus! {

/// The kind of service a repeater offers.
#[derive(Debug, Copy, Clone, PartialEq, Eq, Structural)]
pub enum RepeaterServiceKind {
    Fm,
    Am,
    Ssb,
    Dstar,
    Dmr,
    C4fm,
    Aprs,
}

/// The channel width of an FM service.
#[derive(Debug, Copy, Clone, PartialEq, Eq, Structural)]
pub enum FmBandwidth {
    Narrow,
    Wide,
}

/// How an FM access or transmit tone is given.
#[derive(Debug, Copy, Clone, PartialEq, Eq, Structural)]
pub enum ToneKind {
    NoTone,
    CTCSS,
    DCS,
}

/// The D-STAR operating mode.
#[derive(Debug, Copy, Clone, PartialEq, Eq, Structural)]
pub enum DstarMode {
    Dv,
    Dd,
}

/// The role of an APRS service.
#[derive(Debug, Copy, Clone, PartialEq, Eq, Structural)]
pub enum AprsMode {
    Igate,
    Digipeater,
}

/// The sideband of an SSB service.
#[derive(Debug, Copy, Clone, PartialEq, Eq, Structural)]
pub enum SsbSideband {
    Lsb,
    Usb,
}

/// A service row to be stored. Columns that belong to another kind of
/// service hold neutral values. CTCSS tones are in tenths of a hertz.
pub struct NewRepeaterServiceDao {
    pub repeater_id: i64,
    pub kind: RepeaterServiceKind,
    pub enabled: bool,
    pub label: String,
    pub note: String,
    pub rx_hz: Frequency,
    pub tx_hz: Frequency,
    pub fm_bandwidth: FmBandwidth,
    pub rx_tone_kind: ToneKind,
    pub rx_ctcss_dhz: Option<u32>,
    pub rx_dcs_code: Option<i32>,
    pub tx_tone_kind: ToneKind,
    pub tx_ctcss_dhz: Option<u32>,
    pub tx_dcs_code: Option<i32>,
    pub dmr_color_code: i16,
    pub dmr_repeater_id: Option<i64>,
    pub dmr_network: String,
    pub dstar_mode: DstarMode,
    pub dstar_gateway_call_sign: Option<String>,
    pub dstar_reflector: Option<String>,
    pub c4fm_wires_x_node_id: Option<i32>,
    pub c4fm_room: Option<String>,
    pub aprs_mode: Option<AprsMode>,
    pub aprs_path: Option<String>,
    pub ssb_sideband: Option<SsbSideband>,
}

/// A stored service row, as read back with its id.
pub struct RepeaterServiceDao {
    pub id: i64,
    pub repeater_id: i64,
    pub kind: RepeaterServiceKind,
    pub enabled: bool,
    pub label: String,
    pub note: String,
    pub rx_hz: Frequency,
    pub tx_hz: Frequency,
    pub fm_bandwidth: FmBandwidth,
    pub rx_tone_kind: ToneKind,
    pub rx_ctcss_dhz: Option<u32>,
    pub rx_dcs_code: Option<i32>,
    pub tx_tone_kind: ToneKind,
    pub tx_ctcss_dhz: Option<u32>,
    pub tx_dcs_code: Option<i32>,
    pub dmr_color_code: i16,
    pub dmr_repeater_id: Option<i64>,
    pub dmr_network: String,
    pub dstar_mode: DstarMode,
    pub dstar_gateway_call_sign: Option<String>,
    pub dstar_reflector: Option<String>,
    pub c4fm_wires_x_node_id: Option<i32>,
    pub c4fm_room: Option<String>,
    pub aprs_mode: Option<AprsMode>,
    pub aprs_path: Option<String>,
    pub ssb_sideband: Option<SsbSideband>,
}

/// The row the store gives back for `new` once it has assigned it `id`.
pub open spec fn stored(new: NewRepeaterServiceDao, id: i64) -> RepeaterServiceDao {
    RepeaterServiceDao {
        id,
        repeater_id: new.repeater_id,
        kind: new.kind,
        enabled: new.enabled,
        label: new.label,
        note: new.note,
        rx_hz: new.rx_hz,
        tx_hz: new.tx_hz,
        fm_bandwidth: new.fm_bandwidth,
        rx_tone_kind: new.rx_tone_kind,
        rx_ctcss_dhz: new.rx_ctcss_dhz,
        rx_dcs_code: new.rx_dcs_code,
        tx_tone_kind: new.tx_tone_kind,
        tx_ctcss_dhz: new.tx_ctcss_dhz,
        tx_dcs_code: new.tx_dcs_code,
        dmr_color_code: new.dmr_color_code,
        dmr_repeater_id: new.dmr_repeater_id,
        dmr_network: new.dmr_network,
        dstar_mode: new.dstar_mode,
        dstar_gateway_call_sign: new.dstar_gateway_call_sign,
        dstar_reflector: new.dstar_reflector,
        c4fm_wires_x_node_id: new.c4fm_wires_x_node_id,
        c4fm_room: new.c4fm_room,
        aprs_mode: new.aprs_mode,
        aprs_path: new.aprs_path,
        ssb_sideband: new.ssb_sideband,
    }
}

impl RepeaterServiceKind {
    /// The label people read for the kind.
    pub open spec fn spec_label(self) -> Seq<char> {
        match self {
            RepeaterServiceKind::Fm => seq!['F', 'M'],
            RepeaterServiceKind::Am => seq!['A', 'M'],
            RepeaterServiceKind::Ssb => seq!['S', 'S', 'B'],
            RepeaterServiceKind::Dstar => seq!['D', '-', 'S', 'T', 'A', 'R'],
            RepeaterServiceKind::Dmr => seq!['D', 'M', 'R'],
            RepeaterServiceKind::C4fm => seq!['C', '4', 'F', 'M'],
            RepeaterServiceKind::Aprs => seq!['A', 'P', 'R', 'S'],
        }
    }

    /// The label people read for the kind, such as `D-STAR`.
    pub fn label(&self) -> (r: &'static str)
        ensures
            r@ == self.spec_label(),
    {
        proof {
            reveal_strlit("FM");
            reveal_strlit("AM");
            reveal_strlit("SSB");
            reveal_strlit("D-STAR");
            reveal_strlit("DMR");
            reveal_strlit("C4FM");
            reveal_strlit("APRS");
        }
        match self {
            RepeaterServiceKind::Fm => "FM",
            RepeaterServiceKind::Am => "AM",
            RepeaterServiceKind::Ssb => "SSB",
            RepeaterServiceKind::Dstar => "D-STAR",
            RepeaterServiceKind::Dmr => "DMR",
            RepeaterServiceKind::C4fm => "C4FM",
            RepeaterServiceKind::Aprs => "APRS",
        }
    }
}

impl RepeaterServiceKind {
    /// The text the database stores for the value.
    pub open spec fn sql_text(self) -> Seq<char> {
        match self {
            RepeaterServiceKind::Fm => seq!['f', 'm'],
            RepeaterServiceKind::Am => seq!['a', 'm'],
            RepeaterServiceKind::Ssb => seq!['s', 's', 'b'],
            RepeaterServiceKind::Dstar => seq!['d', 's', 't', 'a', 'r'],
            RepeaterServiceKind::Dmr => seq!['d', 'm', 'r'],
            RepeaterServiceKind::C4fm => seq!['c', '4', 'f', 'm'],
            RepeaterServiceKind::Aprs => seq!['a', 'p', 'r', 's'],
        }
    }

    /// The value a stored text names, if any.
    pub open spec fn from_sql_spec(t: Seq<char>) -> Option<RepeaterServiceKind> {
        if t == seq!['f', 'm'] {
            Some(RepeaterServiceKind::Fm)
        } else if t == seq!['a', 'm'] {
            Some(RepeaterServiceKind::Am)
        } else if t == seq!['s', 's', 'b'] {
            Some(RepeaterServiceKind::Ssb)
        } else if t == seq!['d', 's', 't', 'a', 'r'] {
            Some(RepeaterServiceKind::Dstar)
        } else if t == seq!['d', 'm', 'r'] {
            Some(RepeaterServiceKind::Dmr)
        } else if t == seq!['c', '4', 'f', 'm'] {
            Some(RepeaterServiceKind::C4fm)
        } else if t == seq!['a', 'p', 'r', 's'] {
            Some(RepeaterServiceKind::Aprs)
        } else {
            None
        }
    }

    /// The text the database stores for the value.
    pub fn to_sql_text(&self) -> (r: &'static str)
        ensures
            r@ == self.sql_text(),
    {
        proof {
            reveal_strlit("fm");
            reveal_strlit("am");
            reveal_strlit("ssb");
            reveal_strlit("dstar");
            reveal_strlit("dmr");
            reveal_strlit("c4fm");
            reveal_strlit("aprs");
        }
        match self {
            RepeaterServiceKind::Fm => "fm",
            RepeaterServiceKind::Am => "am",
            RepeaterServiceKind::Ssb => "ssb",
            RepeaterServiceKind::Dstar => "dstar",
            RepeaterServiceKind::Dmr => "dmr",
            RepeaterServiceKind::C4fm => "c4fm",
            RepeaterServiceKind::Aprs => "aprs",
        }
    }

    /// Reads a stored text; `None` for a text that names no value.
    pub fn from_sql_text(t: &str) -> (r: Option<RepeaterServiceKind>)
        ensures
            r == RepeaterServiceKind::from_sql_spec(t@),
    {
        proof {
            reveal_strlit("fm");
            reveal_strlit("am");
            reveal_strlit("ssb");
            reveal_strlit("dstar");
            reveal_strlit("dmr");
            reveal_strlit("c4fm");
            reveal_strlit("aprs");
        }
        if crate::text::str_eq(t, "fm") {
            proof {
                assert("fm"@ =~= seq!['f', 'm']);
            }
            Some(RepeaterServiceKind::Fm)
        } else if crate::text::str_eq(t, "am") {
            proof {
                assert("am"@ =~= seq!['a', 'm']);
            }
            Some(RepeaterServiceKind::Am)
        } else if crate::text::str_eq(t, "ssb") {
            proof {
                assert("ssb"@ =~= seq!['s', 's', 'b']);
            }
            Some(RepeaterServiceKind::Ssb)
        } else if crate::text::str_eq(t, "dstar") {
            proof {
                assert("dstar"@ =~= seq!['d', 's', 't', 'a', 'r']);
            }
            Some(RepeaterServiceKind::Dstar)
        } else if crate::text::str_eq(t, "dmr") {
            proof {
                assert("dmr"@ =~= seq!['d', 'm', 'r']);
            }
            Some(RepeaterServiceKind::Dmr)
        } else if crate::text::str_eq(t, "c4fm") {
            proof {
                assert("c4fm"@ =~= seq!['c', '4', 'f', 'm']);
            }
            Some(RepeaterServiceKind::C4fm)
        } else if crate::text::str_eq(t, "aprs") {
            proof {
                assert("aprs"@ =~= seq!['a', 'p', 'r', 's']);
            }
            Some(RepeaterServiceKind::Aprs)
        } else {
            proof {
                assert("fm"@ =~= seq!['f', 'm']);
                assert("am"@ =~= seq!['a', 'm']);
                assert("ssb"@ =~= seq!['s', 's', 'b']);
                assert("dstar"@ =~= seq!['d', 's', 't', 'a', 'r']);
                assert("dmr"@ =~= seq!['d', 'm', 'r']);
                assert("c4fm"@ =~= seq!['c', '4', 'f', 'm']);
                assert("aprs"@ =~= seq!['a', 'p', 'r', 's']);
            }
            None
        }
    }
}

/// Every service kind survives being stored as text and read back, and a
/// stored text reads back only as the value that is stored as it.
pub proof fn lemma_repeater_service_kind_sql_roundtrip(value: RepeaterServiceKind, t: Seq<char>)
    ensures
        RepeaterServiceKind::from_sql_spec(value.sql_text()) == Some(value),
        RepeaterServiceKind::from_sql_spec(t) matches Some(v) ==> v.sql_text() == t,
{
    match value {
        RepeaterServiceKind::Fm => {
            assert(seq!['f', 'm'] != seq!['a', 'm']) by {
                assert(seq!['f', 'm'][0] != seq!['a', 'm'][0]);
            }
            assert(seq!['f', 'm'] != seq!['s', 's', 'b']) by {
                assert(seq!['f', 'm'].len() != seq!['s', 's', 'b'].len());
            }
            assert(seq!['f', 'm'] != seq!['d', 's', 't', 'a', 'r']) by {
                assert(seq!['f', 'm'].len() != seq!['d', 's', 't', 'a', 'r'].len());
            }
            assert(seq!['f', 'm'] != seq!['d', 'm', 'r']) by {
                assert(seq!['f', 'm'].len() != seq!['d', 'm', 'r'].len());
            }
            assert(seq!['f', 'm'] != seq!['c', '4', 'f', 'm']) by {
                assert(seq!['f', 'm'].len() != seq!['c', '4', 'f', 'm'].len());
            }
            assert(seq!['f', 'm'] != seq!['a', 'p', 'r', 's']) by {
                assert(seq!['f', 'm'].len() != seq!['a', 'p', 'r', 's'].len());
            }
        },
        RepeaterServiceKind::Am => {
            assert(seq!['a', 'm'] != seq!['f', 'm']) by {
                assert(seq!['a', 'm'][0] != seq!['f', 'm'][0]);
            }
            assert(seq!['a', 'm'] != seq!['s', 's', 'b']) by {
                assert(seq!['a', 'm'].len() != seq!['s', 's', 'b'].len());
            }
            assert(seq!['a', 'm'] != seq!['d', 's', 't', 'a', 'r']) by {
                assert(seq!['a', 'm'].len() != seq!['d', 's', 't', 'a', 'r'].len());
            }
            assert(seq!['a', 'm'] != seq!['d', 'm', 'r']) by {
                assert(seq!['a', 'm'].len() != seq!['d', 'm', 'r'].len());
            }
            assert(seq!['a', 'm'] != seq!['c', '4', 'f', 'm']) by {
                assert(seq!['a', 'm'].len() != seq!['c', '4', 'f', 'm'].len());
            }
            assert(seq!['a', 'm'] != seq!['a', 'p', 'r', 's']) by {
                assert(seq!['a', 'm'].len() != seq!['a', 'p', 'r', 's'].len());
            }
        },
        RepeaterServiceKind::Ssb => {
            assert(seq!['s', 's', 'b'] != seq!['f', 'm']) by {
                assert(seq!['s', 's', 'b'].len() != seq!['f', 'm'].len());
            }
            assert(seq!['s', 's', 'b'] != seq!['a', 'm']) by {
                assert(seq!['s', 's', 'b'].len() != seq!['a', 'm'].len());
            }
            assert(seq!['s', 's', 'b'] != seq!['d', 's', 't', 'a', 'r']) by {
                assert(seq!['s', 's', 'b'].len() != seq!['d', 's', 't', 'a', 'r'].len());
            }
            assert(seq!['s', 's', 'b'] != seq!['d', 'm', 'r']) by {
                assert(seq!['s', 's', 'b'][0] != seq!['d', 'm', 'r'][0]);
            }
            assert(seq!['s', 's', 'b'] != seq!['c', '4', 'f', 'm']) by {
                assert(seq!['s', 's', 'b'].len() != seq!['c', '4', 'f', 'm'].len());
            }
            assert(seq!['s', 's', 'b'] != seq!['a', 'p', 'r', 's']) by {
                assert(seq!['s', 's', 'b'].len() != seq!['a', 'p', 'r', 's'].len());
            }
        },
        RepeaterServiceKind::Dstar => {
            assert(seq!['d', 's', 't', 'a', 'r'] != seq!['f', 'm']) by {
                assert(seq!['d', 's', 't', 'a', 'r'].len() != seq!['f', 'm'].len());
            }
            assert(seq!['d', 's', 't', 'a', 'r'] != seq!['a', 'm']) by {
                assert(seq!['d', 's', 't', 'a', 'r'].len() != seq!['a', 'm'].len());
            }
            assert(seq!['d', 's', 't', 'a', 'r'] != seq!['s', 's', 'b']) by {
                assert(seq!['d', 's', 't', 'a', 'r'].len() != seq!['s', 's', 'b'].len());
            }
            assert(seq!['d', 's', 't', 'a', 'r'] != seq!['d', 'm', 'r']) by {
                assert(seq!['d', 's', 't', 'a', 'r'].len() != seq!['d', 'm', 'r'].len());
            }
            assert(seq!['d', 's', 't', 'a', 'r'] != seq!['c', '4', 'f', 'm']) by {
                assert(seq!['d', 's', 't', 'a', 'r'].len() != seq!['c', '4', 'f', 'm'].len());
            }
            assert(seq!['d', 's', 't', 'a', 'r'] != seq!['a', 'p', 'r', 's']) by {
                assert(seq!['d', 's', 't', 'a', 'r'].len() != seq!['a', 'p', 'r', 's'].len());
            }
        },
        RepeaterServiceKind::Dmr => {
            assert(seq!['d', 'm', 'r'] != seq!['f', 'm']) by {
                assert(seq!['d', 'm', 'r'].len() != seq!['f', 'm'].len());
            }
            assert(seq!['d', 'm', 'r'] != seq!['a', 'm']) by {
                assert(seq!['d', 'm', 'r'].len() != seq!['a', 'm'].len());
            }
            assert(seq!['d', 'm', 'r'] != seq!['s', 's', 'b']) by {
                assert(seq!['d', 'm', 'r'][0] != seq!['s', 's', 'b'][0]);
            }
            assert(seq!['d', 'm', 'r'] != seq!['d', 's', 't', 'a', 'r']) by {
                assert(seq!['d', 'm', 'r'].len() != seq!['d', 's', 't', 'a', 'r'].len());
            }
            assert(seq!['d', 'm', 'r'] != seq!['c', '4', 'f', 'm']) by {
                assert(seq!['d', 'm', 'r'].len() != seq!['c', '4', 'f', 'm'].len());
            }
            assert(seq!['d', 'm', 'r'] != seq!['a', 'p', 'r', 's']) by {
                assert(seq!['d', 'm', 'r'].len() != seq!['a', 'p', 'r', 's'].len());
            }
        },
        RepeaterServiceKind::C4fm => {
            assert(seq!['c', '4', 'f', 'm'] != seq!['f', 'm']) by {
                assert(seq!['c', '4', 'f', 'm'].len() != seq!['f', 'm'].len());
            }
            assert(seq!['c', '4', 'f', 'm'] != seq!['a', 'm']) by {
                assert(seq!['c', '4', 'f', 'm'].len() != seq!['a', 'm'].len());
            }
            assert(seq!['c', '4', 'f', 'm'] != seq!['s', 's', 'b']) by {
                assert(seq!['c', '4', 'f', 'm'].len() != seq!['s', 's', 'b'].len());
            }
            assert(seq!['c', '4', 'f', 'm'] != seq!['d', 's', 't', 'a', 'r']) by {
                assert(seq!['c', '4', 'f', 'm'].len() != seq!['d', 's', 't', 'a', 'r'].len());
            }
            assert(seq!['c', '4', 'f', 'm'] != seq!['d', 'm', 'r']) by {
                assert(seq!['c', '4', 'f', 'm'].len() != seq!['d', 'm', 'r'].len());
            }
            assert(seq!['c', '4', 'f', 'm'] != seq!['a', 'p', 'r', 's']) by {
                assert(seq!['c', '4', 'f', 'm'][0] != seq!['a', 'p', 'r', 's'][0]);
            }
        },
        RepeaterServiceKind::Aprs => {
            assert(seq!['a', 'p', 'r', 's'] != seq!['f', 'm']) by {
                assert(seq!['a', 'p', 'r', 's'].len() != seq!['f', 'm'].len());
            }
            assert(seq!['a', 'p', 'r', 's'] != seq!['a', 'm']) by {
                assert(seq!['a', 'p', 'r', 's'].len() != seq!['a', 'm'].len());
            }
            assert(seq!['a', 'p', 'r', 's'] != seq!['s', 's', 'b']) by {
                assert(seq!['a', 'p', 'r', 's'].len() != seq!['s', 's', 'b'].len());
            }
            assert(seq!['a', 'p', 'r', 's'] != seq!['d', 's', 't', 'a', 'r']) by {
                assert(seq!['a', 'p', 'r', 's'].len() != seq!['d', 's', 't', 'a', 'r'].len());
            }
            assert(seq!['a', 'p', 'r', 's'] != seq!['d', 'm', 'r']) by {
                assert(seq!['a', 'p', 'r', 's'].len() != seq!['d', 'm', 'r'].len());
            }
            assert(seq!['a', 'p', 'r', 's'] != seq!['c', '4', 'f', 'm']) by {
                assert(seq!['a', 'p', 'r', 's'][0] != seq!['c', '4', 'f', 'm'][0]);
            }
        },
    }
}

impl FmBandwidth {
    /// The text the database stores for the value.
    pub open spec fn sql_text(self) -> Seq<char> {
        match self {
            FmBandwidth::Narrow => seq!['n', 'a', 'r', 'r', 'o', 'w'],
            FmBandwidth::Wide => seq!['w', 'i', 'd', 'e'],
        }
    }

    /// The value a stored text names, if any.
    pub open spec fn from_sql_spec(t: Seq<char>) -> Option<FmBandwidth> {
        if t == seq!['n', 'a', 'r', 'r', 'o', 'w'] {
            Some(FmBandwidth::Narrow)
        } else if t == seq!['w', 'i', 'd', 'e'] {
            Some(FmBandwidth::Wide)
        } else {
            None
        }
    }

    /// The text the database stores for the value.
    pub fn to_sql_text(&self) -> (r: &'static str)
        ensures
            r@ == self.sql_text(),
    {
        proof {
            reveal_strlit("narrow");
            reveal_strlit("wide");
        }
        match self {
            FmBandwidth::Narrow => "narrow",
            FmBandwidth::Wide => "wide",
        }
    }

    /// Reads a stored text; `None` for a text that names no value.
    pub fn from_sql_text(t: &str) -> (r: Option<FmBandwidth>)
        ensures
            r == FmBandwidth::from_sql_spec(t@),
    {
        proof {
            reveal_strlit("narrow");
            reveal_strlit("wide");
        }
        if crate::text::str_eq(t, "narrow") {
            proof {
                assert("narrow"@ =~= seq!['n', 'a', 'r', 'r', 'o', 'w']);
            }
            Some(FmBandwidth::Narrow)
        } else if crate::text::str_eq(t, "wide") {
            proof {
                assert("wide"@ =~= seq!['w', 'i', 'd', 'e']);
            }
            Some(FmBandwidth::Wide)
        } else {
            proof {
                assert("narrow"@ =~= seq!['n', 'a', 'r', 'r', 'o', 'w']);
                assert("wide"@ =~= seq!['w', 'i', 'd', 'e']);
            }
            None
        }
    }
}

/// Every FM bandwidth survives being stored as text and read back, and a
/// stored text reads back only as the value that is stored as it.
pub proof fn lemma_fm_bandwidth_sql_roundtrip(value: FmBandwidth, t: Seq<char>)
    ensures
        FmBandwidth::from_sql_spec(value.sql_text()) == Some(value),
        FmBandwidth::from_sql_spec(t) matches Some(v) ==> v.sql_text() == t,
{
    match value {
        FmBandwidth::Narrow => {
            assert(seq!['n', 'a', 'r', 'r', 'o', 'w'] != seq!['w', 'i', 'd', 'e']) by {
                assert(seq!['n', 'a', 'r', 'r', 'o', 'w'].len() != seq!['w', 'i', 'd', 'e'].len());
            }
        },
        FmBandwidth::Wide => {
            assert(seq!['w', 'i', 'd', 'e'] != seq!['n', 'a', 'r', 'r', 'o', 'w']) by {
                assert(seq!['w', 'i', 'd', 'e'].len() != seq!['n', 'a', 'r', 'r', 'o', 'w'].len());
            }
        },
    }
}

impl ToneKind {
    /// The text the database stores for the value.
    pub open spec fn sql_text(self) -> Seq<char> {
        match self {
            ToneKind::NoTone => seq!['n', 'o', 'n', 'e'],
            ToneKind::CTCSS => seq!['c', 't', 'c', 's', 's'],
            ToneKind::DCS => seq!['d', 'c', 's'],
        }
    }

    /// The value a stored text names, if any.
    pub open spec fn from_sql_spec(t: Seq<char>) -> Option<ToneKind> {
        if t == seq!['n', 'o', 'n', 'e'] {
            Some(ToneKind::NoTone)
        } else if t == seq!['c', 't', 'c', 's', 's'] {
            Some(ToneKind::CTCSS)
        } else if t == seq!['d', 'c', 's'] {
            Some(ToneKind::DCS)
        } else {
            None
        }
    }

    /// The text the database stores for the value.
    pub fn to_sql_text(&self) -> (r: &'static str)
        ensures
            r@ == self.sql_text(),
    {
        proof {
            reveal_strlit("none");
            reveal_strlit("ctcss");
            reveal_strlit("dcs");
        }
        match self {
            ToneKind::NoTone => "none",
            ToneKind::CTCSS => "ctcss",
            ToneKind::DCS => "dcs",
        }
    }

    /// Reads a stored text; `None` for a text that names no value.
    pub fn from_sql_text(t: &str) -> (r: Option<ToneKind>)
        ensures
            r == ToneKind::from_sql_spec(t@),
    {
        proof {
            reveal_strlit("none");
            reveal_strlit("ctcss");
            reveal_strlit("dcs");
        }
        if crate::text::str_eq(t, "none") {
            proof {
                assert("none"@ =~= seq!['n', 'o', 'n', 'e']);
            }
            Some(ToneKind::NoTone)
        } else if crate::text::str_eq(t, "ctcss") {
            proof {
                assert("ctcss"@ =~= seq!['c', 't', 'c', 's', 's']);
            }
            Some(ToneKind::CTCSS)
        } else if crate::text::str_eq(t, "dcs") {
            proof {
                assert("dcs"@ =~= seq!['d', 'c', 's']);
            }
            Some(ToneKind::DCS)
        } else {
            proof {
                assert("none"@ =~= seq!['n', 'o', 'n', 'e']);
                assert("ctcss"@ =~= seq!['c', 't', 'c', 's', 's']);
                assert("dcs"@ =~= seq!['d', 'c', 's']);
            }
            None
        }
    }
}

/// Every tone kind survives being stored as text and read back, and a
/// stored text reads back only as the value that is stored as it.
pub proof fn lemma_tone_kind_sql_roundtrip(value: ToneKind, t: Seq<char>)
    ensures
        ToneKind::from_sql_spec(value.sql_text()) == Some(value),
        ToneKind::from_sql_spec(t) matches Some(v) ==> v.sql_text() == t,
{
    match value {
        ToneKind::NoTone => {
            assert(seq!['n', 'o', 'n', 'e'] != seq!['c', 't', 'c', 's', 's']) by {
                assert(seq!['n', 'o', 'n', 'e'].len() != seq!['c', 't', 'c', 's', 's'].len());
            }
            assert(seq!['n', 'o', 'n', 'e'] != seq!['d', 'c', 's']) by {
                assert(seq!['n', 'o', 'n', 'e'].len() != seq!['d', 'c', 's'].len());
            }
        },
        ToneKind::CTCSS => {
            assert(seq!['c', 't', 'c', 's', 's'] != seq!['n', 'o', 'n', 'e']) by {
                assert(seq!['c', 't', 'c', 's', 's'].len() != seq!['n', 'o', 'n', 'e'].len());
            }
            assert(seq!['c', 't', 'c', 's', 's'] != seq!['d', 'c', 's']) by {
                assert(seq!['c', 't', 'c', 's', 's'].len() != seq!['d', 'c', 's'].len());
            }
        },
        ToneKind::DCS => {
            assert(seq!['d', 'c', 's'] != seq!['n', 'o', 'n', 'e']) by {
                assert(seq!['d', 'c', 's'].len() != seq!['n', 'o', 'n', 'e'].len());
            }
            assert(seq!['d', 'c', 's'] != seq!['c', 't', 'c', 's', 's']) by {
                assert(seq!['d', 'c', 's'].len() != seq!['c', 't', 'c', 's', 's'].len());
            }
        },
    }
}

impl DstarMode {
    /// The text the database stores for the value.
    pub open spec fn sql_text(self) -> Seq<char> {
        match self {
            DstarMode::Dv => seq!['d', 'v'],
            DstarMode::Dd => seq!['d', 'd'],
        }
    }

    /// The value a stored text names, if any.
    pub open spec fn from_sql_spec(t: Seq<char>) -> Option<DstarMode> {
        if t == seq!['d', 'v'] {
            Some(DstarMode::Dv)
        } else if t == seq!['d', 'd'] {
            Some(DstarMode::Dd)
        } else {
            None
        }
    }

    /// The text the database stores for the value.
    pub fn to_sql_text(&self) -> (r: &'static str)
        ensures
            r@ == self.sql_text(),
    {
        proof {
            reveal_strlit("dv");
            reveal_strlit("dd");
        }
        match self {
            DstarMode::Dv => "dv",
            DstarMode::Dd => "dd",
        }
    }

    /// Reads a stored text; `None` for a text that names no value.
    pub fn from_sql_text(t: &str) -> (r: Option<DstarMode>)
        ensures
            r == DstarMode::from_sql_spec(t@),
    {
        proof {
            reveal_strlit("dv");
            reveal_strlit("dd");
        }
        if crate::text::str_eq(t, "dv") {
            proof {
                assert("dv"@ =~= seq!['d', 'v']);
            }
            Some(DstarMode::Dv)
        } else if crate::text::str_eq(t, "dd") {
            proof {
                assert("dd"@ =~= seq!['d', 'd']);
            }
            Some(DstarMode::Dd)
        } else {
            proof {
                assert("dv"@ =~= seq!['d', 'v']);
                assert("dd"@ =~= seq!['d', 'd']);
            }
            None
        }
    }
}

/// Every D-STAR mode survives being stored as text and read back, and a
/// stored text reads back only as the value that is stored as it.
pub proof fn lemma_dstar_mode_sql_roundtrip(value: DstarMode, t: Seq<char>)
    ensures
        DstarMode::from_sql_spec(value.sql_text()) == Some(value),
        DstarMode::from_sql_spec(t) matches Some(v) ==> v.sql_text() == t,
{
    match value {
        DstarMode::Dv => {
            assert(seq!['d', 'v'] != seq!['d', 'd']) by {
                assert(seq!['d', 'v'][1] != seq!['d', 'd'][1]);
            }
        },
        DstarMode::Dd => {
            assert(seq!['d', 'd'] != seq!['d', 'v']) by {
                assert(seq!['d', 'd'][1] != seq!['d', 'v'][1]);
            }
        },
    }
}

impl AprsMode {
    /// The text the database stores for the value.
    pub open spec fn sql_text(self) -> Seq<char> {
        match self {
            AprsMode::Igate => seq!['i', 'g', 'a', 't', 'e'],
            AprsMode::Digipeater => seq!['d', 'i', 'g', 'i', 'p', 'e', 'a', 't', 'e', 'r'],
        }
    }

    /// The value a stored text names, if any.
    pub open spec fn from_sql_spec(t: Seq<char>) -> Option<AprsMode> {
        if t == seq!['i', 'g', 'a', 't', 'e'] {
            Some(AprsMode::Igate)
        } else if t == seq!['d', 'i', 'g', 'i', 'p', 'e', 'a', 't', 'e', 'r'] {
            Some(AprsMode::Digipeater)
        } else {
            None
        }
    }

    /// The text the database stores for the value.
    pub fn to_sql_text(&self) -> (r: &'static str)
        ensures
            r@ == self.sql_text(),
    {
        proof {
            reveal_strlit("igate");
            reveal_strlit("digipeater");
        }
        match self {
            AprsMode::Igate => "igate",
            AprsMode::Digipeater => "digipeater",
        }
    }

    /// Reads a stored text; `None` for a text that names no value.
    pub fn from_sql_text(t: &str) -> (r: Option<AprsMode>)
        ensures
            r == AprsMode::from_sql_spec(t@),
    {
        proof {
            reveal_strlit("igate");
            reveal_strlit("digipeater");
        }
        if crate::text::str_eq(t, "igate") {
            proof {
                assert("igate"@ =~= seq!['i', 'g', 'a', 't', 'e']);
            }
            Some(AprsMode::Igate)
        } else if crate::text::str_eq(t, "digipeater") {
            proof {
                assert("digipeater"@ =~= seq!['d', 'i', 'g', 'i', 'p', 'e', 'a', 't', 'e', 'r']);
            }
            Some(AprsMode::Digipeater)
        } else {
            proof {
                assert("igate"@ =~= seq!['i', 'g', 'a', 't', 'e']);
                assert("digipeater"@ =~= seq!['d', 'i', 'g', 'i', 'p', 'e', 'a', 't', 'e', 'r']);
            }
            None
        }
    }
}

/// Every APRS mode survives being stored as text and read back, and a
/// stored text reads back only as the value that is stored as it.
pub proof fn lemma_aprs_mode_sql_roundtrip(value: AprsMode, t: Seq<char>)
    ensures
        AprsMode::from_sql_spec(value.sql_text()) == Some(value),
        AprsMode::from_sql_spec(t) matches Some(v) ==> v.sql_text() == t,
{
    match value {
        AprsMode::Igate => {
            assert(seq!['i', 'g', 'a', 't', 'e'] != seq!['d', 'i', 'g', 'i', 'p', 'e', 'a', 't', 'e', 'r']) by {
                assert(seq!['i', 'g', 'a', 't', 'e'].len() != seq!['d', 'i', 'g', 'i', 'p', 'e', 'a', 't', 'e', 'r'].len());
            }
        },
        AprsMode::Digipeater => {
            assert(seq!['d', 'i', 'g', 'i', 'p', 'e', 'a', 't', 'e', 'r'] != seq!['i', 'g', 'a', 't', 'e']) by {
                assert(seq!['d', 'i', 'g', 'i', 'p', 'e', 'a', 't', 'e', 'r'].len() != seq!['i', 'g', 'a', 't', 'e'].len());
            }
        },
    }
}

impl SsbSideband {
    /// The text the database stores for the value.
    pub open spec fn sql_text(self) -> Seq<char> {
        match self {
            SsbSideband::Lsb => seq!['l', 's', 'b'],
            SsbSideband::Usb => seq!['u', 's', 'b'],
        }
    }

    /// The value a stored text names, if any.
    pub open spec fn from_sql_spec(t: Seq<char>) -> Option<SsbSideband> {
        if t == seq!['l', 's', 'b'] {
            Some(SsbSideband::Lsb)
        } else if t == seq!['u', 's', 'b'] {
            Some(SsbSideband::Usb)
        } else {
            None
        }
    }

    /// The text the database stores for the value.
    pub fn to_sql_text(&self) -> (r: &'static str)
        ensures
            r@ == self.sql_text(),
    {
        proof {
            reveal_strlit("lsb");
            reveal_strlit("usb");
        }
        match self {
            SsbSideband::Lsb => "lsb",
            SsbSideband::Usb => "usb",
        }
    }

    /// Reads a stored text; `None` for a text that names no value.
    pub fn from_sql_text(t: &str) -> (r: Option<SsbSideband>)
        ensures
            r == SsbSideband::from_sql_spec(t@),
    {
        proof {
            reveal_strlit("lsb");
            reveal_strlit("usb");
        }
        if crate::text::str_eq(t, "lsb") {
            proof {
                assert("lsb"@ =~= seq!['l', 's', 'b']);
            }
            Some(SsbSideband::Lsb)
        } else if crate::text::str_eq(t, "usb") {
            proof {
                assert("usb"@ =~= seq!['u', 's', 'b']);
            }
            Some(SsbSideband::Usb)
        } else {
            proof {
                assert("lsb"@ =~= seq!['l', 's', 'b']);
                assert("usb"@ =~= seq!['u', 's', 'b']);
            }
            None
        }
    }
}

/// Every sideband survives being stored as text and read back, and a
/// stored text reads back only as the value that is stored as it.
pub proof fn lemma_ssb_sideband_sql_roundtrip(value: SsbSideband, t: Seq<char>)
    ensures
        SsbSideband::from_sql_spec(value.sql_text()) == Some(value),
        SsbSideband::from_sql_spec(t) matches Some(v) ==> v.sql_text() == t,
{
    match value {
        SsbSideband::Lsb => {
            assert(seq!['l', 's', 'b'] != seq!['u', 's', 'b']) by {
                assert(seq!['l', 's', 'b'][0] != seq!['u', 's', 'b'][0]);
            }
        },
        SsbSideband::Usb => {
            assert(seq!['u', 's', 'b'] != seq!['l', 's', 'b']) by {
                assert(seq!['u', 's', 'b'][0] != seq!['l', 's', 'b'][0]);
            }
        },
    }
}

impl FmBandwidth {
    /// The label people read for the setting.
    pub open spec fn spec_label(self) -> Seq<char> {
        match self {
            FmBandwidth::Narrow => seq!['N', 'a', 'r', 'r', 'o', 'w'],
            FmBandwidth::Wide => seq!['W', 'i', 'd', 'e'],
        }
    }

    /// The bandwidth as it is displayed.
    pub fn label(&self) -> (r: &'static str)
        ensures
            r@ == self.spec_label(),
    {
        proof {
            reveal_strlit("Narrow");
            reveal_strlit("Wide");
        }
        match self {
            FmBandwidth::Narrow => "Narrow",
            FmBandwidth::Wide => "Wide",
        }
    }
}

impl DstarMode {
    /// The label people read for the setting.
    pub open spec fn spec_label(self) -> Seq<char> {
        match self {
            DstarMode::Dv => seq!['D', 'V'],
            DstarMode::Dd => seq!['D', 'D'],
        }
    }

    /// The mode as it is displayed.
    pub fn label(&self) -> (r: &'static str)
        ensures
            r@ == self.spec_label(),
    {
        proof {
            reveal_strlit("DV");
            reveal_strlit("DD");
        }
        match self {
            DstarMode::Dv => "DV",
            DstarMode::Dd => "DD",
        }
    }
}

impl AprsMode {
    /// The label people read for the setting.
    pub open spec fn spec_label(self) -> Seq<char> {
        match self {
            AprsMode::Igate => seq!['I', 'g', 'a', 't', 'e'],
            AprsMode::Digipeater => seq!['D', 'i', 'g', 'i', 'p', 'e', 'a', 't', 'e', 'r'],
        }
    }

    /// The mode as it is displayed.
    pub fn label(&self) -> (r: &'static str)
        ensures
            r@ == self.spec_label(),
    {
        proof {
            reveal_strlit("Igate");
            reveal_strlit("Digipeater");
        }
        match self {
            AprsMode::Igate => "Igate",
            AprsMode::Digipeater => "Digipeater",
        }
    }
}

impl SsbSideband {
    /// The label people read for the setting.
    pub open spec fn spec_label(self) -> Seq<char> {
        match self {
            SsbSideband::Lsb => seq!['L', 'S', 'B'],
            SsbSideband::Usb => seq!['U', 'S', 'B'],
        }
    }

    /// The sideband as it is displayed.
    pub fn label(&self) -> (r: &'static str)
        ensures
            r@ == self.spec_label(),
    {
        proof {
            reveal_strlit("LSB");
            reveal_strlit("USB");
        }
        match self {
            SsbSideband::Lsb => "LSB",
            SsbSideband::Usb => "USB",
        }
    }
}

} // verus!
