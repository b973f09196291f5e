use vstd::prelude::*;

use crate::dao::repeater_service::{
    AprsMode, DstarMode, FmBandwidth, NewRepeaterServiceDao, RepeaterServiceDao,
    RepeaterServiceKind, SsbSideband, ToneKind, stored,
};
use crate::frequency::Frequency;

verus! {

/// An FM access or transmit tone. CTCSS tones are in tenths of a hertz
/// (`885` is 88.5 Hz); DCS tones carry their code.
#[derive(Debug, Copy, Clone, PartialEq, Eq, Structural)]
pub enum Tone {
    NoTone,
    CTCSS(u32),
    DCS(i32),
}

/// A service a repeater offers, with the settings of its kind.
pub enum RepeaterService {
    Fm {
        label: String,
        rx_hz: Frequency,
        tx_hz: Frequency,
        bandwidth: FmBandwidth,
        rx_tone: Tone,
        tx_tone: Tone,
        note: Option<String>,
    },
    Am { label: String, rx_hz: Frequency, tx_hz: Frequency, note: Option<String> },
    Ssb {
        label: String,
        rx_hz: Frequency,
        tx_hz: Frequency,
        sideband: Option<SsbSideband>,
        note: Option<String>,
    },
    Dstar {
        label: String,
        rx_hz: Frequency,
        tx_hz: Frequency,
        mode: DstarMode,
        gateway_call_sign: Option<String>,
        reflector: Option<String>,
        note: Option<String>,
    },
    Dmr {
        label: String,
        rx_hz: Frequency,
        tx_hz: Frequency,
        color_code: i16,
        dmr_repeater_id: Option<i64>,
        network: String,
        note: Option<String>,
    },
    C4fm {
        label: String,
        rx_hz: Frequency,
        tx_hz: Frequency,
        wires_x_node_id: Option<i32>,
        room: Option<String>,
        note: Option<String>,
    },
    Aprs {
        label: String,
        rx_hz: Frequency,
        tx_hz: Frequency,
        mode: Option<AprsMode>,
        path: Option<String>,
        note: Option<String>,
    },
}

/// The three tone columns (kind, CTCSS, DCS) a tone is stored as.
pub open spec fn tone_parts(tone: Tone) -> (ToneKind, Option<u32>, Option<i32>) {
    match tone {
        Tone::NoTone => (ToneKind::NoTone, None, None),
        Tone::CTCSS(f) => (ToneKind::CTCSS, Some(f), None),
        Tone::DCS(c) => (ToneKind::DCS, None, Some(c)),
    }
}

/// The tone three tone columns describe; a kind whose value is missing
/// reads as no tone.
pub open spec fn tone_of_parts(kind: ToneKind, ctcss: Option<u32>, dcs: Option<i32>) -> Tone {
    match kind {
        ToneKind::CTCSS => match ctcss {
            Some(f) => Tone::CTCSS(f),
            None => Tone::NoTone,
        },
        ToneKind::DCS => match dcs {
            Some(c) => Tone::DCS(c),
            None => Tone::NoTone,
        },
        ToneKind::NoTone => Tone::NoTone,
    }
}

fn tone_to_parts(tone: Tone) -> (r: (ToneKind, Option<u32>, Option<i32>))
    ensures
        r == tone_parts(tone),
{
    match tone {
        Tone::NoTone => (ToneKind::NoTone, None, None),
        Tone::CTCSS(freq) => (ToneKind::CTCSS, Some(freq), None),
        Tone::DCS(code) => (ToneKind::DCS, None, Some(code)),
    }
}

fn tone_from_parts(kind: ToneKind, ctcss: Option<u32>, dcs: Option<i32>) -> (r: Tone)
    ensures
        r == tone_of_parts(kind, ctcss, dcs),
{
    match kind {
        ToneKind::CTCSS => match ctcss {
            Some(f) => Tone::CTCSS(f),
            None => Tone::NoTone,
        },
        ToneKind::DCS => match dcs {
            Some(c) => Tone::DCS(c),
            None => Tone::NoTone,
        },
        ToneKind::NoTone => Tone::NoTone,
    }
}

/// A tone survives being stored in its three columns and read back.
pub proof fn lemma_tone_parts_roundtrip(tone: Tone)
    ensures
        ({
            let (k, c, d) = tone_parts(tone);
            tone_of_parts(k, c, d) == tone
        }),
{
}

/// The note a service keeps, read from its note column: an empty column is
/// no note.
pub open spec fn note_of_column(note: String) -> Option<String> {
    if note@.len() == 0 {
        None
    } else {
        Some(note)
    }
}

/// `column` is what the note column holds for the note `note`: the note
/// itself, or empty text for no note.
pub open spec fn is_note_column(column: String, note: Option<String>) -> bool {
    match note {
        Some(n) => column == n,
        None => column@.len() == 0,
    }
}

impl RepeaterService {
    /// The service's kind.
    pub open spec fn spec_kind(self) -> RepeaterServiceKind {
        match self {
            RepeaterService::Fm { .. } => RepeaterServiceKind::Fm,
            RepeaterService::Am { .. } => RepeaterServiceKind::Am,
            RepeaterService::Ssb { .. } => RepeaterServiceKind::Ssb,
            RepeaterService::Dstar { .. } => RepeaterServiceKind::Dstar,
            RepeaterService::Dmr { .. } => RepeaterServiceKind::Dmr,
            RepeaterService::C4fm { .. } => RepeaterServiceKind::C4fm,
            RepeaterService::Aprs { .. } => RepeaterServiceKind::Aprs,
        }
    }

    /// The service's label.
    pub open spec fn spec_label(self) -> String {
        match self {
            RepeaterService::Fm { label, .. } => label,
            RepeaterService::Am { label, .. } => label,
            RepeaterService::Ssb { label, .. } => label,
            RepeaterService::Dstar { label, .. } => label,
            RepeaterService::Dmr { label, .. } => label,
            RepeaterService::C4fm { label, .. } => label,
            RepeaterService::Aprs { label, .. } => label,
        }
    }

    /// The frequency the repeater listens on.
    pub open spec fn spec_rx_hz(self) -> Frequency {
        match self {
            RepeaterService::Fm { rx_hz, .. } => rx_hz,
            RepeaterService::Am { rx_hz, .. } => rx_hz,
            RepeaterService::Ssb { rx_hz, .. } => rx_hz,
            RepeaterService::Dstar { rx_hz, .. } => rx_hz,
            RepeaterService::Dmr { rx_hz, .. } => rx_hz,
            RepeaterService::C4fm { rx_hz, .. } => rx_hz,
            RepeaterService::Aprs { rx_hz, .. } => rx_hz,
        }
    }

    /// The frequency the repeater transmits on.
    pub open spec fn spec_tx_hz(self) -> Frequency {
        match self {
            RepeaterService::Fm { tx_hz, .. } => tx_hz,
            RepeaterService::Am { tx_hz, .. } => tx_hz,
            RepeaterService::Ssb { tx_hz, .. } => tx_hz,
            RepeaterService::Dstar { tx_hz, .. } => tx_hz,
            RepeaterService::Dmr { tx_hz, .. } => tx_hz,
            RepeaterService::C4fm { tx_hz, .. } => tx_hz,
            RepeaterService::Aprs { tx_hz, .. } => tx_hz,
        }
    }

    /// The service's note.
    pub open spec fn spec_note(self) -> Option<String> {
        match self {
            RepeaterService::Fm { note, .. } => note,
            RepeaterService::Am { note, .. } => note,
            RepeaterService::Ssb { note, .. } => note,
            RepeaterService::Dstar { note, .. } => note,
            RepeaterService::Dmr { note, .. } => note,
            RepeaterService::C4fm { note, .. } => note,
            RepeaterService::Aprs { note, .. } => note,
        }
    }

    /// `row` is the row stored for this service on repeater `repeater_id`:
    /// it is enabled, carries the service's common settings, the settings of
    /// its kind in that kind's columns, and neutral values elsewhere (narrow
    /// FM without tones, DMR color code 0 on no network, D-STAR DV, nothing
    /// in the optional columns).
    pub open spec fn is_stored_as(self, row: NewRepeaterServiceDao, repeater_id: i64) -> bool {
        &&& row.repeater_id == repeater_id
        &&& row.kind == self.spec_kind()
        &&& row.enabled
        &&& row.label == self.spec_label()
        &&& row.rx_hz == self.spec_rx_hz()
        &&& row.tx_hz == self.spec_tx_hz()
        &&& is_note_column(row.note, self.spec_note())
        &&& match self {
            RepeaterService::Fm { bandwidth, rx_tone, tx_tone, .. } => {
                &&& row.fm_bandwidth == bandwidth
                &&& (row.rx_tone_kind, row.rx_ctcss_dhz, row.rx_dcs_code) == tone_parts(rx_tone)
                &&& (row.tx_tone_kind, row.tx_ctcss_dhz, row.tx_dcs_code) == tone_parts(tx_tone)
            },
            _ => {
                &&& row.fm_bandwidth == FmBandwidth::Narrow
                &&& (row.rx_tone_kind, row.rx_ctcss_dhz, row.rx_dcs_code) == tone_parts(
                    Tone::NoTone,
                )
                &&& (row.tx_tone_kind, row.tx_ctcss_dhz, row.tx_dcs_code) == tone_parts(
                    Tone::NoTone,
                )
            },
        }
        &&& match self {
            RepeaterService::Dmr { color_code, dmr_repeater_id, network, .. } => {
                &&& row.dmr_color_code == color_code
                &&& row.dmr_repeater_id == dmr_repeater_id
                &&& row.dmr_network == network
            },
            _ => {
                &&& row.dmr_color_code == 0
                &&& row.dmr_repeater_id is None
                &&& row.dmr_network@.len() == 0
            },
        }
        &&& match self {
            RepeaterService::Dstar { mode, gateway_call_sign, reflector, .. } => {
                &&& row.dstar_mode == mode
                &&& row.dstar_gateway_call_sign == gateway_call_sign
                &&& row.dstar_reflector == reflector
            },
            _ => {
                &&& row.dstar_mode == DstarMode::Dv
                &&& row.dstar_gateway_call_sign is None
                &&& row.dstar_reflector is None
            },
        }
        &&& match self {
            RepeaterService::C4fm { wires_x_node_id, room, .. } => {
                &&& row.c4fm_wires_x_node_id == wires_x_node_id
                &&& row.c4fm_room == room
            },
            _ => {
                &&& row.c4fm_wires_x_node_id is None
                &&& row.c4fm_room is None
            },
        }
        &&& match self {
            RepeaterService::Aprs { mode, path, .. } => {
                &&& row.aprs_mode == mode
                &&& row.aprs_path == path
            },
            _ => {
                &&& row.aprs_mode is None
                &&& row.aprs_path is None
            },
        }
        &&& match self {
            RepeaterService::Ssb { sideband, .. } => row.ssb_sideband == sideband,
            _ => row.ssb_sideband is None,
        }
    }

    /// The service a stored row describes: its kind picks the variant, which
    /// takes the common settings, the columns of that kind, the tones of
    /// their three columns each, and the note unless the note column is
    /// empty.
    pub open spec fn spec_from_row(value: RepeaterServiceDao) -> RepeaterService {
        let note = note_of_column(value.note);
        match value.kind {
            RepeaterServiceKind::Fm => RepeaterService::Fm {
                label: value.label,
                rx_hz: value.rx_hz,
                tx_hz: value.tx_hz,
                bandwidth: value.fm_bandwidth,
                rx_tone: tone_of_parts(value.rx_tone_kind, value.rx_ctcss_dhz, value.rx_dcs_code),
                tx_tone: tone_of_parts(value.tx_tone_kind, value.tx_ctcss_dhz, value.tx_dcs_code),
                note,
            },
            RepeaterServiceKind::Am => RepeaterService::Am {
                label: value.label,
                rx_hz: value.rx_hz,
                tx_hz: value.tx_hz,
                note,
            },
            RepeaterServiceKind::Ssb => RepeaterService::Ssb {
                label: value.label,
                rx_hz: value.rx_hz,
                tx_hz: value.tx_hz,
                sideband: value.ssb_sideband,
                note,
            },
            RepeaterServiceKind::Dstar => RepeaterService::Dstar {
                label: value.label,
                rx_hz: value.rx_hz,
                tx_hz: value.tx_hz,
                mode: value.dstar_mode,
                gateway_call_sign: value.dstar_gateway_call_sign,
                reflector: value.dstar_reflector,
                note,
            },
            RepeaterServiceKind::Dmr => RepeaterService::Dmr {
                label: value.label,
                rx_hz: value.rx_hz,
                tx_hz: value.tx_hz,
                color_code: value.dmr_color_code,
                dmr_repeater_id: value.dmr_repeater_id,
                network: value.dmr_network,
                note,
            },
            RepeaterServiceKind::C4fm => RepeaterService::C4fm {
                label: value.label,
                rx_hz: value.rx_hz,
                tx_hz: value.tx_hz,
                wires_x_node_id: value.c4fm_wires_x_node_id,
                room: value.c4fm_room,
                note,
            },
            RepeaterServiceKind::Aprs => RepeaterService::Aprs {
                label: value.label,
                rx_hz: value.rx_hz,
                tx_hz: value.tx_hz,
                mode: value.aprs_mode,
                path: value.aprs_path,
                note,
            },
        }
    }
}


impl RepeaterService {
    /// The service's label.
    pub fn label(&self) -> (r: &str)
        ensures
            r@ == self.spec_label()@,
    {
        match self {
            RepeaterService::Fm { label, .. } => label.as_str(),
            RepeaterService::Am { label, .. } => label.as_str(),
            RepeaterService::Ssb { label, .. } => label.as_str(),
            RepeaterService::Dstar { label, .. } => label.as_str(),
            RepeaterService::Dmr { label, .. } => label.as_str(),
            RepeaterService::C4fm { label, .. } => label.as_str(),
            RepeaterService::Aprs { label, .. } => label.as_str(),
        }
    }

    /// The frequency the repeater listens on, in hertz.
    pub fn rx_hz(&self) -> (r: i64)
        ensures
            r == self.spec_rx_hz().spec_hz(),
    {
        match self {
            RepeaterService::Fm { rx_hz, .. } => rx_hz.hz(),
            RepeaterService::Am { rx_hz, .. } => rx_hz.hz(),
            RepeaterService::Ssb { rx_hz, .. } => rx_hz.hz(),
            RepeaterService::Dstar { rx_hz, .. } => rx_hz.hz(),
            RepeaterService::Dmr { rx_hz, .. } => rx_hz.hz(),
            RepeaterService::C4fm { rx_hz, .. } => rx_hz.hz(),
            RepeaterService::Aprs { rx_hz, .. } => rx_hz.hz(),
        }
    }

    /// The frequency the repeater transmits on, in hertz.
    pub fn tx_hz(&self) -> (r: i64)
        ensures
            r == self.spec_tx_hz().spec_hz(),
    {
        match self {
            RepeaterService::Fm { tx_hz, .. } => tx_hz.hz(),
            RepeaterService::Am { tx_hz, .. } => tx_hz.hz(),
            RepeaterService::Ssb { tx_hz, .. } => tx_hz.hz(),
            RepeaterService::Dstar { tx_hz, .. } => tx_hz.hz(),
            RepeaterService::Dmr { tx_hz, .. } => tx_hz.hz(),
            RepeaterService::C4fm { tx_hz, .. } => tx_hz.hz(),
            RepeaterService::Aprs { tx_hz, .. } => tx_hz.hz(),
        }
    }

    /// The label of the service's kind, such as `D-STAR`.
    pub fn kind_label(&self) -> (r: &'static str)
        ensures
            r@ == self.spec_kind().spec_label(),
    {
        proof {
            reveal_strlit("FM");
            reveal_strlit("AM");
            reveal_strlit("SSB");
            reveal_strlit("D-STAR");
            reveal_strlit("DMR");
            reveal_strlit("C4FM");
            reveal_strlit("APRS");
        }
        match self {
            RepeaterService::Fm { .. } => "FM",
            RepeaterService::Am { .. } => "AM",
            RepeaterService::Ssb { .. } => "SSB",
            RepeaterService::Dstar { .. } => "D-STAR",
            RepeaterService::Dmr { .. } => "DMR",
            RepeaterService::C4fm { .. } => "C4FM",
            RepeaterService::Aprs { .. } => "APRS",
        }
    }

    /// The row to store for this service on repeater `repeater_id`.
    pub fn to_new_dao(self, repeater_id: i64) -> (r: NewRepeaterServiceDao)
        ensures
            self.is_stored_as(r, repeater_id),
    {
        match self {
            RepeaterService::Fm { label, rx_hz, tx_hz, bandwidth, rx_tone, tx_tone, note } => {
                let (rx_tone_kind, rx_ctcss_dhz, rx_dcs_code) = tone_to_parts(rx_tone);
                let (tx_tone_kind, tx_ctcss_dhz, tx_dcs_code) = tone_to_parts(tx_tone);
                NewRepeaterServiceDao {
                    repeater_id,
                    kind: RepeaterServiceKind::Fm,
                    enabled: true,
                    label,
                    rx_hz,
                    tx_hz,
                    note: note_column(note),
                    fm_bandwidth: bandwidth,
                    rx_tone_kind,
                    rx_ctcss_dhz,
                    rx_dcs_code,
                    tx_tone_kind,
                    tx_ctcss_dhz,
                    tx_dcs_code,
                    dmr_color_code: 0,
                    dmr_repeater_id: None,
                    dmr_network: String::new(),
                    dstar_mode: DstarMode::Dv,
                    dstar_gateway_call_sign: None,
                    dstar_reflector: None,
                    c4fm_wires_x_node_id: None,
                    c4fm_room: None,
                    aprs_mode: None,
                    aprs_path: None,
                    ssb_sideband: None,
                }
            },
            RepeaterService::Am { label, rx_hz, tx_hz, note } => NewRepeaterServiceDao {
                repeater_id,
                kind: RepeaterServiceKind::Am,
                enabled: true,
                label,
                rx_hz,
                tx_hz,
                note: note_column(note),
                fm_bandwidth: FmBandwidth::Narrow,
                rx_tone_kind: ToneKind::NoTone,
                rx_ctcss_dhz: None,
                rx_dcs_code: None,
                tx_tone_kind: ToneKind::NoTone,
                tx_ctcss_dhz: None,
                tx_dcs_code: None,
                dmr_color_code: 0,
                dmr_repeater_id: None,
                dmr_network: String::new(),
                dstar_mode: DstarMode::Dv,
                dstar_gateway_call_sign: None,
                dstar_reflector: None,
                c4fm_wires_x_node_id: None,
                c4fm_room: None,
                aprs_mode: None,
                aprs_path: None,
                ssb_sideband: None,
            },
            RepeaterService::Ssb { label, rx_hz, tx_hz, sideband, note } => NewRepeaterServiceDao {
                repeater_id,
                kind: RepeaterServiceKind::Ssb,
                enabled: true,
                label,
                rx_hz,
                tx_hz,
                note: note_column(note),
                fm_bandwidth: FmBandwidth::Narrow,
                rx_tone_kind: ToneKind::NoTone,
                rx_ctcss_dhz: None,
                rx_dcs_code: None,
                tx_tone_kind: ToneKind::NoTone,
                tx_ctcss_dhz: None,
                tx_dcs_code: None,
                dmr_color_code: 0,
                dmr_repeater_id: None,
                dmr_network: String::new(),
                dstar_mode: DstarMode::Dv,
                dstar_gateway_call_sign: None,
                dstar_reflector: None,
                c4fm_wires_x_node_id: None,
                c4fm_room: None,
                aprs_mode: None,
                aprs_path: None,
                ssb_sideband: sideband,
            },
            RepeaterService::Dstar { label, rx_hz, tx_hz, mode, gateway_call_sign, reflector, note } => {
                NewRepeaterServiceDao {
                    repeater_id,
                    kind: RepeaterServiceKind::Dstar,
                    enabled: true,
                    label,
                    rx_hz,
                    tx_hz,
                    note: note_column(note),
                    fm_bandwidth: FmBandwidth::Narrow,
                    rx_tone_kind: ToneKind::NoTone,
                    rx_ctcss_dhz: None,
                    rx_dcs_code: None,
                    tx_tone_kind: ToneKind::NoTone,
                    tx_ctcss_dhz: None,
                    tx_dcs_code: None,
                    dmr_color_code: 0,
                    dmr_repeater_id: None,
                    dmr_network: String::new(),
                    dstar_mode: mode,
                    dstar_gateway_call_sign: gateway_call_sign,
                    dstar_reflector: reflector,
                    c4fm_wires_x_node_id: None,
                    c4fm_room: None,
                    aprs_mode: None,
                    aprs_path: None,
                    ssb_sideband: None,
                }
            },
            RepeaterService::Dmr { label, rx_hz, tx_hz, color_code, dmr_repeater_id, network, note } => {
                NewRepeaterServiceDao {
                    repeater_id,
                    kind: RepeaterServiceKind::Dmr,
                    enabled: true,
                    label,
                    rx_hz,
                    tx_hz,
                    note: note_column(note),
                    fm_bandwidth: FmBandwidth::Narrow,
                    rx_tone_kind: ToneKind::NoTone,
                    rx_ctcss_dhz: None,
                    rx_dcs_code: None,
                    tx_tone_kind: ToneKind::NoTone,
                    tx_ctcss_dhz: None,
                    tx_dcs_code: None,
                    dmr_color_code: color_code,
                    dmr_repeater_id,
                    dmr_network: network,
                    dstar_mode: DstarMode::Dv,
                    dstar_gateway_call_sign: None,
                    dstar_reflector: None,
                    c4fm_wires_x_node_id: None,
                    c4fm_room: None,
                    aprs_mode: None,
                    aprs_path: None,
                    ssb_sideband: None,
                }
            },
            RepeaterService::C4fm { label, rx_hz, tx_hz, wires_x_node_id, room, note } => {
                NewRepeaterServiceDao {
                    repeater_id,
                    kind: RepeaterServiceKind::C4fm,
                    enabled: true,
                    label,
                    rx_hz,
                    tx_hz,
                    note: note_column(note),
                    fm_bandwidth: FmBandwidth::Narrow,
                    rx_tone_kind: ToneKind::NoTone,
                    rx_ctcss_dhz: None,
                    rx_dcs_code: None,
                    tx_tone_kind: ToneKind::NoTone,
                    tx_ctcss_dhz: None,
                    tx_dcs_code: None,
                    dmr_color_code: 0,
                    dmr_repeater_id: None,
                    dmr_network: String::new(),
                    dstar_mode: DstarMode::Dv,
                    dstar_gateway_call_sign: None,
                    dstar_reflector: None,
                    c4fm_wires_x_node_id: wires_x_node_id,
                    c4fm_room: room,
                    aprs_mode: None,
                    aprs_path: None,
                    ssb_sideband: None,
                }
            },
            RepeaterService::Aprs { label, rx_hz, tx_hz, mode, path, note } => NewRepeaterServiceDao {
                repeater_id,
                kind: RepeaterServiceKind::Aprs,
                enabled: true,
                label,
                rx_hz,
                tx_hz,
                note: note_column(note),
                fm_bandwidth: FmBandwidth::Narrow,
                rx_tone_kind: ToneKind::NoTone,
                rx_ctcss_dhz: None,
                rx_dcs_code: None,
                tx_tone_kind: ToneKind::NoTone,
                tx_ctcss_dhz: None,
                tx_dcs_code: None,
                dmr_color_code: 0,
                dmr_repeater_id: None,
                dmr_network: String::new(),
                dstar_mode: DstarMode::Dv,
                dstar_gateway_call_sign: None,
                dstar_reflector: None,
                c4fm_wires_x_node_id: None,
                c4fm_room: None,
                aprs_mode: mode,
                aprs_path: path,
                ssb_sideband: None,
            },
        }
    }

    /// The service a stored row describes.
    pub fn from(value: RepeaterServiceDao) -> (r: RepeaterService)
        ensures
            r == RepeaterService::spec_from_row(value),
    {
        let rx_tone = tone_from_parts(value.rx_tone_kind, value.rx_ctcss_dhz, value.rx_dcs_code);
        let tx_tone = tone_from_parts(value.tx_tone_kind, value.tx_ctcss_dhz, value.tx_dcs_code);
        let note = note_from_column(value.note);
        match value.kind {
            RepeaterServiceKind::Fm => RepeaterService::Fm {
                label: value.label,
                rx_hz: value.rx_hz,
                tx_hz: value.tx_hz,
                bandwidth: value.fm_bandwidth,
                rx_tone,
                tx_tone,
                note,
            },
            RepeaterServiceKind::Am => RepeaterService::Am {
                label: value.label,
                rx_hz: value.rx_hz,
                tx_hz: value.tx_hz,
                note,
            },
            RepeaterServiceKind::Ssb => RepeaterService::Ssb {
                label: value.label,
                rx_hz: value.rx_hz,
                tx_hz: value.tx_hz,
                sideband: value.ssb_sideband,
                note,
            },
            RepeaterServiceKind::Dstar => RepeaterService::Dstar {
                label: value.label,
                rx_hz: value.rx_hz,
                tx_hz: value.tx_hz,
                mode: value.dstar_mode,
                gateway_call_sign: value.dstar_gateway_call_sign,
                reflector: value.dstar_reflector,
                note,
            },
            RepeaterServiceKind::Dmr => RepeaterService::Dmr {
                label: value.label,
                rx_hz: value.rx_hz,
                tx_hz: value.tx_hz,
                color_code: value.dmr_color_code,
                dmr_repeater_id: value.dmr_repeater_id,
                network: value.dmr_network,
                note,
            },
            RepeaterServiceKind::C4fm => RepeaterService::C4fm {
                label: value.label,
                rx_hz: value.rx_hz,
                tx_hz: value.tx_hz,
                wires_x_node_id: value.c4fm_wires_x_node_id,
                room: value.c4fm_room,
                note,
            },
            RepeaterServiceKind::Aprs => RepeaterService::Aprs {
                label: value.label,
                rx_hz: value.rx_hz,
                tx_hz: value.tx_hz,
                mode: value.aprs_mode,
                path: value.aprs_path,
                note,
            },
        }
    }
}

/// The note column for a note: the note itself, or empty text.
fn note_column(note: Option<String>) -> (r: String)
    ensures
        is_note_column(r, note),
{
    match note {
        Some(n) => n,
        None => String::new(),
    }
}

/// The note a note column holds: none when it is empty.
fn note_from_column(note: String) -> (r: Option<String>)
    ensures
        r == note_of_column(note),
{
    if note.as_str().is_empty() {
        None
    } else {
        Some(note)
    }
}

/// A service stored and read back is the same service, as long as its note,
/// if it has one, is not empty text (an empty note reads back as no note).
pub proof fn lemma_stored_service_reads_back(
    service: RepeaterService,
    row: NewRepeaterServiceDao,
    repeater_id: i64,
    id: i64,
)
    requires
        service.is_stored_as(row, repeater_id),
        service.spec_note() matches Some(n) ==> n@.len() > 0,
    ensures
        RepeaterService::spec_from_row(stored(row, id)) == service,
{
    lemma_tone_parts_roundtrip(match service {
        RepeaterService::Fm { rx_tone, .. } => rx_tone,
        _ => Tone::NoTone,
    });
    lemma_tone_parts_roundtrip(match service {
        RepeaterService::Fm { tx_tone, .. } => tx_tone,
        _ => Tone::NoTone,
    });
}

} // verus!
