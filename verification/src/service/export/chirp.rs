use vstd::prelude::*;

use super::ExportOptions;
use crate::dao::repeater_service::FmBandwidth;
use crate::frequency::{Frequency, mhz_text};
use crate::repeater_service::Tone;
use crate::dao::repeater_service::{NewRepeaterServiceDao, stored};
use crate::repeater_service::RepeaterService;
use crate::service::repeater_system::{
    FmServiceItem, fm_item, lemma_stored_fm_service_is_listed, note_text,
};
use crate::text::{
    decimal, decimal_len, exec_digit_char, digit_char, lemma_decimal_len_bound, owned, pow10,
    push_decimal, push_repeated, push_str, string_of, trim, trim_chars, zero_pad,
};

verus! {

/// The tone frequency CHIRP expects in an unused tone column.
pub open spec fn default_tone_freq() -> Seq<char> {
    seq!['8', '8', '.', '5']
}

/// The DTCS code CHIRP expects in an unused code column.
pub open spec fn default_dtcs_code() -> Seq<char> {
    seq!['0', '2', '3']
}

/// The cross mode CHIRP expects when no cross mode applies.
pub open spec fn default_cross_mode() -> Seq<char> {
    seq!['T', 'o', 'n', 'e', '-', '>', 'T', 'o', 'n', 'e']
}

/// A CTCSS tone (tenths of a hertz) with one decimal, such as `88.5`.
pub open spec fn ctcss_text(dhz: u32) -> Seq<char> {
    decimal((dhz / 10) as nat) + seq!['.', digit_char((dhz % 10) as int)]
}

/// A DCS code with at least three digits, as `{:03}` writes it: `023`,
/// and for a negative code a minus sign within the width, `-05`.
pub open spec fn dtcs_text(code: i32) -> Seq<char> {
    if code >= 0 {
        zero_pad(decimal(code as nat), 3)
    } else {
        seq!['-'] + zero_pad(decimal((-code) as nat), 2)
    }
}

/// The tone columns of a CHIRP channel for a transmit and a receive tone:
/// the tone mode, cross mode, transmit and receive tone frequency, and
/// transmit and receive DTCS code.
pub open spec fn tone_columns(tx: Tone, rx: Tone) -> (
    Seq<char>,
    Seq<char>,
    Seq<char>,
    Seq<char>,
    Seq<char>,
    Seq<char>,
) {
    let tone = default_tone_freq();
    let code = default_dtcs_code();
    let cross = default_cross_mode();
    match (tx, rx) {
        (Tone::NoTone, Tone::NoTone) => (Seq::empty(), cross, tone, tone, code, code),
        (Tone::CTCSS(t), Tone::NoTone) => (seq!['T', 'o', 'n', 'e'], cross, ctcss_text(t), tone, code, code),
        (Tone::NoTone, Tone::CTCSS(r)) => (seq!['T', 'S', 'Q', 'L'], cross, tone, ctcss_text(r), code, code),
        (Tone::CTCSS(t), Tone::CTCSS(r)) => if t == r {
            (seq!['T', 'S', 'Q', 'L'], cross, ctcss_text(t), ctcss_text(r), code, code)
        } else {
            (seq!['C', 'r', 'o', 's', 's'], cross, ctcss_text(t), ctcss_text(r), code, code)
        },
        (Tone::DCS(t), Tone::NoTone) => (
            seq!['C', 'r', 'o', 's', 's'],
            seq!['D', 'T', 'C', 'S', '-', '>'],
            tone,
            tone,
            dtcs_text(t),
            code,
        ),
        (Tone::NoTone, Tone::DCS(r)) => (
            seq!['C', 'r', 'o', 's', 's'],
            seq!['-', '>', 'D', 'T', 'C', 'S'],
            tone,
            tone,
            code,
            dtcs_text(r),
        ),
        (Tone::DCS(t), Tone::DCS(r)) => if t == r {
            (seq!['D', 'T', 'C', 'S'], cross, tone, tone, dtcs_text(t), code)
        } else {
            (
                seq!['C', 'r', 'o', 's', 's'],
                seq!['D', 'T', 'C', 'S', '-', '>', 'D', 'T', 'C', 'S'],
                tone,
                tone,
                dtcs_text(t),
                dtcs_text(r),
            )
        },
        (Tone::CTCSS(t), Tone::DCS(r)) => (
            seq!['C', 'r', 'o', 's', 's'],
            seq!['T', 'o', 'n', 'e', '-', '>', 'D', 'T', 'C', 'S'],
            ctcss_text(t),
            tone,
            code,
            dtcs_text(r),
        ),
        (Tone::DCS(t), Tone::CTCSS(r)) => (
            seq!['C', 'r', 'o', 's', 's'],
            seq!['D', 'T', 'C', 'S', '-', '>', 'T', 'o', 'n', 'e'],
            tone,
            ctcss_text(r),
            dtcs_text(t),
            code,
        ),
    }
}

/// How one side of a cross mode names its tone: `Tone` for CTCSS, `DTCS`
/// for DCS, nothing without a tone.
pub open spec fn tone_side(tone: Tone) -> Seq<char> {
    match tone {
        Tone::NoTone => Seq::empty(),
        Tone::CTCSS(_) => seq!['T', 'o', 'n', 'e'],
        Tone::DCS(_) => seq!['D', 'T', 'C', 'S'],
    }
}

/// When the access tone is exported, the tone columns of a service are
/// those of its transmit and its receive tone.
pub proof fn lemma_exported_tone_columns_use_both_tones(service: FmServiceItem, options: ExportOptions)
    requires
        options.export_rx_tone,
    ensures
        exported_tone_columns(service, options) == tone_columns(service.tx_tone, service.rx_tone),
{
}

/// Each tone column carries the service's own tone where it has one, and
/// CHIRP's placeholder where it has none: the transmit and receive tone
/// frequency columns hold the transmit and receive CTCSS tones, the DTCS
/// code column holds the transmit DCS code, and the receive DTCS code column
/// holds the receive DCS code unless it is the transmit code as well. The
/// tone mode is empty without tones, `Tone` for a transmit CTCSS tone alone,
/// `TSQL` for a receive CTCSS tone matched or alone, `DTCS` for one DCS code
/// both ways, and `Cross` for every other pairing.
pub proof fn lemma_tone_columns_carry_the_tones(tx: Tone, rx: Tone)
    ensures
        ({
            let cols = tone_columns(tx, rx);
            &&& cols.2 == match tx {
                Tone::CTCSS(t) => ctcss_text(t),
                _ => default_tone_freq(),
            }
            &&& cols.3 == match rx {
                Tone::CTCSS(r) => ctcss_text(r),
                _ => default_tone_freq(),
            }
            &&& cols.4 == match tx {
                Tone::DCS(t) => dtcs_text(t),
                _ => default_dtcs_code(),
            }
            &&& cols.5 == match rx {
                Tone::DCS(r) => if tx == rx {
                    default_dtcs_code()
                } else {
                    dtcs_text(r)
                },
                _ => default_dtcs_code(),
            }
            &&& (cols.0 == Seq::<char>::empty()) == (tx == Tone::NoTone && rx == Tone::NoTone)
            &&& (cols.0 == seq!['T', 'o', 'n', 'e']) == (tx is CTCSS && rx == Tone::NoTone)
            &&& (cols.0 == seq!['T', 'S', 'Q', 'L']) == (rx is CTCSS && (tx == Tone::NoTone
                || tx == rx))
            &&& (cols.0 == seq!['D', 'T', 'C', 'S']) == (tx is DCS && tx == rx)
            &&& (cols.0 == seq!['C', 'r', 'o', 's', 's']) == !(
            (tx == Tone::NoTone && rx == Tone::NoTone)
                || (tx is CTCSS && rx == Tone::NoTone)
                || (rx is CTCSS && (tx == Tone::NoTone || tx == rx))
                || (tx is DCS && tx == rx))
            &&& cols.0 == seq!['C', 'r', 'o', 's', 's'] ==> cols.1 == tone_side(tx) + seq!['-', '>']
                + tone_side(rx)
            &&& cols.0 != seq!['C', 'r', 'o', 's', 's'] ==> cols.1 == default_cross_mode()
        }),
{
    let cols = tone_columns(tx, rx);
    let e = Seq::<char>::empty();
    let tone = seq!['T', 'o', 'n', 'e'];
    let tsql = seq!['T', 'S', 'Q', 'L'];
    let dtcs = seq!['D', 'T', 'C', 'S'];
    let cross = seq!['C', 'r', 'o', 's', 's'];
    assert(e.len() == 0 && tone.len() == 4 && tsql.len() == 4 && dtcs.len() == 4 && cross.len() == 5);
    assert(tone[1] == 'o' && tsql[1] == 'S' && dtcs[1] == 'T');
    assert(tone[0] == 'T' && tsql[0] == 'T' && dtcs[0] == 'D');
    assert(tone_side(tx) + seq!['-', '>'] + tone_side(rx) =~= cols.1 || cols.0 != cross);
}

/// A DCS code as CHIRP writes it.
pub fn format_dtcs(code: i32) -> (r: String)
    ensures
        r@ == dtcs_text(code),
{
    let mut out: Vec<char> = Vec::new();
    let (magnitude, width): (u64, usize) = if code >= 0 {
        (code as u64, 3)
    } else {
        out.push('-');
        ((-(code as i64)) as u64, 2)
    };
    let len = decimal_len(magnitude);
    let ghost before = out@;
    if len < width {
        push_repeated(&mut out, '0', width - len);
    }
    push_decimal(&mut out, magnitude);
    proof {
        assert(out@ =~= before + zero_pad(decimal(magnitude as nat), width as nat));
        assert(out@ =~= dtcs_text(code));
    }
    string_of(&out)
}

fn format_ctcss(dhz: u32) -> (r: String)
    ensures
        r@ == ctcss_text(dhz),
{
    let mut out: Vec<char> = Vec::new();
    push_decimal(&mut out, (dhz / 10) as u64);
    out.push('.');
    out.push(exec_digit_char((dhz % 10) as u64));
    proof {
        assert(out@ =~= ctcss_text(dhz));
    }
    string_of(&out)
}

fn default_tone_freq_string() -> (r: String)
    ensures
        r@ == default_tone_freq(),
{
    proof {
        reveal_strlit("88.5");
    }
    owned("88.5")
}

fn default_dtcs_code_string() -> (r: String)
    ensures
        r@ == default_dtcs_code(),
{
    proof {
        reveal_strlit("023");
    }
    owned("023")
}

fn default_cross_mode_string() -> (r: String)
    ensures
        r@ == default_cross_mode(),
{
    proof {
        reveal_strlit("Tone->Tone");
    }
    owned("Tone->Tone")
}

fn text(s: &str) -> (r: String)
    ensures
        r@ == s@,
{
    owned(s)
}

/// The tone columns of the channel for an FM service: the receive tone
/// counts only when the options export it.
pub open spec fn exported_tone_columns(service: FmServiceItem, options: ExportOptions) -> (
    Seq<char>,
    Seq<char>,
    Seq<char>,
    Seq<char>,
    Seq<char>,
    Seq<char>,
) {
    let rx = if options.export_rx_tone {
        service.rx_tone
    } else {
        Tone::NoTone
    };
    tone_columns(service.tx_tone, rx)
}

/// When the access tone is not exported, the tone columns of a service are
/// those of its transmit tone alone: a service with any other receive tone,
/// or none, gets the same columns.
pub proof fn lemma_tone_columns_ignore_rx(
    service: FmServiceItem,
    rx_tone: Tone,
    options: ExportOptions,
)
    requires
        !options.export_rx_tone,
    ensures
        exported_tone_columns(service, options) == tone_columns(service.tx_tone, Tone::NoTone),
        exported_tone_columns(FmServiceItem { rx_tone, ..service }, options)
            == exported_tone_columns(service, options),
{
}

/// The tone columns of the channel for an FM service, plus the DTCS
/// polarity; the receive tone counts only when the options export it.
pub fn tone_fields(service: &FmServiceItem, options: &ExportOptions) -> (r: (
    String,
    String,
    String,
    String,
    String,
    String,
    String,
))
    ensures
        ({
            let cols = exported_tone_columns(*service, *options);
            &&& r.0@ == cols.0
            &&& r.1@ == cols.1
            &&& r.2@ == cols.2
            &&& r.3@ == cols.3
            &&& r.4@ == cols.4
            &&& r.5@ == cols.5
            &&& r.6@ == seq!['N', 'N']
        }),
{
    proof {
        reveal_strlit("NN");
        reveal_strlit("");
        reveal_strlit("Tone");
        reveal_strlit("TSQL");
        reveal_strlit("Cross");
        reveal_strlit("DTCS");
        reveal_strlit("DTCS->");
        reveal_strlit("->DTCS");
        reveal_strlit("DTCS->DTCS");
        reveal_strlit("Tone->DTCS");
        reveal_strlit("DTCS->Tone");
        reveal_strlit("Tone->Tone");
    }
    let dtcs_polarity = text("NN");
    let rx_tone = if options.export_rx_tone {
        service.rx_tone
    } else {
        Tone::NoTone
    };
    let (tone, cross_mode, r_tone_freq, c_tone_freq, dtcs_code, rx_dtcs_code) = match (
        service.tx_tone,
        rx_tone,
    ) {
        (Tone::NoTone, Tone::NoTone) => (
            text(""),
            default_cross_mode_string(),
            default_tone_freq_string(),
            default_tone_freq_string(),
            default_dtcs_code_string(),
            default_dtcs_code_string(),
        ),
        (Tone::CTCSS(tx_hz), Tone::NoTone) => (
            text("Tone"),
            default_cross_mode_string(),
            format_ctcss(tx_hz),
            default_tone_freq_string(),
            default_dtcs_code_string(),
            default_dtcs_code_string(),
        ),
        (Tone::NoTone, Tone::CTCSS(rx_hz)) => (
            text("TSQL"),
            default_cross_mode_string(),
            default_tone_freq_string(),
            format_ctcss(rx_hz),
            default_dtcs_code_string(),
            default_dtcs_code_string(),
        ),
        (Tone::CTCSS(tx_hz), Tone::CTCSS(rx_hz)) => if tx_hz == rx_hz {
            (
                text("TSQL"),
                default_cross_mode_string(),
                format_ctcss(tx_hz),
                format_ctcss(rx_hz),
                default_dtcs_code_string(),
                default_dtcs_code_string(),
            )
        } else {
            (
                text("Cross"),
                text("Tone->Tone"),
                format_ctcss(tx_hz),
                format_ctcss(rx_hz),
                default_dtcs_code_string(),
                default_dtcs_code_string(),
            )
        },
        (Tone::DCS(tx_code), Tone::NoTone) => (
            text("Cross"),
            text("DTCS->"),
            default_tone_freq_string(),
            default_tone_freq_string(),
            format_dtcs(tx_code),
            default_dtcs_code_string(),
        ),
        (Tone::NoTone, Tone::DCS(rx_code)) => (
            text("Cross"),
            text("->DTCS"),
            default_tone_freq_string(),
            default_tone_freq_string(),
            default_dtcs_code_string(),
            format_dtcs(rx_code),
        ),
        (Tone::DCS(tx_code), Tone::DCS(rx_code)) => if tx_code == rx_code {
            (
                text("DTCS"),
                default_cross_mode_string(),
                default_tone_freq_string(),
                default_tone_freq_string(),
                format_dtcs(tx_code),
                default_dtcs_code_string(),
            )
        } else {
            (
                text("Cross"),
                text("DTCS->DTCS"),
                default_tone_freq_string(),
                default_tone_freq_string(),
                format_dtcs(tx_code),
                format_dtcs(rx_code),
            )
        },
        (Tone::CTCSS(tx_hz), Tone::DCS(rx_code)) => (
            text("Cross"),
            text("Tone->DTCS"),
            format_ctcss(tx_hz),
            default_tone_freq_string(),
            default_dtcs_code_string(),
            format_dtcs(rx_code),
        ),
        (Tone::DCS(tx_code), Tone::CTCSS(rx_hz)) => (
            text("Cross"),
            text("DTCS->Tone"),
            default_tone_freq_string(),
            format_ctcss(rx_hz),
            format_dtcs(tx_code),
            default_dtcs_code_string(),
        ),
    };
    (tone, cross_mode, r_tone_freq, c_tone_freq, dtcs_code, rx_dtcs_code, dtcs_polarity)
}


/// One channel of a CHIRP channel file, its columns in file order.
pub struct ChirpRepeaterRow {
    pub location: i64,
    pub name: String,
    pub frequency: String,
    pub duplex: String,
    pub offset: String,
    pub tone: String,
    pub r_tone_freq: String,
    pub c_tone_freq: String,
    pub dtcs_code: String,
    pub dtcs_polarity: String,
    pub rx_dtcs_code: String,
    pub cross_mode: String,
    pub mode: String,
    pub t_step: String,
    pub skip: String,
    pub power: String,
    pub comment: String,
    pub urcall: String,
    pub rpt1call: String,
    pub rpt2call: String,
    pub dvcode: String,
}

/// The duplex sign CHIRP writes for an offset: empty, `+` or `-`.
pub open spec fn duplex_text(offset_hz: int) -> Seq<char> {
    if offset_hz == 0 {
        Seq::empty()
    } else if offset_hz > 0 {
        seq!['+']
    } else {
        seq!['-']
    }
}

/// The frequency columns of a channel: the radio transmits on the
/// repeater's receive frequency, and the offset reaches the repeater's
/// transmit frequency from there. Gives the channel frequency, the duplex
/// sign and the size of the offset.
fn frequency_fields(tx_hz: Frequency, rx_hz: Frequency) -> (r: (Frequency, String, i64))
    ensures
        r.0 == rx_hz,
        r.1@ == duplex_text(tx_hz.spec_hz() - rx_hz.spec_hz()),
        r.2 == if tx_hz.spec_hz() >= rx_hz.spec_hz() {
            tx_hz.spec_hz() - rx_hz.spec_hz()
        } else {
            rx_hz.spec_hz() - tx_hz.spec_hz()
        },
        r.2 >= 0,
{
    proof {
        reveal_strlit("");
        reveal_strlit("+");
        reveal_strlit("-");
    }
    let offset_hz = tx_hz.hz() - rx_hz.hz();
    if offset_hz == 0 {
        (rx_hz, text(""), 0)
    } else if offset_hz > 0 {
        (rx_hz, text("+"), offset_hz)
    } else {
        (rx_hz, text("-"), -offset_hz)
    }
}

/// The offset a duplex sign and an offset size stand for.
pub open spec fn signed_offset(duplex: Seq<char>, size: int) -> int {
    if duplex == seq!['-'] {
        -size
    } else {
        size
    }
}

/// A channel reaches the repeater: its frequency (the repeater's receive
/// frequency) moved by the offset its duplex sign and offset size stand for
/// is the repeater's transmit frequency.
pub proof fn lemma_offset_reaches_tx(tx: int, rx: int)
    ensures
        rx + signed_offset(duplex_text(tx - rx), if tx >= rx { tx - rx } else { rx - tx }) == tx,
{
    if tx - rx > 0 {
        assert(seq!['+'] != seq!['-']) by {
            assert(seq!['+'][0] != seq!['-'][0]);
        }
    } else if tx - rx == 0 {
        assert(Seq::<char>::empty() != seq!['-']) by {
            assert(seq!['-'].len() == 1);
        }
    }
}

/// The channel mode for an FM bandwidth.
pub open spec fn mode_text(bandwidth: FmBandwidth) -> Seq<char> {
    match bandwidth {
        FmBandwidth::Narrow => seq!['N', 'F', 'M'],
        FmBandwidth::Wide => seq!['F', 'M'],
    }
}

/// `row` is the channel for FM service `service` of the repeater with call
/// sign `call_sign`, at position `location`.
pub open spec fn is_fm_row(
    row: ChirpRepeaterRow,
    location: i64,
    call_sign: Seq<char>,
    service: FmServiceItem,
    options: ExportOptions,
) -> bool {
    let tx = service.tx_hz.spec_hz();
    let rx = service.rx_hz.spec_hz();
    let offset = if tx >= rx { tx - rx } else { rx - tx };
    let rx_tone = if options.export_rx_tone { service.rx_tone } else { Tone::NoTone };
    let cols = tone_columns(service.tx_tone, rx_tone);
    &&& row.location == location
    &&& row.name@ == trim(call_sign + seq![' '] + service.label@)
    &&& row.frequency@ == mhz_text(rx as nat)
    &&& row.duplex@ == duplex_text(tx - rx)
    &&& row.offset@ == mhz_text(offset as nat)
    &&& row.tone@ == cols.0
    &&& row.cross_mode@ == cols.1
    &&& row.r_tone_freq@ == cols.2
    &&& row.c_tone_freq@ == cols.3
    &&& row.dtcs_code@ == cols.4
    &&& row.rx_dtcs_code@ == cols.5
    &&& row.dtcs_polarity@ == seq!['N', 'N']
    &&& row.mode@ == mode_text(service.bandwidth)
    &&& row.t_step@ == seq!['5', '.', '0', '0']
    &&& row.skip@.len() == 0
    &&& row.power@ == seq!['5', '0', 'W']
    &&& row.comment@ == service.note@
    &&& row.urcall@.len() == 0
    &&& row.rpt1call@.len() == 0
    &&& row.rpt2call@.len() == 0
    &&& row.dvcode@.len() == 0
}

/// The channel for one FM service of a repeater.
fn build_fm_row(
    location: i64,
    call_sign: &str,
    service: &FmServiceItem,
    options: &ExportOptions,
) -> (r: ChirpRepeaterRow)
    ensures
        is_fm_row(r, location, call_sign@, *service, *options),
{
    proof {
        reveal_strlit(" ");
        reveal_strlit("NFM");
        reveal_strlit("FM");
        reveal_strlit("5.00");
        reveal_strlit("");
        reveal_strlit("50W");
    }
    let (frequency, duplex, offset_hz) = frequency_fields(service.tx_hz, service.rx_hz);
    let (tone, cross_mode, r_tone_freq, c_tone_freq, dtcs_code, rx_dtcs_code, dtcs_polarity) =
        tone_fields(service, options);
    let mut name_chars = crate::text::chars_of(call_sign);
    push_str(&mut name_chars, " ");
    push_str(&mut name_chars, service.label.as_str());
    assert(name_chars@ =~= call_sign@ + seq![' '] + service.label@);
    let name = string_of(&trim_chars(&name_chars));
    let offset = match Frequency::new_hz(offset_hz) {
        Ok(f) => f,
        Err(_) => frequency,
    };

    let row = ChirpRepeaterRow {
        location,
        name,
        frequency: frequency.to_string_mhz(),
        duplex,
        offset: offset.to_string_mhz(),
        tone,
        r_tone_freq,
        c_tone_freq,
        dtcs_code,
        dtcs_polarity,
        rx_dtcs_code,
        cross_mode,
        mode: match service.bandwidth {
            FmBandwidth::Narrow => text("NFM"),
            FmBandwidth::Wide => text("FM"),
        },
        t_step: text("5.00"),
        skip: String::new(),
        power: text("50W"),
        comment: service.note.clone(),
        urcall: String::new(),
        rpt1call: String::new(),
        rpt2call: String::new(),
        dvcode: String::new(),
    };
    assert(row.name@ == trim(call_sign@ + seq![' '] + service.label@));
    assert(row.frequency@ == mhz_text(service.rx_hz.spec_hz() as nat));
    assert(row.offset@ == mhz_text(offset_hz as nat));
    assert(row.mode@ == mode_text(service.bandwidth));
    assert(row.t_step@ == seq!['5', '.', '0', '0']);
    assert(row.power@ == seq!['5', '0', 'W']);
    assert(row.comment@ == service.note@);
    row
}

/// A repeater as the channel export sees it: its call sign and FM services.
pub struct ChirpRepeater {
    pub call_sign: String,
    pub fm_services: Vec<FmServiceItem>,
}

/// The (call sign, service) pairs of all FM services, repeater by repeater.
pub open spec fn fm_channels(repeaters: Seq<ChirpRepeater>) -> Seq<(Seq<char>, FmServiceItem)>
    decreases repeaters.len(),
{
    if repeaters.len() == 0 {
        Seq::empty()
    } else {
        let last = repeaters.last();
        fm_channels(repeaters.drop_last()) + last.fm_services@.map_values(
            |s: FmServiceItem| (last.call_sign@, s),
        )
    }
}

/// The channels of a CHIRP export: one per FM service, repeater by repeater
/// and service by service, numbered from 0.
pub fn chirp_rows(repeaters: &Vec<ChirpRepeater>, options: &ExportOptions) -> (r: Vec<
    ChirpRepeaterRow,
>)
    requires
        fm_channels(repeaters@).len() <= i64::MAX,
    ensures
        r@.len() == fm_channels(repeaters@).len(),
        forall|k: int|
            0 <= k < r@.len() ==> is_fm_row(
                #[trigger] r@[k],
                k as i64,
                fm_channels(repeaters@)[k].0,
                fm_channels(repeaters@)[k].1,
                *options,
            ),
{
    let mut rows: Vec<ChirpRepeaterRow> = Vec::new();
    let mut i: usize = 0;
    while i < repeaters.len()
        invariant
            i <= repeaters.len(),
            fm_channels(repeaters@).len() <= i64::MAX,
            rows@.len() == fm_channels(repeaters@.subrange(0, i as int)).len(),
            forall|k: int|
                0 <= k < rows@.len() ==> is_fm_row(
                    #[trigger] rows@[k],
                    k as i64,
                    fm_channels(repeaters@.subrange(0, i as int))[k].0,
                    fm_channels(repeaters@.subrange(0, i as int))[k].1,
                    *options,
                ),
        decreases repeaters.len() - i,
    {
        let repeater = &repeaters[i];
        let ghost prefix = fm_channels(repeaters@.subrange(0, i as int));
        let ghost added = repeater.fm_services@.map_values(
            |s: FmServiceItem| (repeater.call_sign@, s),
        );
        proof {
            assert(repeaters@.subrange(0, i + 1).drop_last() =~= repeaters@.subrange(0, i as int));
            assert(fm_channels(repeaters@.subrange(0, i + 1)) == prefix + added);
            lemma_fm_channels_prefix_len(repeaters@, i + 1);
        }
        let mut j: usize = 0;
        while j < repeater.fm_services.len()
            invariant
                j <= repeater.fm_services.len(),
                repeater == &repeaters@[i as int],
                i < repeaters.len(),
                added == repeater.fm_services@.map_values(
                    |s: FmServiceItem| (repeater.call_sign@, s),
                ),
                (prefix + added).len() <= i64::MAX,
                rows@.len() == prefix.len() + j,
                forall|k: int|
                    0 <= k < rows@.len() ==> is_fm_row(
                        #[trigger] rows@[k],
                        k as i64,
                        (prefix + added)[k].0,
                        (prefix + added)[k].1,
                        *options,
                    ),
            decreases repeater.fm_services.len() - j,
        {
            let location = rows.len() as i64;
            let row = build_fm_row(location, repeater.call_sign.as_str(), &repeater.fm_services[j], options);
            rows.push(row);
            j = j + 1;
        }
        i = i + 1;
    }
    proof {
        assert(repeaters@.subrange(0, i as int) =~= repeaters@);
    }
    rows
}

proof fn lemma_fm_channels_prefix_len(repeaters: Seq<ChirpRepeater>, n: int)
    requires
        0 <= n <= repeaters.len(),
    ensures
        fm_channels(repeaters.subrange(0, n)).len() <= fm_channels(repeaters).len(),
    decreases repeaters.len() - n,
{
    if n < repeaters.len() {
        lemma_fm_channels_prefix_len(repeaters, n + 1);
        assert(repeaters.subrange(0, n + 1).drop_last() =~= repeaters.subrange(0, n));
    } else {
        assert(repeaters.subrange(0, n) =~= repeaters);
    }
}

/// A stored FM service is exported as it was stored: its CHIRP channel is
/// named after the repeater and the service's label, listens on the
/// repeater's receive frequency with the duplex sign and offset that reach
/// its transmit frequency, carries the tone columns of its tones (the access
/// tone only when it is exported), the mode of its bandwidth, and its note.
pub proof fn lemma_stored_fm_service_exports(
    service: RepeaterService,
    row: NewRepeaterServiceDao,
    repeater_id: i64,
    id: i64,
    channel: ChirpRepeaterRow,
    location: i64,
    call_sign: Seq<char>,
    options: ExportOptions,
)
    requires
        service.is_stored_as(row, repeater_id),
        service is Fm,
        is_fm_row(channel, location, call_sign, fm_item(stored(row, id)), options),
    ensures
        match service {
            RepeaterService::Fm { label, rx_hz, tx_hz, bandwidth, rx_tone, tx_tone, note } => {
                let tx = tx_hz.spec_hz();
                let rx = rx_hz.spec_hz();
                let cols = tone_columns(
                    tx_tone,
                    if options.export_rx_tone {
                        rx_tone
                    } else {
                        Tone::NoTone
                    },
                );
                &&& channel.name@ == trim(call_sign + seq![' '] + label@)
                &&& channel.frequency@ == mhz_text(rx as nat)
                &&& channel.duplex@ == duplex_text(tx - rx)
                &&& channel.offset@ == mhz_text((if tx >= rx { tx - rx } else { rx - tx }) as nat)
                &&& rx + signed_offset(duplex_text(tx - rx), if tx >= rx { tx - rx } else { rx - tx }) == tx
                &&& channel.tone@ == cols.0
                &&& channel.cross_mode@ == cols.1
                &&& channel.r_tone_freq@ == cols.2
                &&& channel.c_tone_freq@ == cols.3
                &&& channel.dtcs_code@ == cols.4
                &&& channel.rx_dtcs_code@ == cols.5
                &&& channel.mode@ == mode_text(bandwidth)
                &&& channel.comment@ == note_text(note)
            },
            _ => true,
        },
{
    lemma_stored_fm_service_is_listed(service, row, repeater_id, id);
    match service {
        RepeaterService::Fm { rx_hz, tx_hz, .. } => {
            lemma_offset_reaches_tx(tx_hz.spec_hz(), rx_hz.spec_hz());
        },
        _ => {},
    }
}

/// When the access tone is not exported, a service's receive tone never
/// shows in its channel: a service with any other receive tone, or none,
/// gives exactly the same channels.
pub proof fn lemma_rx_tone_ignored_when_not_exported(
    row: ChirpRepeaterRow,
    location: i64,
    call_sign: Seq<char>,
    service: FmServiceItem,
    rx_tone: Tone,
    options: ExportOptions,
)
    requires
        !options.export_rx_tone,
    ensures
        is_fm_row(row, location, call_sign, service, options) <==> is_fm_row(
            row,
            location,
            call_sign,
            FmServiceItem { rx_tone, ..service },
            options,
        ),
{
}

} // verus!
