use vstd::prelude::*;

use crate::dao::repeater_service::{
    AprsMode, DstarMode, FmBandwidth, NewRepeaterServiceDao, RepeaterServiceDao, RepeaterServiceKind,
    SsbSideband, stored,
};
use crate::frequency::Frequency;
use crate::repeater_service::{RepeaterService, Tone, lemma_tone_parts_roundtrip, tone_of_parts};

verus! {

/// An FM service as a repeater's page lists it.
pub struct FmServiceItem {
    pub label: String,
    pub enabled: bool,
    pub rx_hz: Frequency,
    pub tx_hz: Frequency,
    pub bandwidth: FmBandwidth,
    pub rx_tone: Tone,
    pub tx_tone: Tone,
    pub note: String,
}

/// A DMR service as a repeater's page lists it.
pub struct DmrServiceItem {
    pub label: String,
    pub enabled: bool,
    pub rx_hz: Frequency,
    pub tx_hz: Frequency,
    pub color_code: i16,
    pub dmr_repeater_id: Option<i64>,
    pub network: String,
    pub note: String,
}

/// A D-STAR service as a repeater's page lists it.
pub struct DstarServiceItem {
    pub label: String,
    pub enabled: bool,
    pub rx_hz: Frequency,
    pub tx_hz: Frequency,
    pub mode: DstarMode,
    pub gateway_call_sign: Option<String>,
    pub reflector: Option<String>,
    pub note: String,
}

/// A C4FM service as a repeater's page lists it.
pub struct C4fmServiceItem {
    pub label: String,
    pub enabled: bool,
    pub rx_hz: Frequency,
    pub tx_hz: Frequency,
    pub wires_x_node_id: Option<i32>,
    pub room: Option<String>,
    pub note: String,
}

/// An APRS service as a repeater's page lists it.
pub struct AprsServiceItem {
    pub label: String,
    pub enabled: bool,
    pub rx_hz: Frequency,
    pub tx_hz: Frequency,
    pub mode: Option<AprsMode>,
    pub path: Option<String>,
    pub note: String,
}

/// An SSB service as a repeater's page lists it.
pub struct SsbServiceItem {
    pub label: String,
    pub enabled: bool,
    pub rx_hz: Frequency,
    pub tx_hz: Frequency,
    pub sideband: Option<SsbSideband>,
    pub note: String,
}

/// An AM service as a repeater's page lists it.
pub struct AmServiceItem {
    pub label: String,
    pub enabled: bool,
    pub rx_hz: Frequency,
    pub tx_hz: Frequency,
    pub note: String,
}

/// A repeater's services, one list per kind.
pub struct ServiceItems {
    pub fm_services: Vec<FmServiceItem>,
    pub dmr_services: Vec<DmrServiceItem>,
    pub dstar_services: Vec<DstarServiceItem>,
    pub c4fm_services: Vec<C4fmServiceItem>,
    pub aprs_services: Vec<AprsServiceItem>,
    pub ssb_services: Vec<SsbServiceItem>,
    pub am_services: Vec<AmServiceItem>,
}

/// The rows of one kind, in their order.
pub open spec fn rows_of_kind(rows: Seq<RepeaterServiceDao>, kind: RepeaterServiceKind) -> Seq<
    RepeaterServiceDao,
> {
    rows.filter(|r: RepeaterServiceDao| r.kind == kind)
}

/// The FM list item a stored row describes.
pub open spec fn fm_item(r: RepeaterServiceDao) -> FmServiceItem {
    FmServiceItem {
        label: r.label,
        enabled: r.enabled,
        rx_hz: r.rx_hz,
        tx_hz: r.tx_hz,
        bandwidth: r.fm_bandwidth,
        rx_tone: tone_of_parts(r.rx_tone_kind, r.rx_ctcss_dhz, r.rx_dcs_code),
        tx_tone: tone_of_parts(r.tx_tone_kind, r.tx_ctcss_dhz, r.tx_dcs_code),
        note: r.note,
    }
}

/// The DMR list item a stored row describes.
pub open spec fn dmr_item(r: RepeaterServiceDao) -> DmrServiceItem {
    DmrServiceItem {
        label: r.label,
        enabled: r.enabled,
        rx_hz: r.rx_hz,
        tx_hz: r.tx_hz,
        color_code: r.dmr_color_code,
        dmr_repeater_id: r.dmr_repeater_id,
        network: r.dmr_network,
        note: r.note,
    }
}

/// The D-STAR list item a stored row describes.
pub open spec fn dstar_item(r: RepeaterServiceDao) -> DstarServiceItem {
    DstarServiceItem {
        label: r.label,
        enabled: r.enabled,
        rx_hz: r.rx_hz,
        tx_hz: r.tx_hz,
        mode: r.dstar_mode,
        gateway_call_sign: r.dstar_gateway_call_sign,
        reflector: r.dstar_reflector,
        note: r.note,
    }
}

/// The C4FM list item a stored row describes.
pub open spec fn c4fm_item(r: RepeaterServiceDao) -> C4fmServiceItem {
    C4fmServiceItem {
        label: r.label,
        enabled: r.enabled,
        rx_hz: r.rx_hz,
        tx_hz: r.tx_hz,
        wires_x_node_id: r.c4fm_wires_x_node_id,
        room: r.c4fm_room,
        note: r.note,
    }
}

/// The APRS list item a stored row describes.
pub open spec fn aprs_item(r: RepeaterServiceDao) -> AprsServiceItem {
    AprsServiceItem {
        label: r.label,
        enabled: r.enabled,
        rx_hz: r.rx_hz,
        tx_hz: r.tx_hz,
        mode: r.aprs_mode,
        path: r.aprs_path,
        note: r.note,
    }
}

/// The SSB list item a stored row describes.
pub open spec fn ssb_item(r: RepeaterServiceDao) -> SsbServiceItem {
    SsbServiceItem {
        label: r.label,
        enabled: r.enabled,
        rx_hz: r.rx_hz,
        tx_hz: r.tx_hz,
        sideband: r.ssb_sideband,
        note: r.note,
    }
}

/// The AM list item a stored row describes.
pub open spec fn am_item(r: RepeaterServiceDao) -> AmServiceItem {
    AmServiceItem {
        label: r.label,
        enabled: r.enabled,
        rx_hz: r.rx_hz,
        tx_hz: r.tx_hz,
        note: r.note,
    }
}

/// `items` lists the services of `rows`: each list holds, in row order, the
/// rows of its kind, each with its label, state, frequencies, note and the
/// settings of that kind.
pub open spec fn lists_services_of(items: ServiceItems, rows: Seq<RepeaterServiceDao>) -> bool {
    &&& items.fm_services@ == rows_of_kind(rows, RepeaterServiceKind::Fm).map_values(
        |r: RepeaterServiceDao| fm_item(r),
    )
    &&& items.dmr_services@ == rows_of_kind(rows, RepeaterServiceKind::Dmr).map_values(
        |r: RepeaterServiceDao| dmr_item(r),
    )
    &&& items.dstar_services@ == rows_of_kind(rows, RepeaterServiceKind::Dstar).map_values(
        |r: RepeaterServiceDao| dstar_item(r),
    )
    &&& items.c4fm_services@ == rows_of_kind(rows, RepeaterServiceKind::C4fm).map_values(
        |r: RepeaterServiceDao| c4fm_item(r),
    )
    &&& items.aprs_services@ == rows_of_kind(rows, RepeaterServiceKind::Aprs).map_values(
        |r: RepeaterServiceDao| aprs_item(r),
    )
    &&& items.ssb_services@ == rows_of_kind(rows, RepeaterServiceKind::Ssb).map_values(
        |r: RepeaterServiceDao| ssb_item(r),
    )
    &&& items.am_services@ == rows_of_kind(rows, RepeaterServiceKind::Am).map_values(
        |r: RepeaterServiceDao| am_item(r),
    )
}

proof fn lemma_rows_of_kind_step(rows: Seq<RepeaterServiceDao>, i: int, kind: RepeaterServiceKind)
    requires
        0 <= i < rows.len(),
    ensures
        rows_of_kind(rows.subrange(0, i + 1), kind) == if rows[i].kind == kind {
            rows_of_kind(rows.subrange(0, i), kind).push(rows[i])
        } else {
            rows_of_kind(rows.subrange(0, i), kind)
        },
{
    reveal(Seq::filter);
    assert(rows.subrange(0, i + 1).drop_last() =~= rows.subrange(0, i));
}

/// Sorts a repeater's service rows into one list per kind.
pub fn build_service_items(services: Vec<RepeaterServiceDao>) -> (r: ServiceItems)
    ensures
        lists_services_of(r, services@),
{
    let mut fm_services: Vec<FmServiceItem> = Vec::new();
    let mut dmr_services: Vec<DmrServiceItem> = Vec::new();
    let mut dstar_services: Vec<DstarServiceItem> = Vec::new();
    let mut c4fm_services: Vec<C4fmServiceItem> = Vec::new();
    let mut aprs_services: Vec<AprsServiceItem> = Vec::new();
    let mut ssb_services: Vec<SsbServiceItem> = Vec::new();
    let mut am_services: Vec<AmServiceItem> = Vec::new();
    let ghost rows = services@;
    let total = services.len();
    let mut rest = services;
    let mut i: usize = 0;
    proof {
        reveal(Seq::filter);
        assert(rest@ =~= rows.subrange(0, rows.len() as int));
        let e = rows.subrange(0, 0);
        assert(e.len() == 0);
        assert(fm_services@ =~= rows_of_kind(e, RepeaterServiceKind::Fm).map_values(|r: RepeaterServiceDao| fm_item(r)));
        assert(dmr_services@ =~= rows_of_kind(e, RepeaterServiceKind::Dmr).map_values(|r: RepeaterServiceDao| dmr_item(r)));
        assert(dstar_services@ =~= rows_of_kind(e, RepeaterServiceKind::Dstar).map_values(|r: RepeaterServiceDao| dstar_item(r)));
        assert(c4fm_services@ =~= rows_of_kind(e, RepeaterServiceKind::C4fm).map_values(|r: RepeaterServiceDao| c4fm_item(r)));
        assert(aprs_services@ =~= rows_of_kind(e, RepeaterServiceKind::Aprs).map_values(|r: RepeaterServiceDao| aprs_item(r)));
        assert(ssb_services@ =~= rows_of_kind(e, RepeaterServiceKind::Ssb).map_values(|r: RepeaterServiceDao| ssb_item(r)));
        assert(am_services@ =~= rows_of_kind(e, RepeaterServiceKind::Am).map_values(|r: RepeaterServiceDao| am_item(r)));
    }
    while rest.len() > 0
        invariant
            i + rest@.len() == rows.len(),
            rows.len() == total,
            rest@ == rows.subrange(i as int, rows.len() as int),
            lists_services_of(
                ServiceItems {
                    fm_services,
                    dmr_services,
                    dstar_services,
                    c4fm_services,
                    aprs_services,
                    ssb_services,
                    am_services,
                },
                rows.subrange(0, i as int),
            ),
        decreases rest@.len(),
    {
        let row = rest.remove(0);
        proof {
            assert(row == rows[i as int]);
            assert(rest@ =~= rows.subrange(i + 1, rows.len() as int));
            lemma_rows_of_kind_step(rows, i as int, RepeaterServiceKind::Fm);
            lemma_rows_of_kind_step(rows, i as int, RepeaterServiceKind::Dmr);
            lemma_rows_of_kind_step(rows, i as int, RepeaterServiceKind::Dstar);
            lemma_rows_of_kind_step(rows, i as int, RepeaterServiceKind::C4fm);
            lemma_rows_of_kind_step(rows, i as int, RepeaterServiceKind::Aprs);
            lemma_rows_of_kind_step(rows, i as int, RepeaterServiceKind::Ssb);
            lemma_rows_of_kind_step(rows, i as int, RepeaterServiceKind::Am);
        }
        let enabled = row.enabled;
        let note = row.note.clone();
        let service = RepeaterService::from(row);
        match service {
            RepeaterService::Fm { label, rx_hz, tx_hz, bandwidth, rx_tone, tx_tone, .. } => {
                fm_services.push(
                    FmServiceItem { label, enabled, rx_hz, tx_hz, bandwidth, rx_tone, tx_tone, note },
                );
            },
            RepeaterService::Dmr {
                label,
                rx_hz,
                tx_hz,
                color_code,
                dmr_repeater_id,
                network,
                ..
            } => {
                dmr_services.push(
                    DmrServiceItem {
                        label,
                        enabled,
                        rx_hz,
                        tx_hz,
                        color_code,
                        dmr_repeater_id,
                        network,
                        note,
                    },
                );
            },
            RepeaterService::Dstar { label, rx_hz, tx_hz, mode, gateway_call_sign, reflector, .. } => {
                dstar_services.push(
                    DstarServiceItem {
                        label,
                        enabled,
                        rx_hz,
                        tx_hz,
                        mode,
                        gateway_call_sign,
                        reflector,
                        note,
                    },
                );
            },
            RepeaterService::C4fm { label, rx_hz, tx_hz, wires_x_node_id, room, .. } => {
                c4fm_services.push(
                    C4fmServiceItem { label, enabled, rx_hz, tx_hz, wires_x_node_id, room, note },
                );
            },
            RepeaterService::Aprs { label, rx_hz, tx_hz, mode, path, .. } => {
                aprs_services.push(
                    AprsServiceItem { label, enabled, rx_hz, tx_hz, mode, path, note },
                );
            },
            RepeaterService::Ssb { label, rx_hz, tx_hz, sideband, .. } => {
                ssb_services.push(SsbServiceItem { label, enabled, rx_hz, tx_hz, sideband, note });
            },
            RepeaterService::Am { label, rx_hz, tx_hz, .. } => {
                am_services.push(AmServiceItem { label, enabled, rx_hz, tx_hz, note });
            },
        }
        i = i + 1;
        proof {
            assert(fm_services@ =~= rows_of_kind(rows.subrange(0, i as int), RepeaterServiceKind::Fm).map_values(|r: RepeaterServiceDao| fm_item(r)));
            assert(dmr_services@ =~= rows_of_kind(rows.subrange(0, i as int), RepeaterServiceKind::Dmr).map_values(|r: RepeaterServiceDao| dmr_item(r)));
            assert(dstar_services@ =~= rows_of_kind(rows.subrange(0, i as int), RepeaterServiceKind::Dstar).map_values(|r: RepeaterServiceDao| dstar_item(r)));
            assert(c4fm_services@ =~= rows_of_kind(rows.subrange(0, i as int), RepeaterServiceKind::C4fm).map_values(|r: RepeaterServiceDao| c4fm_item(r)));
            assert(aprs_services@ =~= rows_of_kind(rows.subrange(0, i as int), RepeaterServiceKind::Aprs).map_values(|r: RepeaterServiceDao| aprs_item(r)));
            assert(ssb_services@ =~= rows_of_kind(rows.subrange(0, i as int), RepeaterServiceKind::Ssb).map_values(|r: RepeaterServiceDao| ssb_item(r)));
            assert(am_services@ =~= rows_of_kind(rows.subrange(0, i as int), RepeaterServiceKind::Am).map_values(|r: RepeaterServiceDao| am_item(r)));
        }
    }
    proof {
        assert(rows.subrange(0, i as int) =~= rows);
    }
    ServiceItems {
        fm_services,
        dmr_services,
        dstar_services,
        c4fm_services,
        aprs_services,
        ssb_services,
        am_services,
    }
}


/// The number of rows of all kinds together is the number of rows.
proof fn lemma_kinds_partition(rows: Seq<RepeaterServiceDao>)
    ensures
        rows_of_kind(rows, RepeaterServiceKind::Fm).len() + rows_of_kind(
            rows,
            RepeaterServiceKind::Dmr,
        ).len() + rows_of_kind(rows, RepeaterServiceKind::Dstar).len() + rows_of_kind(
            rows,
            RepeaterServiceKind::C4fm,
        ).len() + rows_of_kind(rows, RepeaterServiceKind::Aprs).len() + rows_of_kind(
            rows,
            RepeaterServiceKind::Ssb,
        ).len() + rows_of_kind(rows, RepeaterServiceKind::Am).len() == rows.len(),
    decreases rows.len(),
{
    reveal(Seq::filter);
    if rows.len() > 0 {
        lemma_kinds_partition(rows.drop_last());
    }
}

/// Every service row lands in exactly one list: the lists together hold as
/// many items as there were rows.
pub proof fn lemma_every_service_listed_once(items: ServiceItems, rows: Seq<RepeaterServiceDao>)
    requires
        lists_services_of(items, rows),
    ensures
        items.fm_services@.len() + items.dmr_services@.len() + items.dstar_services@.len()
            + items.c4fm_services@.len() + items.aprs_services@.len() + items.ssb_services@.len()
            + items.am_services@.len() == rows.len(),
{
    lemma_kinds_partition(rows);
}

/// The rows of a kind are gathered in row order, each row once: no rows
/// give none, and one more row at the end is one more row of its own kind
/// only.
pub proof fn lemma_rows_of_kind_follow_the_rows(
    rows: Seq<RepeaterServiceDao>,
    row: RepeaterServiceDao,
    kind: RepeaterServiceKind,
)
    ensures
        rows_of_kind(Seq::empty(), kind) == Seq::<RepeaterServiceDao>::empty(),
        rows_of_kind(rows.push(row), kind) == if row.kind == kind {
            rows_of_kind(rows, kind).push(row)
        } else {
            rows_of_kind(rows, kind)
        },
{
    reveal(Seq::filter);
    assert(rows.push(row).drop_last() =~= rows);
    assert(Seq::<RepeaterServiceDao>::empty().filter(|r: RepeaterServiceDao| r.kind == kind)
        =~= Seq::<RepeaterServiceDao>::empty());
}

/// Every list item keeps what its row says: for each kind, the list has one
/// item per row of that kind, in row order, and the item's label, state,
/// receive and transmit frequencies, note and settings are the row's.
pub proof fn lemma_listed_items_keep_their_rows(items: ServiceItems, rows: Seq<RepeaterServiceDao>)
    requires
        lists_services_of(items, rows),
    ensures
        ({
            let fm = rows_of_kind(rows, RepeaterServiceKind::Fm);
            &&& items.fm_services@.len() == fm.len()
            &&& forall|k: int|
                0 <= k < fm.len() ==> {
                    let (it, row) = (#[trigger] items.fm_services@[k], fm[k]);
                    &&& row.kind == RepeaterServiceKind::Fm
                    &&& it.label == row.label && it.enabled == row.enabled
                    &&& it.rx_hz == row.rx_hz && it.tx_hz == row.tx_hz && it.note == row.note
                    &&& it.bandwidth == row.fm_bandwidth
                    &&& it.rx_tone == tone_of_parts(row.rx_tone_kind, row.rx_ctcss_dhz, row.rx_dcs_code)
                    &&& it.tx_tone == tone_of_parts(row.tx_tone_kind, row.tx_ctcss_dhz, row.tx_dcs_code)
                }
        }),
        ({
            let dmr = rows_of_kind(rows, RepeaterServiceKind::Dmr);
            &&& items.dmr_services@.len() == dmr.len()
            &&& forall|k: int|
                0 <= k < dmr.len() ==> {
                    let (it, row) = (#[trigger] items.dmr_services@[k], dmr[k]);
                    &&& row.kind == RepeaterServiceKind::Dmr
                    &&& it.label == row.label && it.enabled == row.enabled
                    &&& it.rx_hz == row.rx_hz && it.tx_hz == row.tx_hz && it.note == row.note
                    &&& it.color_code == row.dmr_color_code
                    &&& it.dmr_repeater_id == row.dmr_repeater_id
                    &&& it.network == row.dmr_network
                }
        }),
        ({
            let dstar = rows_of_kind(rows, RepeaterServiceKind::Dstar);
            &&& items.dstar_services@.len() == dstar.len()
            &&& forall|k: int|
                0 <= k < dstar.len() ==> {
                    let (it, row) = (#[trigger] items.dstar_services@[k], dstar[k]);
                    &&& row.kind == RepeaterServiceKind::Dstar
                    &&& it.label == row.label && it.enabled == row.enabled
                    &&& it.rx_hz == row.rx_hz && it.tx_hz == row.tx_hz && it.note == row.note
                    &&& it.mode == row.dstar_mode
                    &&& it.gateway_call_sign == row.dstar_gateway_call_sign
                    &&& it.reflector == row.dstar_reflector
                }
        }),
        ({
            let c4fm = rows_of_kind(rows, RepeaterServiceKind::C4fm);
            &&& items.c4fm_services@.len() == c4fm.len()
            &&& forall|k: int|
                0 <= k < c4fm.len() ==> {
                    let (it, row) = (#[trigger] items.c4fm_services@[k], c4fm[k]);
                    &&& row.kind == RepeaterServiceKind::C4fm
                    &&& it.label == row.label && it.enabled == row.enabled
                    &&& it.rx_hz == row.rx_hz && it.tx_hz == row.tx_hz && it.note == row.note
                    &&& it.wires_x_node_id == row.c4fm_wires_x_node_id
                    &&& it.room == row.c4fm_room
                }
        }),
        ({
            let aprs = rows_of_kind(rows, RepeaterServiceKind::Aprs);
            &&& items.aprs_services@.len() == aprs.len()
            &&& forall|k: int|
                0 <= k < aprs.len() ==> {
                    let (it, row) = (#[trigger] items.aprs_services@[k], aprs[k]);
                    &&& row.kind == RepeaterServiceKind::Aprs
                    &&& it.label == row.label && it.enabled == row.enabled
                    &&& it.rx_hz == row.rx_hz && it.tx_hz == row.tx_hz && it.note == row.note
                    &&& it.mode == row.aprs_mode
                    &&& it.path == row.aprs_path
                }
        }),
        ({
            let ssb = rows_of_kind(rows, RepeaterServiceKind::Ssb);
            &&& items.ssb_services@.len() == ssb.len()
            &&& forall|k: int|
                0 <= k < ssb.len() ==> {
                    let (it, row) = (#[trigger] items.ssb_services@[k], ssb[k]);
                    &&& row.kind == RepeaterServiceKind::Ssb
                    &&& it.label == row.label && it.enabled == row.enabled
                    &&& it.rx_hz == row.rx_hz && it.tx_hz == row.tx_hz && it.note == row.note
                    &&& it.sideband == row.ssb_sideband
                }
        }),
        ({
            let am = rows_of_kind(rows, RepeaterServiceKind::Am);
            &&& items.am_services@.len() == am.len()
            &&& forall|k: int|
                0 <= k < am.len() ==> {
                    let (it, row) = (#[trigger] items.am_services@[k], am[k]);
                    &&& row.kind == RepeaterServiceKind::Am
                    &&& it.label == row.label && it.enabled == row.enabled
                    &&& it.rx_hz == row.rx_hz && it.tx_hz == row.tx_hz && it.note == row.note
                }
        }),
{
    let kinds = seq![
        RepeaterServiceKind::Fm,
        RepeaterServiceKind::Dmr,
        RepeaterServiceKind::Dstar,
        RepeaterServiceKind::C4fm,
        RepeaterServiceKind::Aprs,
        RepeaterServiceKind::Ssb,
        RepeaterServiceKind::Am,
    ];
    assert forall|i: int| 0 <= i < kinds.len() implies forall|k: int|
        0 <= k < rows_of_kind(rows, #[trigger] kinds[i]).len() ==> rows_of_kind(rows, kinds[i])[k].kind
            == kinds[i] by {
        let kind = kinds[i];
        rows.filter_lemma(|r: RepeaterServiceDao| r.kind == kind);
    }
    assert(kinds[0] == RepeaterServiceKind::Fm && kinds[1] == RepeaterServiceKind::Dmr
        && kinds[2] == RepeaterServiceKind::Dstar && kinds[3] == RepeaterServiceKind::C4fm
        && kinds[4] == RepeaterServiceKind::Aprs && kinds[5] == RepeaterServiceKind::Ssb
        && kinds[6] == RepeaterServiceKind::Am);
}

/// The note column a service's note is stored as: the note, or empty text.
pub open spec fn note_text(note: Option<String>) -> Seq<char> {
    match note {
        Some(n) => n@,
        None => Seq::empty(),
    }
}

/// An FM service, once stored, is listed as it was stored: its label,
/// frequencies, bandwidth, tones and note, enabled.
pub proof fn lemma_stored_fm_service_is_listed(
    service: RepeaterService,
    row: NewRepeaterServiceDao,
    repeater_id: i64,
    id: i64,
)
    requires
        service.is_stored_as(row, repeater_id),
        service is Fm,
    ensures
        match service {
            RepeaterService::Fm { label, rx_hz, tx_hz, bandwidth, rx_tone, tx_tone, note } => {
                let item = fm_item(stored(row, id));
                &&& stored(row, id).kind == RepeaterServiceKind::Fm
                &&& item.label == label
                &&& item.enabled
                &&& item.rx_hz == rx_hz
                &&& item.tx_hz == tx_hz
                &&& item.bandwidth == bandwidth
                &&& item.rx_tone == rx_tone
                &&& item.tx_tone == tx_tone
                &&& item.note@ == note_text(note)
            },
            _ => true,
        },
{
    match service {
        RepeaterService::Fm { rx_tone, tx_tone, .. } => {
            lemma_tone_parts_roundtrip(rx_tone);
            lemma_tone_parts_roundtrip(tx_tone);
        },
        _ => {},
    }
}

} // verus!
