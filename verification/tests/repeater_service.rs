use repeater_atlas::dao::repeater_service::{
    DstarMode, FmBandwidth, NewRepeaterServiceDao, RepeaterServiceDao, RepeaterServiceKind,
    SsbSideband, ToneKind,
};
use repeater_atlas::frequency::Frequency;
use repeater_atlas::repeater_service::{RepeaterService, Tone};

fn hz(v: i64) -> Frequency {
    Frequency::new_hz(v).unwrap()
}

fn stored(new: NewRepeaterServiceDao, id: i64) -> RepeaterServiceDao {
    RepeaterServiceDao {
        id,
        repeater_id: new.repeater_id,
        kind: new.kind,
        enabled: new.enabled,
        label: new.label,
        note: new.note,
        rx_hz: new.rx_hz,
        tx_hz: new.tx_hz,
        fm_bandwidth: new.fm_bandwidth,
        rx_tone_kind: new.rx_tone_kind,
        rx_ctcss_dhz: new.rx_ctcss_dhz,
        rx_dcs_code: new.rx_dcs_code,
        tx_tone_kind: new.tx_tone_kind,
        tx_ctcss_dhz: new.tx_ctcss_dhz,
        tx_dcs_code: new.tx_dcs_code,
        dmr_color_code: new.dmr_color_code,
        dmr_repeater_id: new.dmr_repeater_id,
        dmr_network: new.dmr_network,
        dstar_mode: new.dstar_mode,
        dstar_gateway_call_sign: new.dstar_gateway_call_sign,
        dstar_reflector: new.dstar_reflector,
        c4fm_wires_x_node_id: new.c4fm_wires_x_node_id,
        c4fm_room: new.c4fm_room,
        aprs_mode: new.aprs_mode,
        aprs_path: new.aprs_path,
        ssb_sideband: new.ssb_sideband,
    }
}

fn fm() -> RepeaterService {
    let tx_hz = hz(145_775_000);
    let rx_hz = tx_hz.offset(-600_000).unwrap();
    RepeaterService::Fm {
        label: "VHF".to_string(),
        rx_hz,
        tx_hz,
        bandwidth: FmBandwidth::Narrow,
        rx_tone: Tone::CTCSS(1230),
        tx_tone: Tone::DCS(23),
        note: Some("Solar powered".to_string()),
    }
}

#[test]
fn fm_service_is_stored_in_its_columns() {
    let row = fm().to_new_dao(7);
    assert_eq!(row.repeater_id, 7);
    assert_eq!(row.kind, RepeaterServiceKind::Fm);
    assert!(row.enabled);
    assert_eq!(row.label, "VHF");
    assert_eq!(row.rx_hz.hz(), 145_175_000);
    assert_eq!(row.tx_hz.hz(), 145_775_000);
    assert_eq!(row.rx_tone_kind, ToneKind::CTCSS);
    assert_eq!(row.rx_ctcss_dhz, Some(1230));
    assert_eq!(row.rx_dcs_code, None);
    assert_eq!(row.tx_tone_kind, ToneKind::DCS);
    assert_eq!(row.tx_ctcss_dhz, None);
    assert_eq!(row.tx_dcs_code, Some(23));
    assert_eq!(row.note, "Solar powered");
    assert_eq!(row.dmr_color_code, 0);
    assert_eq!(row.dmr_network, "");
    assert_eq!(row.dstar_mode, DstarMode::Dv);
    assert_eq!(row.aprs_mode, None);
    assert_eq!(row.ssb_sideband, None);
}

#[test]
fn fm_service_reads_back_the_same() {
    let back = RepeaterService::from(stored(fm().to_new_dao(7), 1));
    match back {
        RepeaterService::Fm { label, rx_hz, tx_hz, bandwidth, rx_tone, tx_tone, note } => {
            assert_eq!(label, "VHF");
            assert_eq!(rx_hz.hz(), 145_175_000);
            assert_eq!(tx_hz.hz(), 145_775_000);
            assert_eq!(bandwidth, FmBandwidth::Narrow);
            assert_eq!(rx_tone, Tone::CTCSS(1230));
            assert_eq!(tx_tone, Tone::DCS(23));
            assert_eq!(note, Some("Solar powered".to_string()));
        }
        _ => panic!("expected FM"),
    }
}

#[test]
fn other_services_read_back_the_same() {
    let dmr = RepeaterService::Dmr {
        label: "UHF".to_string(),
        rx_hz: hz(432_500_000),
        tx_hz: hz(434_500_000),
        color_code: 3,
        dmr_repeater_id: Some(242_001),
        network: "BrandMeister".to_string(),
        note: None,
    };
    let row = dmr.to_new_dao(2);
    assert_eq!(row.kind, RepeaterServiceKind::Dmr);
    assert_eq!(row.note, "");
    assert_eq!(row.rx_tone_kind, ToneKind::NoTone);
    match RepeaterService::from(stored(row, 5)) {
        RepeaterService::Dmr { color_code, dmr_repeater_id, network, note, .. } => {
            assert_eq!(color_code, 3);
            assert_eq!(dmr_repeater_id, Some(242_001));
            assert_eq!(network, "BrandMeister");
            assert_eq!(note, None);
        }
        _ => panic!("expected DMR"),
    }
    let ssb = RepeaterService::Ssb {
        label: "HF".to_string(),
        rx_hz: hz(14_300_000),
        tx_hz: hz(14_300_000),
        sideband: Some(SsbSideband::Usb),
        note: None,
    };
    match RepeaterService::from(stored(ssb.to_new_dao(2), 6)) {
        RepeaterService::Ssb { sideband, .. } => assert_eq!(sideband, Some(SsbSideband::Usb)),
        _ => panic!("expected SSB"),
    }
    let dstar = RepeaterService::Dstar {
        label: "D".to_string(),
        rx_hz: hz(145_000_000),
        tx_hz: hz(145_600_000),
        mode: DstarMode::Dd,
        gateway_call_sign: Some("LA1ABC G".to_string()),
        reflector: None,
        note: None,
    };
    match RepeaterService::from(stored(dstar.to_new_dao(2), 8)) {
        RepeaterService::Dstar { mode, gateway_call_sign, reflector, .. } => {
            assert_eq!(mode, DstarMode::Dd);
            assert_eq!(gateway_call_sign, Some("LA1ABC G".to_string()));
            assert_eq!(reflector, None);
        }
        _ => panic!("expected D-STAR"),
    }
}

#[test]
fn empty_note_reads_back_as_no_note() {
    let am = RepeaterService::Am {
        label: "AM".to_string(),
        rx_hz: hz(124_000_000),
        tx_hz: hz(124_000_000),
        note: Some(String::new()),
    };
    match RepeaterService::from(stored(am.to_new_dao(1), 1)) {
        RepeaterService::Am { note, .. } => assert_eq!(note, None),
        _ => panic!("expected AM"),
    }
}

#[test]
fn tone_kind_without_its_value_reads_as_no_tone() {
    let mut row = fm().to_new_dao(7);
    row.rx_ctcss_dhz = None;
    match RepeaterService::from(stored(row, 1)) {
        RepeaterService::Fm { rx_tone, .. } => assert_eq!(rx_tone, Tone::NoTone),
        _ => panic!("expected FM"),
    }
}

#[test]
fn service_accessors() {
    let s = fm();
    assert_eq!(s.label(), "VHF");
    assert_eq!(s.rx_hz(), 145_175_000);
    assert_eq!(s.tx_hz(), 145_775_000);
    assert_eq!(s.kind_label(), "FM");
    let c4fm = RepeaterService::C4fm {
        label: "X".to_string(),
        rx_hz: hz(1),
        tx_hz: hz(2),
        wires_x_node_id: Some(12345),
        room: None,
        note: None,
    };
    assert_eq!(c4fm.kind_label(), "C4FM");
    assert_eq!(c4fm.rx_hz(), 1);
    assert_eq!(c4fm.tx_hz(), 2);
}
