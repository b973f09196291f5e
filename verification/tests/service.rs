use repeater_atlas::dao::repeater_service::{
    AprsMode, DstarMode, FmBandwidth, RepeaterServiceDao, RepeaterServiceKind, ToneKind,
};
use repeater_atlas::frequency::Frequency;
use repeater_atlas::repeater_service::{RepeaterService, Tone};
use repeater_atlas::test_data::{ServicePlan, plan_service};
use repeater_atlas::service::export::ExportOptions;
use repeater_atlas::service::export::chirp::{ChirpRepeater, chirp_rows, format_dtcs, tone_fields};
use repeater_atlas::service::logbook::{PageSize, log_page_count};
use repeater_atlas::service::repeater_system::{FmServiceItem, build_service_items};

fn hz(v: i64) -> Frequency {
    Frequency::new_hz(v).unwrap()
}

fn row(id: i64, kind: RepeaterServiceKind, label: &str) -> RepeaterServiceDao {
    RepeaterServiceDao {
        id,
        repeater_id: 1,
        kind,
        enabled: id % 2 == 0,
        label: label.to_string(),
        note: format!("note {id}"),
        rx_hz: hz(145_000_000),
        tx_hz: hz(145_600_000),
        fm_bandwidth: FmBandwidth::Wide,
        rx_tone_kind: ToneKind::CTCSS,
        rx_ctcss_dhz: Some(885),
        rx_dcs_code: None,
        tx_tone_kind: ToneKind::NoTone,
        tx_ctcss_dhz: None,
        tx_dcs_code: None,
        dmr_color_code: 2,
        dmr_repeater_id: Some(99),
        dmr_network: "net".to_string(),
        dstar_mode: DstarMode::Dd,
        dstar_gateway_call_sign: None,
        dstar_reflector: Some("REF001 C".to_string()),
        c4fm_wires_x_node_id: Some(4),
        c4fm_room: None,
        aprs_mode: Some(AprsMode::Igate),
        aprs_path: None,
        ssb_sideband: None,
    }
}

#[test]
fn services_are_sorted_into_lists_by_kind() {
    let items = build_service_items(vec![
        row(1, RepeaterServiceKind::Fm, "a"),
        row(2, RepeaterServiceKind::Dmr, "b"),
        row(3, RepeaterServiceKind::Fm, "c"),
        row(4, RepeaterServiceKind::Aprs, "d"),
        row(5, RepeaterServiceKind::Am, "e"),
        row(6, RepeaterServiceKind::Dstar, "f"),
        row(7, RepeaterServiceKind::C4fm, "g"),
        row(8, RepeaterServiceKind::Ssb, "h"),
    ]);
    let fm: Vec<&str> = items.fm_services.iter().map(|s| s.label.as_str()).collect();
    assert_eq!(fm, vec!["a", "c"]);
    assert!(!items.fm_services[0].enabled);
    assert_eq!(items.fm_services[0].bandwidth, FmBandwidth::Wide);
    assert_eq!(items.fm_services[0].rx_tone, Tone::CTCSS(885));
    assert_eq!(items.fm_services[0].tx_tone, Tone::NoTone);
    assert_eq!(items.fm_services[0].note, "note 1");
    assert_eq!(items.dmr_services.len(), 1);
    assert_eq!(items.dmr_services[0].color_code, 2);
    assert_eq!(items.dmr_services[0].network, "net");
    assert!(items.dmr_services[0].enabled);
    assert_eq!(items.aprs_services[0].mode, Some(AprsMode::Igate));
    assert_eq!(items.am_services[0].label, "e");
    assert_eq!(items.dstar_services[0].reflector, Some("REF001 C".to_string()));
    assert_eq!(items.c4fm_services[0].wires_x_node_id, Some(4));
    assert_eq!(items.ssb_services[0].label, "h");
    // Every row is listed exactly once.
    let total = items.fm_services.len()
        + items.dmr_services.len()
        + items.dstar_services.len()
        + items.c4fm_services.len()
        + items.aprs_services.len()
        + items.ssb_services.len()
        + items.am_services.len();
    assert_eq!(total, 8);
}

#[test]
fn no_rows_give_empty_lists() {
    let items = build_service_items(Vec::new());
    assert!(items.fm_services.is_empty());
    assert!(items.am_services.is_empty());
}

fn fm_item(label: &str, rx: i64, tx: i64, rx_tone: Tone, tx_tone: Tone) -> FmServiceItem {
    FmServiceItem {
        label: label.to_string(),
        enabled: true,
        rx_hz: hz(rx),
        tx_hz: hz(tx),
        bandwidth: FmBandwidth::Narrow,
        rx_tone,
        tx_tone,
        note: "Kongsberg".to_string(),
    }
}

#[test]
fn chirp_rows_number_fm_services_in_order() {
    let repeaters = vec![
        ChirpRepeater {
            call_sign: "LA1ABC".to_string(),
            fm_services: vec![fm_item("VHF", 145_000_000, 145_600_000, Tone::CTCSS(1230), Tone::NoTone)],
        },
        ChirpRepeater { call_sign: "LA2XYZ".to_string(), fm_services: Vec::new() },
        ChirpRepeater {
            call_sign: "LA3QRS".to_string(),
            fm_services: vec![
                fm_item("", 439_000_000, 434_000_000, Tone::NoTone, Tone::NoTone),
                fm_item("B", 145_500_000, 145_500_000, Tone::DCS(23), Tone::DCS(23)),
            ],
        },
    ];
    let rows = chirp_rows(&repeaters, &ExportOptions::default());
    assert_eq!(rows.len(), 3);

    let r = &rows[0];
    assert_eq!(r.location, 0);
    assert_eq!(r.name, "LA1ABC VHF");
    assert_eq!(r.frequency, "145.000000");
    assert_eq!(r.duplex, "+");
    assert_eq!(r.offset, "0.600000");
    assert_eq!(r.tone, "TSQL");
    assert_eq!(r.cross_mode, "Tone->Tone");
    assert_eq!(r.r_tone_freq, "88.5");
    assert_eq!(r.c_tone_freq, "123.0");
    assert_eq!(r.dtcs_code, "023");
    assert_eq!(r.rx_dtcs_code, "023");
    assert_eq!(r.dtcs_polarity, "NN");
    assert_eq!(r.mode, "NFM");
    assert_eq!(r.t_step, "5.00");
    assert_eq!(r.skip, "");
    assert_eq!(r.power, "50W");
    assert_eq!(r.comment, "Kongsberg");
    assert_eq!(r.urcall, "");

    let r = &rows[1];
    assert_eq!(r.location, 1);
    assert_eq!(r.name, "LA3QRS");
    assert_eq!(r.frequency, "439.000000");
    assert_eq!(r.duplex, "-");
    assert_eq!(r.offset, "5.000000");
    assert_eq!(r.tone, "");

    let r = &rows[2];
    assert_eq!(r.location, 2);
    assert_eq!(r.duplex, "");
    assert_eq!(r.offset, "0.000000");
    assert_eq!(r.tone, "DTCS");
    assert_eq!(r.dtcs_code, "023");
}

#[test]
fn chirp_rx_tone_can_be_left_out() {
    let repeaters = vec![ChirpRepeater {
        call_sign: "LA1ABC".to_string(),
        fm_services: vec![fm_item("VHF", 145_000_000, 145_600_000, Tone::CTCSS(1230), Tone::CTCSS(885))],
    }];
    let with = chirp_rows(&repeaters, &ExportOptions { export_rx_tone: true });
    assert_eq!(with[0].tone, "Cross");
    assert_eq!(with[0].cross_mode, "Tone->Tone");
    assert_eq!(with[0].r_tone_freq, "88.5");
    assert_eq!(with[0].c_tone_freq, "123.0");
    let without = chirp_rows(&repeaters, &ExportOptions { export_rx_tone: false });
    assert_eq!(without[0].tone, "Tone");
    assert_eq!(without[0].r_tone_freq, "88.5");
    assert_eq!(without[0].c_tone_freq, "88.5");
}

#[test]
fn chirp_tone_table() {
    let cases = [
        (Tone::DCS(23), Tone::NoTone, "Cross", "DTCS->", "88.5", "88.5", "023", "023"),
        (Tone::NoTone, Tone::DCS(754), "Cross", "->DTCS", "88.5", "88.5", "023", "754"),
        (Tone::DCS(23), Tone::DCS(25), "Cross", "DTCS->DTCS", "88.5", "88.5", "023", "025"),
        (Tone::CTCSS(1000), Tone::DCS(47), "Cross", "Tone->DTCS", "100.0", "88.5", "023", "047"),
        (Tone::DCS(51), Tone::CTCSS(1318), "Cross", "DTCS->Tone", "88.5", "131.8", "051", "023"),
        (Tone::CTCSS(1318), Tone::CTCSS(1318), "TSQL", "Tone->Tone", "131.8", "131.8", "023", "023"),
    ];
    for (tx, rx, tone, cross, r_freq, c_freq, code, rx_code) in cases {
        let repeaters = vec![ChirpRepeater {
            call_sign: "X".to_string(),
            fm_services: vec![fm_item("", 1, 1, rx, tx)],
        }];
        let rows = chirp_rows(&repeaters, &ExportOptions::default());
        let r = &rows[0];
        assert_eq!((r.tone.as_str(), r.cross_mode.as_str()), (tone, cross));
        assert_eq!((r.r_tone_freq.as_str(), r.c_tone_freq.as_str()), (r_freq, c_freq));
        assert_eq!((r.dtcs_code.as_str(), r.rx_dtcs_code.as_str()), (code, rx_code));
    }
}

#[test]
fn dtcs_codes_have_three_digits() {
    assert_eq!(format_dtcs(23), "023");
    assert_eq!(format_dtcs(7), "007");
    assert_eq!(format_dtcs(754), "754");
    assert_eq!(format_dtcs(1234), "1234");
    assert_eq!(format_dtcs(-5), "-05");
    assert_eq!(format_dtcs(-123), "-123");
}

#[test]
fn export_options_default_to_rx_tone() {
    assert!(ExportOptions::default().export_rx_tone);
}

#[test]
fn logbook_page_sizes() {
    assert_eq!(PageSize::from_form("a5"), PageSize::A5);
    assert_eq!(PageSize::from_form("A5"), PageSize::A4);
    assert_eq!(PageSize::from_form("a4"), PageSize::A4);
    assert_eq!(PageSize::A4.as_typst(), "a4");
    assert_eq!(PageSize::A5.as_typst(), "a5");
}

#[test]
fn logbook_page_counts_are_clamped() {
    assert_eq!(log_page_count(None), 10);
    assert_eq!(log_page_count(Some(0)), 1);
    assert_eq!(log_page_count(Some(42)), 42);
    assert_eq!(log_page_count(Some(101)), 100);
}

#[test]
fn imported_fm_row_is_exported_with_its_offset() {
    let service = match plan_service(
        Some("FM_NARROW".to_string()),
        Some("2M".to_string()),
        Some(hz(145_600_000)),
        Some(-600_000),
        Some(885),
        Some(885),
        None,
    ) {
        ServicePlan::Create(service) => service,
        _ => panic!("expected a service"),
    };
    assert!(matches!(service, RepeaterService::Fm { .. }));
    let new = service.to_new_dao(3);
    let mut stored = row(11, new.kind, "");
    stored.repeater_id = new.repeater_id;
    stored.enabled = new.enabled;
    stored.label = new.label;
    stored.note = new.note;
    stored.rx_hz = new.rx_hz;
    stored.tx_hz = new.tx_hz;
    stored.fm_bandwidth = new.fm_bandwidth;
    stored.rx_tone_kind = new.rx_tone_kind;
    stored.rx_ctcss_dhz = new.rx_ctcss_dhz;
    stored.rx_dcs_code = new.rx_dcs_code;
    stored.tx_tone_kind = new.tx_tone_kind;
    stored.tx_ctcss_dhz = new.tx_ctcss_dhz;
    stored.tx_dcs_code = new.tx_dcs_code;
    let items = build_service_items(vec![stored]);
    assert_eq!(items.fm_services.len(), 1);
    let repeaters = vec![ChirpRepeater { call_sign: "LA1ABC".to_string(), fm_services: items.fm_services }];
    let rows = chirp_rows(&repeaters, &ExportOptions::default());
    assert_eq!(rows[0].name, "LA1ABC 2M");
    assert_eq!(rows[0].frequency, "145.000000");
    assert_eq!(rows[0].duplex, "+");
    assert_eq!(rows[0].offset, "0.600000");
    assert_eq!(rows[0].tone, "TSQL");
    assert_eq!(rows[0].r_tone_freq, "88.5");
    assert_eq!(rows[0].c_tone_freq, "88.5");
    assert_eq!(rows[0].mode, "NFM");
    assert_eq!(rows[0].comment, "");
}

#[test]
fn receive_tone_does_not_show_when_not_exported() {
    let options = ExportOptions { export_rx_tone: false };
    let a = vec![ChirpRepeater {
        call_sign: "LA1ABC".to_string(),
        fm_services: vec![fm_item("VHF", 145_000_000, 145_600_000, Tone::CTCSS(1230), Tone::DCS(23))],
    }];
    let b = vec![ChirpRepeater {
        call_sign: "LA1ABC".to_string(),
        fm_services: vec![fm_item("VHF", 145_000_000, 145_600_000, Tone::DCS(754), Tone::DCS(23))],
    }];
    let ra = chirp_rows(&a, &options);
    let rb = chirp_rows(&b, &options);
    assert_eq!(
        (&ra[0].tone, &ra[0].cross_mode, &ra[0].r_tone_freq, &ra[0].c_tone_freq, &ra[0].dtcs_code, &ra[0].rx_dtcs_code),
        (&rb[0].tone, &rb[0].cross_mode, &rb[0].r_tone_freq, &rb[0].c_tone_freq, &rb[0].dtcs_code, &rb[0].rx_dtcs_code)
    );
    assert_eq!((ra[0].tone.as_str(), ra[0].cross_mode.as_str()), ("Cross", "DTCS->"));
}

#[test]
fn tone_columns_ignore_the_receive_tone_when_it_is_not_exported() {
    let off = ExportOptions { export_rx_tone: false };
    let on = ExportOptions { export_rx_tone: true };
    let plain = fm_item("FM", 145_600_000, 145_000_000, Tone::NoTone, Tone::CTCSS(885));
    let with_ctcss = fm_item("FM", 145_600_000, 145_000_000, Tone::CTCSS(1230), Tone::CTCSS(885));
    let with_dcs = fm_item("FM", 145_600_000, 145_000_000, Tone::DCS(23), Tone::CTCSS(885));
    let expected = (
        "Tone".to_string(),
        "Tone->Tone".to_string(),
        "88.5".to_string(),
        "88.5".to_string(),
        "023".to_string(),
        "023".to_string(),
        "NN".to_string(),
    );
    assert_eq!(tone_fields(&plain, &off), expected);
    assert_eq!(tone_fields(&with_ctcss, &off), expected);
    assert_eq!(tone_fields(&with_dcs, &off), expected);
    let crossed = tone_fields(&with_ctcss, &on);
    assert_eq!(crossed.0, "Cross");
    assert_eq!(crossed.3, "123.0");
}
