use repeater_atlas::dao::repeater_service::{AprsMode, FmBandwidth};
use repeater_atlas::frequency::Frequency;
use repeater_atlas::repeater_service::{RepeaterService, Tone};
use repeater_atlas::test_data::{
    ContactPlan, ContactSkip, CsvFile, HzField, RowSkip, ServicePlan, default_offset,
    link_call_signs, normalize_call_sign, parse_hz_field, plan_contact, plan_service,
    resolve_offset, split_call_sign, parse_csv, creates_repeater,
};

fn s(t: &str) -> String {
    t.to_string()
}

fn hz(v: i64) -> Frequency {
    Frequency::new_hz(v).unwrap()
}

#[test]
fn splits_call_sign_and_port_label() {
    assert_eq!(split_call_sign(s("la1abc-2m")), (s("LA1ABC"), Some(s("2M"))));
    assert_eq!(split_call_sign(s(" la1abc -uhf")), (s("LA1ABC"), Some(s("UHF"))));
    assert_eq!(split_call_sign(s("LA1ABC-")), (s("LA1ABC"), None));
    assert_eq!(split_call_sign(s("la1abc")), (s("LA1ABC"), None));
    assert_eq!(split_call_sign(s("LA1ABC-A-B")), (s("LA1ABC"), Some(s("A-B"))));
}

#[test]
fn normalizes_call_signs_of_data_files() {
    assert_eq!(normalize_call_sign(s("  la9xyz ")), "LA9XYZ");
    assert_eq!(normalize_call_sign(s("")), "");
}

#[test]
fn default_offsets_by_band() {
    assert_eq!(default_offset(hz(145_600_000)), Some(-600_000));
    assert_eq!(default_offset(hz(144_000_000)), Some(-600_000));
    assert_eq!(default_offset(hz(148_000_000)), None);
    assert_eq!(default_offset(hz(434_500_000)), Some(-2_000_000));
    assert_eq!(default_offset(hz(450_000_000)), None);
    assert_eq!(default_offset(hz(50_000_000)), None);
}

#[test]
fn reads_hertz_fields() {
    match parse_hz_field(s("145600000")) {
        HzField::Hertz(Some(f)) => assert_eq!(f.hz(), 145_600_000),
        _ => panic!("expected hertz"),
    }
    assert!(matches!(parse_hz_field(s("-5")), HzField::Hertz(None)));
    match parse_hz_field(s(" 145.625 MHz ")) {
        HzField::Megahertz(t) => assert_eq!(t, "145.625 M"),
        _ => panic!("expected megahertz"),
    }
    match parse_hz_field(s("145.625Hz")) {
        HzField::Megahertz(t) => assert_eq!(t, "145.625"),
        _ => panic!("expected megahertz"),
    }
    match parse_hz_field(s("7hz")) {
        HzField::Megahertz(t) => assert_eq!(t, "7"),
        _ => panic!("expected megahertz"),
    }
}

#[test]
fn resolves_offsets() {
    assert_eq!(resolve_offset(Some(s("-600000")), None, None), Some(-600_000));
    assert_eq!(
        resolve_offset(Some(s("x")), Some(hz(145_600_000)), Some(hz(145_000_000))),
        Some(-600_000)
    );
    assert_eq!(
        resolve_offset(None, Some(hz(434_000_000)), Some(hz(439_000_000))),
        Some(5_000_000)
    );
    assert_eq!(resolve_offset(None, Some(hz(434_500_000)), None), Some(-2_000_000));
    assert_eq!(resolve_offset(None, Some(hz(28_000_000)), None), None);
    assert_eq!(resolve_offset(None, None, Some(hz(145_000_000))), None);
}

fn sample_csv() -> CsvFile {
    CsvFile::from_records(
        vec![s(" Call_Sign "), s("TX"), s(""), s("tx")],
        vec![
            vec![s(" LA1ABC "), s("145600000"), s("x"), s("  ")],
            vec![s("LA2XYZ")],
        ],
    )
}

#[test]
fn csv_headers_are_normalized_and_cells_trimmed() {
    let csv = sample_csv();
    assert_eq!(csv.header_names, vec![s("call_sign"), s("tx"), s(""), s("tx")]);
    assert_eq!(csv.data[0][0], "LA1ABC");
    assert_eq!(csv.data[0][3], "");
}

#[test]
fn csv_finds_required_columns() {
    let csv = sample_csv();
    assert_eq!(csv.get_header("call_sign").ok(), Some(0));
    // The last column of a name wins.
    assert_eq!(csv.get_header("tx").ok(), Some(3));
    let err = csv.get_header("owner").unwrap_err();
    assert_eq!(err.message, "Missing required column: owner");
    assert!(csv.get_header("").is_err());
}

#[test]
fn csv_finds_first_of_several_columns() {
    let csv = sample_csv();
    assert_eq!(csv.get_first_header(vec!["tx_hz", "tx", "call_sign"]).ok(), Some(3));
    let err = csv.get_first_header(vec!["rx", "rx_hz", "rx_mhz"]).unwrap_err();
    assert_eq!(err.message, "Missing required column (one of): rx,rx_hz,rx_mhz");
}

#[test]
fn csv_cells_skip_missing_and_blank() {
    let csv = sample_csv();
    assert_eq!(csv.get(0, 0), Some(s("LA1ABC")));
    assert_eq!(csv.get(0, 3), None);
    assert_eq!(csv.get(1, 1), None);
    assert_eq!(csv.get(5, 0), None);
    let missing = csv.get_header("owner");
    assert_eq!(csv.get_opt(0, &missing), None);
    let present = csv.get_header("tx");
    assert_eq!(csv.get_opt(0, &present), None);
    let first = csv.get_header("call_sign");
    assert_eq!(csv.get_opt(1, &first), Some(s("LA2XYZ")));
}

#[test]
fn plans_narrow_fm_rows() {
    match plan_service(
        Some(s("FM_NARROW")),
        None,
        Some(hz(145_600_000)),
        Some(-600_000),
        Some(1230),
        None,
        None,
    ) {
        ServicePlan::Create(RepeaterService::Fm {
            label,
            rx_hz,
            tx_hz,
            bandwidth,
            rx_tone,
            tx_tone,
            note,
        }) => {
            assert_eq!(label, "VHF");
            assert_eq!(rx_hz.hz(), 145_000_000);
            assert_eq!(tx_hz.hz(), 145_600_000);
            assert_eq!(bandwidth, FmBandwidth::Narrow);
            assert_eq!(rx_tone, Tone::CTCSS(1230));
            assert_eq!(tx_tone, Tone::NoTone);
            assert_eq!(note, None);
        }
        _ => panic!("expected an FM service"),
    }
}

#[test]
fn fm_row_with_negative_receive_frequency_fails() {
    assert!(matches!(
        plan_service(Some(s("FM_NARROW")), None, Some(hz(100)), Some(-600_000), None, None, None),
        ServicePlan::Fail
    ));
}

#[test]
fn rows_without_what_they_need_are_skipped() {
    assert!(matches!(
        plan_service(Some(s("FM_NARROW")), None, Some(hz(145_600_000)), None, None, None, None),
        ServicePlan::Skip(RowSkip::MissingTxOrOffset)
    ));
    assert!(matches!(
        plan_service(Some(s("APRS_IGATE")), None, None, None, None, None, None),
        ServicePlan::Skip(RowSkip::MissingTx)
    ));
    assert!(matches!(
        plan_service(Some(s("DMR")), None, Some(hz(10)), Some(-20), None, None, None),
        ServicePlan::Skip(RowSkip::InvalidRx)
    ));
    assert!(matches!(
        plan_service(None, None, None, None, None, None, None),
        ServicePlan::Skip(RowSkip::MissingService)
    ));
    assert!(matches!(
        plan_service(Some(s("TETRA")), None, None, None, None, None, None),
        ServicePlan::Skip(RowSkip::UnsupportedService)
    ));
}

#[test]
fn plans_aprs_dmr_and_c4fm_rows() {
    match plan_service(
        Some(s("APRS_DIGIPEATER")),
        Some(s("2M")),
        Some(hz(144_800_000)),
        None,
        None,
        None,
        None,
    ) {
        ServicePlan::Create(RepeaterService::Aprs { label, rx_hz, tx_hz, mode, path, .. }) => {
            assert_eq!(label, "2M");
            assert_eq!(rx_hz.hz(), 144_800_000);
            assert_eq!(tx_hz.hz(), 144_800_000);
            assert_eq!(mode, Some(AprsMode::Digipeater));
            assert_eq!(path, None);
        }
        _ => panic!("expected an APRS service"),
    }
    match plan_service(
        Some(s("DMR")),
        None,
        Some(hz(434_500_000)),
        Some(-2_000_000),
        None,
        None,
        Some(242_001),
    ) {
        ServicePlan::Create(RepeaterService::Dmr {
            label,
            rx_hz,
            color_code,
            dmr_repeater_id,
            network,
            ..
        }) => {
            assert_eq!(label, "UHF");
            assert_eq!(rx_hz.hz(), 432_500_000);
            assert_eq!(color_code, 1);
            assert_eq!(dmr_repeater_id, Some(242_001));
            assert_eq!(network, "unknown");
        }
        _ => panic!("expected a DMR service"),
    }
    match plan_service(
        Some(s("C4FM")),
        None,
        Some(hz(145_775_000)),
        Some(-600_000),
        None,
        None,
        None,
    ) {
        ServicePlan::Create(RepeaterService::C4fm { rx_hz, wires_x_node_id, room, .. }) => {
            assert_eq!(rx_hz.hz(), 145_175_000);
            assert_eq!(wires_x_node_id, None);
            assert_eq!(room, None);
        }
        _ => panic!("expected a C4FM service"),
    }
}

#[test]
fn plans_contact_rows() {
    let known = vec![s("LA1ABC")];
    assert!(matches!(
        plan_contact(None, None, &known),
        ContactPlan::Skip(ContactSkip::MissingCallSign)
    ));
    assert!(matches!(
        plan_contact(Some(s("  ")), None, &known),
        ContactPlan::Skip(ContactSkip::EmptyCallSign)
    ));
    assert!(matches!(
        plan_contact(Some(s(" la1abc")), None, &known),
        ContactPlan::Skip(ContactSkip::Duplicate)
    ));
    match plan_contact(Some(s("la2xyz")), None, &known) {
        ContactPlan::Create { call_sign, display_name } => {
            assert_eq!(call_sign, "LA2XYZ");
            assert_eq!(display_name, "LA2XYZ");
        }
        _ => panic!("expected a contact"),
    }
    match plan_contact(Some(s("la2xyz")), Some(s("Oslo Club")), &known) {
        ContactPlan::Create { display_name, .. } => assert_eq!(display_name, "Oslo Club"),
        _ => panic!("expected a contact"),
    }
}

#[test]
fn link_rows_name_two_call_signs() {
    assert_eq!(
        link_call_signs(Some(s("la1abc-2m")), Some(s("la2xyz"))),
        Some((s("LA1ABC"), s("LA2XYZ")))
    );
    assert_eq!(link_call_signs(Some(s("LA1ABC")), None), None);
}

#[test]
fn data_files_are_read_from_their_bytes() {
    let csv = parse_csv(b" Call_Sign , TX \n LA1ABC , 145600000\nLA2XYZ\n").expect("readable");
    assert_eq!(csv.header_names, vec![s("call_sign"), s("tx")]);
    assert_eq!(csv.data.len(), 2);
    assert_eq!(csv.data[0], vec![s("LA1ABC"), s("145600000")]);
    assert_eq!(csv.data[1], vec![s("LA2XYZ")]);
    assert_eq!(csv.get_header("tx").ok(), Some(1));
    assert_eq!(csv.get(1, 1), None);
    assert!(parse_csv(b"a,b\n\xff,c\n").is_none());
    let empty = parse_csv(b"").expect("readable");
    assert!(empty.header_names.is_empty());
    assert!(empty.data.is_empty());
}

#[test]
fn only_the_first_row_of_a_call_sign_creates_its_repeater() {
    let seen = vec![s("LA1ABC")];
    assert!(!creates_repeater(&s("LA1ABC"), &seen));
    assert!(creates_repeater(&s("LA2XYZ"), &seen));
    assert!(creates_repeater(&s("LA1ABC"), &Vec::new()));
}

#[test]
fn data_file_call_signs_normalize_once() {
    let once = normalize_call_sign(s("  la1abc "));
    assert_eq!(once, "LA1ABC");
    assert_eq!(normalize_call_sign(once.clone()), once);
}
