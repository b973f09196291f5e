use repeater_atlas::dao::call_sign::{CallSignKind, NewCallSign};
use repeater_atlas::dao::contact::ContactKind;
use repeater_atlas::dao::entity::EntityKind;
use repeater_atlas::dao::repeater::{Modulation, SubtoneMode};
use repeater_atlas::dao::repeater_link::NewRepeaterLink;
use repeater_atlas::dao::repeater_service::{
    AprsMode, DstarMode, FmBandwidth, RepeaterServiceKind, SsbSideband, ToneKind,
};

#[test]
fn call_sign_kinds_round_trip_through_sql() {
    for (kind, text) in [(CallSignKind::Repeater, "repeater"), (CallSignKind::Contact, "contact")] {
        assert_eq!(kind.to_sql_text(), text);
        assert_eq!(CallSignKind::from_sql_text(text), Some(kind));
    }
    assert_eq!(CallSignKind::from_sql_text("Repeater"), None);
}

#[test]
fn contact_and_entity_kinds_round_trip_through_sql() {
    for (kind, text) in [
        (ContactKind::Organization, "organization"),
        (ContactKind::Individual, "individual"),
    ] {
        assert_eq!(kind.to_sql_text(), text);
        assert_eq!(ContactKind::from_sql_text(text), Some(kind));
    }
    assert_eq!(ContactKind::from_sql_text(""), None);
    for (kind, text) in [(EntityKind::Repeater, "repeater"), (EntityKind::Contact, "contact")] {
        assert_eq!(kind.to_sql_text(), text);
        assert_eq!(EntityKind::from_sql_text(text), Some(kind));
    }
    assert_eq!(EntityKind::from_sql_text("club"), None);
}

#[test]
fn modulations_and_subtone_modes_round_trip_through_sql() {
    for (m, text) in [
        (Modulation::FmNarrow, "FmNarrow"),
        (Modulation::FmWide, "FmWide"),
        (Modulation::Am, "Am"),
        (Modulation::Lsb, "Lsb"),
        (Modulation::Usb, "Usb"),
        (Modulation::Dmr, "Dmr"),
    ] {
        assert_eq!(m.to_sql_text(), text);
        assert_eq!(Modulation::from_sql_text(text), Some(m));
    }
    assert_eq!(Modulation::from_sql_text("fmnarrow"), None);
    for (m, text) in [
        (SubtoneMode::NoTone, "None"),
        (SubtoneMode::CTCSS, "CTCSS"),
        (SubtoneMode::DCS, "DCS"),
    ] {
        assert_eq!(m.to_sql_text(), text);
        assert_eq!(SubtoneMode::from_sql_text(text), Some(m));
    }
    assert_eq!(SubtoneMode::from_sql_text("none"), None);
}

#[test]
fn service_kinds_round_trip_and_have_labels() {
    for (k, text, label) in [
        (RepeaterServiceKind::Fm, "fm", "FM"),
        (RepeaterServiceKind::Am, "am", "AM"),
        (RepeaterServiceKind::Ssb, "ssb", "SSB"),
        (RepeaterServiceKind::Dstar, "dstar", "D-STAR"),
        (RepeaterServiceKind::Dmr, "dmr", "DMR"),
        (RepeaterServiceKind::C4fm, "c4fm", "C4FM"),
        (RepeaterServiceKind::Aprs, "aprs", "APRS"),
    ] {
        assert_eq!(k.to_sql_text(), text);
        assert_eq!(RepeaterServiceKind::from_sql_text(text), Some(k));
        assert_eq!(k.label(), label);
    }
    assert_eq!(RepeaterServiceKind::from_sql_text("FM"), None);
}

#[test]
fn service_settings_round_trip_and_have_labels() {
    for (b, text, label) in [(FmBandwidth::Narrow, "narrow", "Narrow"), (FmBandwidth::Wide, "wide", "Wide")] {
        assert_eq!(b.to_sql_text(), text);
        assert_eq!(FmBandwidth::from_sql_text(text), Some(b));
        assert_eq!(b.label(), label);
    }
    for (t, text) in [(ToneKind::NoTone, "none"), (ToneKind::CTCSS, "ctcss"), (ToneKind::DCS, "dcs")] {
        assert_eq!(t.to_sql_text(), text);
        assert_eq!(ToneKind::from_sql_text(text), Some(t));
    }
    for (m, text, label) in [(DstarMode::Dv, "dv", "DV"), (DstarMode::Dd, "dd", "DD")] {
        assert_eq!(m.to_sql_text(), text);
        assert_eq!(DstarMode::from_sql_text(text), Some(m));
        assert_eq!(m.label(), label);
    }
    for (m, text, label) in [
        (AprsMode::Igate, "igate", "Igate"),
        (AprsMode::Digipeater, "digipeater", "Digipeater"),
    ] {
        assert_eq!(m.to_sql_text(), text);
        assert_eq!(AprsMode::from_sql_text(text), Some(m));
        assert_eq!(m.label(), label);
    }
    for (s, text, label) in [(SsbSideband::Lsb, "lsb", "LSB"), (SsbSideband::Usb, "usb", "USB")] {
        assert_eq!(s.to_sql_text(), text);
        assert_eq!(SsbSideband::from_sql_text(text), Some(s));
        assert_eq!(s.label(), label);
    }
    assert_eq!(ToneKind::from_sql_text("tone"), None);
    assert_eq!(AprsMode::from_sql_text(" igate"), None);
}

#[test]
fn new_call_signs_carry_their_kind() {
    let r = NewCallSign::new_repeater("LA1ABC".to_string());
    assert_eq!(r.kind, CallSignKind::Repeater);
    assert_eq!(r.value, "LA1ABC");
    let c = NewCallSign::new_contact("LA2XYZ".to_string());
    assert_eq!(c.kind, CallSignKind::Contact);
    assert_eq!(c.value, "LA2XYZ");
}

#[test]
fn links_are_stored_smaller_id_first() {
    let link = NewRepeaterLink::new(9, 4);
    assert_eq!((link.repeater_a_id, link.repeater_b_id), (9, 4));
    assert_eq!(link.note, "");
    let n = link.normalized();
    assert_eq!((n.repeater_a_id, n.repeater_b_id), (4, 9));
    let again = NewRepeaterLink::new(4, 9).normalized();
    assert_eq!((again.repeater_a_id, again.repeater_b_id), (4, 9));
    let same = NewRepeaterLink::new(3, 3).normalized();
    assert_eq!((same.repeater_a_id, same.repeater_b_id), (3, 3));
}
