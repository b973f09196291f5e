use repeater_atlas::db_pool::LoggedConnection;
use repeater_atlas::frequency::Frequency;
use repeater_atlas::hello;
use repeater_atlas::maidenhead_locator::{MaidenheadLocator, locator_input};
use repeater_atlas::pg_tls_connection_manager::PgTlsConnectionManager;

#[test]
fn greets() {
    assert_eq!(hello(), "hello world");
}

#[test]
fn bands_of_frequencies() {
    assert_eq!(Frequency::new_hz(14_300_000).unwrap().band_label(), "HF");
    assert_eq!(Frequency::new_hz(145_600_000).unwrap().band_label(), "VHF");
    assert_eq!(Frequency::new_hz(299_999_999).unwrap().band_label(), "VHF");
    assert_eq!(Frequency::new_hz(434_000_000).unwrap().band_label(), "UHF");
    assert_eq!(Frequency::new_hz(10_368_000_000).unwrap().band_label(), "SHF");
}

#[test]
fn offsets_and_ranges() {
    let f = Frequency::new_hz(145_600_000).unwrap();
    assert_eq!(f.offset(-600_000).unwrap().hz(), 145_000_000);
    assert!(f.offset(-145_600_001).is_err());
    assert!(f.offset(i64::MAX).is_err());
    assert!(f.contained_in(144_000_000, 148_000_000));
    assert!(!f.contained_in(144_000_000, 145_600_000));
    assert_eq!(f.to_string_mhz(), "145.600000");
    assert_eq!(Frequency::new_hz(7).unwrap().to_string_mhz(), "0.000007");
}

#[test]
fn locators_keep_their_text() {
    let l = MaidenheadLocator::from_canonical("JP53fi".to_string()).unwrap();
    assert_eq!(l.as_str(), "JP53fi");
    assert_eq!(l.to_string(), "JP53fi");
    assert_eq!(locator_input("  jp53FI "), "jp53FI");
    assert_eq!(l.clone(), l);
}

#[test]
fn locators_hold_only_canonical_spellings() {
    for ok in ["JP53", "JP53fi", "JP53fi12", "JP53fi12AB", "AA00aa00AA"] {
        let l = MaidenheadLocator::from_canonical(ok.to_string()).unwrap();
        assert_eq!(l.as_str(), ok);
    }
    for bad in ["", "JP5", "JP53F", "jp53FI", "JP53FI", "JP53fi1", "JP53fi12ab", "J P53", "JP53fi12AB00", "JPx3fi", "JP53f9"] {
        assert!(MaidenheadLocator::from_canonical(bad.to_string()).is_none(), "{bad}");
    }
}

#[test]
fn connection_manager_keeps_its_url() {
    let m = PgTlsConnectionManager::new("postgres://db/atlas".to_string());
    assert_eq!(m.database_url(), "postgres://db/atlas");
}

#[test]
fn logged_connections_keep_their_number() {
    let mut c = LoggedConnection::new(7, vec![1u8, 2]);
    assert_eq!(c.id(), 7);
    assert_eq!(c.inner(), &vec![1u8, 2]);
    c.inner_mut().push(3);
    assert_eq!(c.inner(), &vec![1u8, 2, 3]);
    assert_eq!(c.id(), 7);
    let _ = c.connected_at();
}
