use repeater_atlas::maidenhead_locator::MaidenheadLocator;
use repeater_atlas::service::enrich_location::{
    DEFAULT_MAIDENHEAD_LEN, LocationSource, clean_address, location_source,
};
use repeater_atlas::service::geocoding::{
    DEFAULT_BASE_URL, EnabledSetting, base_url, geocode_query, parse_enabled_setting,
    search_url, user_agent,
};

fn s(t: &str) -> String {
    t.to_string()
}

#[test]
fn geocoding_setting_words() {
    assert_eq!(parse_enabled_setting(None), EnabledSetting::Enabled);
    for w in ["1", "true", " YES ", "On"] {
        assert_eq!(parse_enabled_setting(Some(s(w))), EnabledSetting::Enabled);
    }
    for w in ["0", "FALSE", "no", " off"] {
        assert_eq!(parse_enabled_setting(Some(s(w))), EnabledSetting::Disabled);
    }
    assert_eq!(parse_enabled_setting(Some(s("maybe"))), EnabledSetting::Invalid);
    assert!(EnabledSetting::Enabled.is_enabled());
    assert!(!EnabledSetting::Disabled.is_enabled());
    assert!(!EnabledSetting::Invalid.is_enabled());
}

#[test]
fn nominatim_addresses() {
    assert_eq!(base_url(None), DEFAULT_BASE_URL);
    assert_eq!(base_url(Some(s("http://localhost:8080//"))), "http://localhost:8080");
    assert_eq!(base_url(Some(s("///"))), "");
    assert_eq!(search_url("http://x"), "http://x/search");
    assert_eq!(user_agent(None), "Repeater Atlas");
    assert_eq!(user_agent(Some(s("Test"))), "Test");
}

#[test]
fn geocode_queries_are_trimmed() {
    assert_eq!(geocode_query("  Oslo "), Some(s("Oslo")));
    assert_eq!(geocode_query("   "), None);
}

#[test]
fn addresses_are_cleaned() {
    assert_eq!(clean_address(Some(s(" Trondheim, Norway "))), Some(s("Trondheim, Norway")));
    assert_eq!(clean_address(Some(s("  "))), None);
    assert_eq!(clean_address(None), None);
}

#[test]
fn a_locator_wins_over_an_address() {
    let locator = MaidenheadLocator::from_canonical(s("JP53fi")).unwrap();
    match location_source(Some(s("Trondheim, Norway")), Some(locator.clone())) {
        LocationSource::Locator { address, locator: l } => {
            assert_eq!(address, Some(s("Trondheim, Norway")));
            assert_eq!(l, locator);
        }
        _ => panic!("expected the locator"),
    }
    match location_source(Some(s(" Trondheim, Norway")), None) {
        LocationSource::Geocode { address } => assert_eq!(address, "Trondheim, Norway"),
        _ => panic!("expected geocoding"),
    }
    assert!(matches!(location_source(Some(s(" ")), None), LocationSource::Nothing));
    assert!(matches!(location_source(None, None), LocationSource::Nothing));
    assert_eq!(DEFAULT_MAIDENHEAD_LEN, 6);
}
