use repeater_atlas::frequency::{Frequency, FrequencyError};

#[test]
fn formats_mhz_with_three_decimals() {
    let f = Frequency::new_hz(145_700_000).unwrap();
    assert_eq!(f.to_string(), "145.700 MHz");
}

#[test]
fn formats_mhz_half_megahertz() {
    let f = Frequency::new_hz(145_500_000).unwrap();
    assert_eq!(f.to_string(), "145.500 MHz");
}

#[test]
fn formats_with_more_decimals_when_needed() {
    let f = Frequency::new_hz(145_712_500).unwrap();
    assert_eq!(f.to_string(), "145.7125 MHz");
}

#[test]
fn formats_khz() {
    let f = Frequency::new_hz(12_345).unwrap();
    assert_eq!(f.to_string(), "12.345 kHz");
}

#[test]
fn formats_ghz() {
    let f = Frequency::new_hz(1_297_000_000).unwrap();
    assert_eq!(f.to_string(), "1.297 GHz");
}

#[test]
fn formats_ghz_one_point_two() {
    let f = Frequency::new_hz(1_200_000_000).unwrap();
    assert_eq!(f.to_string(), "1.200 GHz");
}

#[test]
fn formats_hz() {
    let f = Frequency::new_hz(500).unwrap();
    assert_eq!(f.to_string(), "500.000 Hz");
}

#[test]
fn rejects_negative() {
    assert!(Frequency::new_hz(-1).is_err());
}

#[test]
fn rejects_negative_with_the_value() {
    assert_eq!(Frequency::new_hz(-42), Err(FrequencyError::NegativeHz(-42)));
}

#[test]
fn zero_hertz_is_a_frequency() {
    let f = Frequency::new_hz(0).unwrap();
    assert_eq!(f.hz(), 0);
    assert_eq!(f.to_string(), "0.000 Hz");
}

#[test]
fn hz_gives_back_the_hertz() {
    assert_eq!(Frequency::new_hz(145_600_000).unwrap().hz(), 145_600_000);
}

#[test]
fn formats_unit_boundaries() {
    assert_eq!(Frequency::new_hz(999).unwrap().to_string(), "999.000 Hz");
    assert_eq!(Frequency::new_hz(1_000).unwrap().to_string(), "1.000 kHz");
    assert_eq!(Frequency::new_hz(999_999).unwrap().to_string(), "999.999 kHz");
    assert_eq!(Frequency::new_hz(1_000_000).unwrap().to_string(), "1.000 MHz");
    assert_eq!(Frequency::new_hz(1_000_000_001).unwrap().to_string(), "1.000000001 GHz");
}

#[test]
fn formats_huge_frequencies_in_ghz() {
    assert_eq!(
        Frequency::new_hz(12_345_000_000_000).unwrap().to_string(),
        "12345.000 GHz"
    );
}

#[test]
fn formats_megahertz_for_channel_files() {
    assert_eq!(Frequency::new_hz(145_600_000).unwrap().to_string_mhz(), "145.600000");
    assert_eq!(Frequency::new_hz(600_000).unwrap().to_string_mhz(), "0.600000");
    assert_eq!(Frequency::new_hz(12_500).unwrap().to_string_mhz(), "0.012500");
}

#[test]
fn offsets_a_frequency() {
    let f = Frequency::new_hz(145_600_000).unwrap();
    assert_eq!(f.offset(-600_000).unwrap().hz(), 145_000_000);
    assert!(f.offset(-145_600_001).is_err());
    assert!(f.offset(i64::MAX).is_err());
}

#[test]
fn contained_in_is_half_open() {
    let f = Frequency::new_hz(148_000_000).unwrap();
    assert!(!f.contained_in(144_000_000, 148_000_000));
    assert!(f.contained_in(148_000_000, 148_000_001));
}

#[test]
fn frequency_error_messages() {
    assert_eq!(FrequencyError::NegativeHz(-5).to_string(), "frequency must be >= 0 Hz, got -5");
    assert_eq!(
        FrequencyError::NegativeHz(i64::MIN).to_string(),
        "frequency must be >= 0 Hz, got -9223372036854775808"
    );
    assert_eq!(FrequencyError::NegativeHz(12).to_string(), "frequency must be >= 0 Hz, got 12");
}
