use samd_clock::time::Hertz;

#[test]
fn hertz_round_trips_through_its_raw_value() {
    assert_eq!(Hertz::Hz(0).to_Hz(), 0);
    assert_eq!(Hertz::Hz(32_768).to_Hz(), 32_768);
    assert_eq!(Hertz::Hz(u32::MAX).to_Hz(), u32::MAX);
}

#[test]
fn megahertz_is_a_million_hertz() {
    assert_eq!(Hertz::MHz(0).to_Hz(), 0);
    assert_eq!(Hertz::MHz(1).to_Hz(), 1_000_000);
    assert_eq!(Hertz::MHz(96).to_Hz(), 96_000_000);
    assert_eq!(Hertz::MHz(4294).to_Hz(), 4_294_000_000);
}

#[test]
fn division_rounds_down() {
    assert_eq!(Hertz::Hz(100).divided_by(7).to_Hz(), 14);
    assert_eq!(Hertz::Hz(48_000_000).divided_by(3).to_Hz(), 16_000_000);
    assert_eq!(Hertz::Hz(32_768).divided_by(1).to_Hz(), 32_768);
    assert_eq!(Hertz::Hz(32_768).divided_by(32_769).to_Hz(), 0);
    assert_eq!(Hertz::Hz(u32::MAX).divided_by(u32::MAX).to_Hz(), 1);
}

#[test]
fn hertz_agrees_with_fugit() {
    let rate = fugit::HertzU32::MHz(96) / 5;
    assert_eq!(Hertz::MHz(96).divided_by(5).to_Hz(), rate.to_Hz());
    assert_eq!(Hertz::Hz(8_000_000).to_Hz(), fugit::HertzU32::Hz(8_000_000).to_Hz());
}

#[test]
fn equal_frequencies_compare_equal() {
    assert_eq!(Hertz::MHz(8), Hertz::Hz(8_000_000));
    assert_ne!(Hertz::Hz(1), Hertz::Hz(2));
}
