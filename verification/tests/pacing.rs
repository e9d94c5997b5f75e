use oled_player::pacing::sleep_remainder;

#[test]
fn sleeps_the_remainder_when_the_tick_was_fast() {
    assert_eq!(sleep_remainder(40_000, 0), 40_000);
    assert_eq!(sleep_remainder(40_000, 12_345), 27_655);
    assert_eq!(sleep_remainder(40_000, 39_999), 1);
}

#[test]
fn never_compensates_an_overrun() {
    assert_eq!(sleep_remainder(40_000, 40_000), 0);
    assert_eq!(sleep_remainder(40_000, 100_000), 0);
    assert_eq!(sleep_remainder(0, 0), 0);
}
