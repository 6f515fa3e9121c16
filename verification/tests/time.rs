use netidx_excel::bus::BusValue;
use netidx_excel::exceltime::{
    bus_of_resolve, serial_civil_date, serial_to_datetime, LocalResolve, DAY_MS,
};

#[test]
fn serial_one_is_new_years_day_1900() {
    assert_eq!(serial_civil_date(1.0f64.to_bits()), Some((1900, 1, 1)));
}

#[test]
fn serial_59_is_the_last_real_february_day() {
    assert_eq!(serial_civil_date(59.0f64.to_bits()), Some((1900, 2, 28)));
}

#[test]
fn serial_60_falls_on_the_fictitious_leap_day() {
    // Every serial above 59 is shifted down one whole day, so the host's
    // nonexistent 1900-02-29 lands on the last real February day.
    assert_eq!(serial_civil_date(60.0f64.to_bits()), Some((1900, 2, 28)));
}

#[test]
fn serial_61_is_march_first() {
    assert_eq!(serial_civil_date(61.0f64.to_bits()), Some((1900, 3, 1)));
}

#[test]
fn fractional_serials_shift_like_their_value() {
    // The shift applies to every serial above 59, fractional ones included:
    // 59.75 already falls past the threshold and loses a whole day.
    assert_eq!(serial_civil_date(59.75f64.to_bits()), Some((1900, 2, 27)));
    assert_eq!(serial_civil_date(60.5f64.to_bits()), Some((1900, 2, 28)));
    assert_eq!(serial_civil_date(61.25f64.to_bits()), Some((1900, 3, 1)));
    assert_eq!(serial_civil_date(58.9f64.to_bits()), Some((1900, 2, 27)));
}

#[test]
fn negative_serials_are_rejected() {
    assert_eq!(serial_civil_date((-1.0f64).to_bits()), None);
    assert_eq!(serial_civil_date((-0.25f64).to_bits()), None);
}

#[test]
fn serial_zero_is_the_epoch_date() {
    assert_eq!(serial_civil_date(0.0f64.to_bits()), Some((1899, 12, 31)));
}

#[test]
fn a_modern_serial_resolves_to_an_instant() {
    // 2023-03-15 as a host serial day.
    match serial_to_datetime(45000.0f64.to_bits(), 0) {
        BusValue::DateTime(_) => {}
        other => panic!("unexpected: {:?}", other),
    }
    assert_eq!(serial_civil_date(45000.0f64.to_bits()), Some((2023, 3, 15)));
}

#[test]
fn out_of_range_milliseconds_are_a_value_error() {
    assert_eq!(
        serial_to_datetime(10.0f64.to_bits(), DAY_MS + 1),
        BusValue::Error(String::from("#VALUE!"))
    );
    assert_eq!(
        serial_to_datetime(10.0f64.to_bits(), -1),
        BusValue::Error(String::from("#VALUE!"))
    );
}

#[test]
fn negative_serial_is_a_value_error_instant() {
    assert_eq!(
        serial_to_datetime((-2.0f64).to_bits(), 0),
        BusValue::Error(String::from("#VALUE!"))
    );
}

#[test]
fn resolve_outcomes_map_exactly() {
    assert_eq!(bus_of_resolve(LocalResolve::Single(123)), BusValue::DateTime(123));
    assert_eq!(
        bus_of_resolve(LocalResolve::Ambiguous),
        BusValue::Error(String::from("#AMBIGUOUS_TIME"))
    );
    assert_eq!(
        bus_of_resolve(LocalResolve::NotFound),
        BusValue::Error(String::from("#VALUE!"))
    );
}
