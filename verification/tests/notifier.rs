use btc_tracker::notifier::{alert_message, decide, format_price, Threshold, Decision};

fn threshold(text: &str, cents: Option<i64>) -> Option<Threshold> {
    Some(Threshold { text: String::from(text), cents })
}

#[test]
fn a_price_below_the_threshold_notifies() {
    assert_eq!(decide(4_999_999, &threshold("50000", Some(5_000_000))), Decision::Notify);
}

#[test]
fn a_price_at_the_threshold_notifies() {
    assert_eq!(decide(5_000_000, &threshold("50000", Some(5_000_000))), Decision::Notify);
}

#[test]
fn a_price_above_the_threshold_does_not_notify() {
    assert_eq!(decide(5_000_001, &threshold("50000", Some(5_000_000))), Decision::AboveThreshold);
}

#[test]
fn a_threshold_that_is_no_number_does_not_notify() {
    assert_eq!(decide(1, &threshold("abc", None)), Decision::InvalidThreshold);
    assert_eq!(decide(i64::MIN, &threshold("abc", None)), Decision::InvalidThreshold);
}

#[test]
fn no_threshold_does_not_notify() {
    assert_eq!(decide(1, &None), Decision::NoThreshold);
}

#[test]
fn prices_are_written_in_dollars() {
    assert_eq!(format_price(4_325_157), "43251.57");
    assert_eq!(format_price(4_325_150), "43251.5");
    assert_eq!(format_price(5_000_000), "50000");
    assert_eq!(format_price(4_999_999), "49999.99");
    assert_eq!(format_price(5), "0.05");
    assert_eq!(format_price(50), "0.5");
    assert_eq!(format_price(0), "0");
    assert_eq!(format_price(100), "1");
    assert_eq!(format_price(-1), "-0.01");
    assert_eq!(format_price(-4_325_150), "-43251.5");
}

#[test]
fn the_largest_and_smallest_price_are_written_in_full() {
    assert_eq!(format_price(i64::MAX), "92233720368547758.07");
    assert_eq!(format_price(i64::MIN), "-92233720368547758.08");
}

#[test]
fn the_alert_names_price_and_threshold() {
    assert_eq!(
        alert_message(4_999_999, "50000"),
        "BTC quote **$49999.99** meets your buy threshold of **$50000 USD**.\n_Pull the trigger!_"
    );
}

#[test]
fn a_copy_of_a_threshold_equals_it() {
    let first = Threshold { text: String::from("50000"), cents: Some(5_000_000) };
    assert_eq!(first.clone(), first);
}
