use btc_alert::evaluate::evaluate;
use btc_alert::feed::FeedError;
use btc_alert::feed::FEED_CURRENCY;
use btc_alert::feed::price_from_body;
use btc_alert::feed::price_from_extracted;

#[test]
fn buy_price_below_threshold_triggers() {
    let body = "{\"EUR\": {\"buy\": 65000.0}}";
    let sample = price_from_body(body, FEED_CURRENCY).unwrap();
    assert_eq!(sample.cents, 6500000);
    let d = evaluate(sample.cents, 7000000);
    assert!(d.triggered);
    assert_eq!(d.observed_cents, 6500000);
}

#[test]
fn buy_price_above_threshold_does_not_trigger() {
    let body = "{\"EUR\": {\"buy\": 75000.0}}";
    let sample = price_from_body(body, FEED_CURRENCY).unwrap();
    assert_eq!(sample.cents, 7500000);
    let d = evaluate(sample.cents, 7000000);
    assert!(!d.triggered);
}

#[test]
fn missing_buy_field_is_a_parse_error() {
    let body = "{\"EUR\": {\"sell\": 65000.0}}";
    assert_eq!(price_from_body(body, FEED_CURRENCY).unwrap_err(), FeedError::Parse);
}

#[test]
fn missing_currency_is_a_parse_error() {
    let body = "{\"USD\": {\"buy\": 65000.0}}";
    assert_eq!(price_from_body(body, FEED_CURRENCY).unwrap_err(), FeedError::Parse);
}

#[test]
fn malformed_body_is_a_parse_error() {
    assert_eq!(price_from_body("not json at all", FEED_CURRENCY).unwrap_err(), FeedError::Parse);
    assert_eq!(price_from_body("", FEED_CURRENCY).unwrap_err(), FeedError::Parse);
}

#[test]
fn non_numeric_buy_field_is_a_parse_error() {
    let body = "{\"EUR\": {\"buy\": \"lots\"}}";
    assert_eq!(price_from_body(body, FEED_CURRENCY).unwrap_err(), FeedError::Parse);
}

#[test]
fn negative_buy_field_is_a_parse_error() {
    let body = "{\"EUR\": {\"buy\": -1.0}}";
    assert_eq!(price_from_body(body, FEED_CURRENCY).unwrap_err(), FeedError::Parse);
}

#[test]
fn fractional_buy_price_keeps_its_cents() {
    let body = "{\"EUR\": {\"buy\": 64999.55}}";
    let sample = price_from_body(body, FEED_CURRENCY).unwrap();
    assert_eq!(sample.cents, 6499955);
}

#[test]
fn extracted_value_becomes_a_sample() {
    assert_eq!(price_from_extracted(Some(42)).unwrap().cents, 42);
    assert_eq!(price_from_extracted(None).unwrap_err(), FeedError::Parse);
}
