use btc_tracker::error::ErrorKind;
use btc_tracker::quote_source::{
    check_status, quote_request, ConfigError, FetchFailure, QuoteRequest, API_KEY_HEADER,
    CURRENCY_QUERY,
};
use btc_tracker::settings::{Settings, DEFAULT_PERIOD_SECS};

fn settings(api_url: Option<&str>, api_key: Option<&str>) -> Settings {
    Settings {
        api_url: api_url.map(String::from),
        api_key: api_key.map(String::from),
        webhook_url: None,
        minimum_buy_price: None,
        period_secs: None,
    }
}

#[test]
fn the_request_goes_to_the_endpoint_with_the_currency_selected() {
    let request = quote_request(&settings(Some("https://api.example/v2/quotes"), Some("k-123")));
    assert_eq!(
        request,
        Ok(QuoteRequest {
            url: String::from("https://api.example/v2/quotes?slug=bitcoin"),
            api_key: String::from("k-123"),
        })
    );
}

#[test]
fn the_fixed_parts_of_the_request() {
    assert_eq!(API_KEY_HEADER, "X-CMC_PRO_API_KEY");
    assert_eq!(CURRENCY_QUERY, "?slug=bitcoin");
}

#[test]
fn a_missing_credential_is_a_configuration_error() {
    assert_eq!(quote_request(&settings(Some("u"), None)), Err(ConfigError::MissingApiKey));
    assert_eq!(quote_request(&settings(Some("u"), Some(""))), Err(ConfigError::MissingApiKey));
    assert_eq!(quote_request(&settings(None, None)), Err(ConfigError::MissingApiKey));
}

#[test]
fn a_missing_endpoint_is_a_configuration_error() {
    assert_eq!(quote_request(&settings(None, Some("k"))), Err(ConfigError::MissingApiUrl));
    assert_eq!(quote_request(&settings(Some(""), Some("k"))), Err(ConfigError::MissingApiUrl));
}

#[test]
fn a_credential_with_a_line_break_is_refused() {
    assert_eq!(
        quote_request(&settings(Some("u"), Some("abc\ndef"))),
        Err(ConfigError::MalformedApiKey)
    );
    assert_eq!(
        quote_request(&settings(Some("u"), Some("abc\u{7f}"))),
        Err(ConfigError::MalformedApiKey)
    );
    assert_eq!(
        quote_request(&settings(Some("u"), Some("\u{0}"))),
        Err(ConfigError::MalformedApiKey)
    );
}

#[test]
fn a_credential_with_a_tab_or_beyond_ascii_is_accepted() {
    assert!(quote_request(&settings(Some("u"), Some("a\tb"))).is_ok());
    assert!(quote_request(&settings(Some("u"), Some("cl\u{e9} ~"))).is_ok());
}

#[test]
fn only_a_success_status_is_read_on() {
    assert_eq!(check_status(200), Ok(()));
    assert_eq!(check_status(204), Ok(()));
    assert_eq!(check_status(299), Ok(()));
    assert_eq!(check_status(199), Err(FetchFailure::Network));
    assert_eq!(check_status(300), Err(FetchFailure::Network));
    assert_eq!(check_status(401), Err(FetchFailure::Network));
    assert_eq!(check_status(500), Err(FetchFailure::Network));
    assert_eq!(check_status(0), Err(FetchFailure::Network));
}

#[test]
fn fetch_failures_keep_their_kind() {
    assert_eq!(FetchFailure::Network.kind(), ErrorKind::Network);
    assert_eq!(FetchFailure::Parse.kind(), ErrorKind::Parse);
}

#[test]
fn only_a_failed_alert_is_tolerated() {
    assert!(ErrorKind::Configuration.is_fatal());
    assert!(ErrorKind::Network.is_fatal());
    assert!(ErrorKind::Parse.is_fatal());
    assert!(ErrorKind::Persistence.is_fatal());
    assert!(!ErrorKind::Notification.is_fatal());
}

#[test]
fn the_period_defaults_to_thirty_minutes() {
    assert_eq!(DEFAULT_PERIOD_SECS, 30 * 60);
    assert_eq!(settings(None, None).period(), 1800);
    let mut custom = settings(None, None);
    custom.period_secs = Some(5);
    assert_eq!(custom.period(), 5);
}
