use btc_tracker::database::{
    create_database, insert_currency, Cryptocurrency, Database, Quote, Quotes,
};
use btc_tracker::error::ErrorKind;
use btc_tracker::notifier::Threshold;
use btc_tracker::pipeline::{
    answer, fetch_and_store_latest_quote, AlertOutcome, Command, Outcome, Pipeline, Reply, Stage,
};
use btc_tracker::quote_source::{FetchFailure, QuoteRequest};
use btc_tracker::settings::Settings;

fn settings(threshold: Option<(&str, Option<i64>)>, webhook: Option<&str>) -> Settings {
    Settings {
        api_url: Some(String::from("https://api.example/quotes")),
        api_key: Some(String::from("key")),
        webhook_url: webhook.map(String::from),
        minimum_buy_price: threshold
            .map(|(text, cents)| Threshold { text: String::from(text), cents }),
        period_secs: None,
    }
}

fn bitcoin(id: u64, price: i64) -> Cryptocurrency {
    Cryptocurrency {
        id,
        name: String::from("Bitcoin"),
        symbol: String::from("BTC"),
        quote: Quotes { usd: usd(price) },
    }
}

fn usd(price: i64) -> Quote {
    Quote {
        price,
        percent_change_24h: 0xbff0_0000_0000_0000,
        last_updated: String::from("2024-05-01T12:00:00.000Z"),
    }
}

#[test]
fn a_run_asks_for_one_thing_after_the_other() {
    let config = settings(Some(("50000", Some(5_000_000))), Some("https://hook.example/1"));
    let (run, command) = Pipeline::start(&config);
    assert_eq!(
        command,
        Command::FetchQuote {
            request: QuoteRequest {
                url: String::from("https://api.example/quotes?slug=bitcoin"),
                api_key: String::from("key"),
            }
        }
    );
    assert_eq!(run.stage, Stage::Fetching);

    let (run, command) = run.advance(Reply::QuoteFetched { currency: bitcoin(1, 4_999_999) });
    assert_eq!(command, Command::CreateTables);

    let (run, command) = run.advance(Reply::TablesReady);
    assert_eq!(
        command,
        Command::FindCurrency { name: String::from("Bitcoin"), symbol: String::from("BTC") }
    );

    let (run, command) = run.advance(Reply::CurrencyMissing);
    assert_eq!(
        command,
        Command::AddCurrency {
            id: 1,
            name: String::from("Bitcoin"),
            symbol: String::from("BTC")
        }
    );

    let (run, command) = run.advance(Reply::CurrencyAdded { id: 1 });
    assert_eq!(command, Command::AddQuote { currency_id: 1, quote: usd(4_999_999) });
    assert_eq!(run.stage, Stage::AddingQuote { currency_id: 1, price: 4_999_999 });

    let (run, command) = run.advance(Reply::QuoteAdded);
    assert_eq!(
        command,
        Command::SendAlert {
            url: String::from("https://hook.example/1"),
            message: String::from(
                "BTC quote **$49999.99** meets your buy threshold of **$50000 USD**.\n_Pull the trigger!_"
            ),
        }
    );
    assert_eq!(run.stage, Stage::Alerting { currency_id: 1 });

    let (run, command) = run.advance(Reply::AlertSent);
    assert_eq!(
        command,
        Command::Finish { outcome: Outcome::Stored { currency_id: 1, alert: AlertOutcome::Sent } }
    );
    assert_eq!(run.stage, Stage::Finished);
}

#[test]
fn a_known_currency_keeps_the_id_of_the_store() {
    let (run, _) = Pipeline::start(&settings(None, None));
    let (run, _) = run.advance(Reply::QuoteFetched { currency: bitcoin(77, 100) });
    let (run, _) = run.advance(Reply::TablesReady);
    let (run, command) = run.advance(Reply::CurrencyFound { id: 1 });
    assert_eq!(command, Command::AddQuote { currency_id: 1, quote: usd(100) });
    let (_, command) = run.advance(Reply::QuoteAdded);
    assert_eq!(
        command,
        Command::Finish {
            outcome: Outcome::Stored { currency_id: 1, alert: AlertOutcome::NoThreshold }
        }
    );
}

#[test]
fn a_reply_out_of_turn_changes_nothing() {
    let (run, _) = Pipeline::start(&settings(None, None));
    let (run, command) = run.advance(Reply::QuoteAdded);
    assert_eq!(command, Command::Nothing);
    assert_eq!(run.stage, Stage::Fetching);
    let (run, command) = run.advance(Reply::AlertSent);
    assert_eq!(command, Command::Nothing);
    let (run, command) = run.advance(Reply::FetchFailed { failure: FetchFailure::Parse });
    assert_eq!(command, Command::Finish { outcome: Outcome::Failed { kind: ErrorKind::Parse } });
    let (run, command) = run.advance(Reply::TablesReady);
    assert_eq!(command, Command::Nothing);
    assert_eq!(run.stage, Stage::Finished);
}

#[test]
fn a_store_failure_ends_the_run_at_every_step() {
    for steps in 0..4 {
        let (mut run, _) = Pipeline::start(&settings(None, None));
        let replies = vec![
            Reply::QuoteFetched { currency: bitcoin(1, 100) },
            Reply::TablesReady,
            Reply::CurrencyMissing,
            Reply::CurrencyAdded { id: 1 },
        ];
        for reply in replies.into_iter().take(steps + 1) {
            run = run.advance(reply).0;
        }
        let (run, command) = run.advance(Reply::StoreFailed);
        assert_eq!(
            command,
            Command::Finish { outcome: Outcome::Failed { kind: ErrorKind::Persistence } }
        );
        assert_eq!(run.stage, Stage::Finished);
    }
}

#[test]
fn settings_without_credential_end_the_run_at_once() {
    let mut config = settings(None, None);
    config.api_key = None;
    let (run, command) = Pipeline::start(&config);
    assert_eq!(
        command,
        Command::Finish { outcome: Outcome::Failed { kind: ErrorKind::Configuration } }
    );
    assert_eq!(run.stage, Stage::Finished);
    let mut db = Database::new();
    assert_eq!(
        fetch_and_store_latest_quote(&config, &mut db, Ok(bitcoin(1, 100)), true),
        Outcome::Failed { kind: ErrorKind::Configuration }
    );
    assert!(!db.has_schema());
    assert_eq!(db.quote_count(), 0);
}

#[test]
fn the_store_answers_only_its_own_commands() {
    let mut db = Database::new();
    assert_eq!(answer(&mut db, &Command::Nothing), None);
    assert_eq!(
        answer(&mut db, &Command::Finish { outcome: Outcome::Failed { kind: ErrorKind::Parse } }),
        None
    );
    assert_eq!(
        answer(
            &mut db,
            &Command::FindCurrency { name: String::from("Bitcoin"), symbol: String::from("BTC") }
        ),
        Some(Reply::StoreFailed)
    );
    assert_eq!(answer(&mut db, &Command::CreateTables), Some(Reply::TablesReady));
    assert_eq!(
        answer(
            &mut db,
            &Command::FindCurrency { name: String::from("Bitcoin"), symbol: String::from("BTC") }
        ),
        Some(Reply::CurrencyMissing)
    );
    assert_eq!(
        answer(
            &mut db,
            &Command::AddCurrency {
                id: 1,
                name: String::from("Bitcoin"),
                symbol: String::from("BTC")
            }
        ),
        Some(Reply::CurrencyAdded { id: 1 })
    );
    assert_eq!(
        answer(
            &mut db,
            &Command::FindCurrency { name: String::from("Bitcoin"), symbol: String::from("BTC") }
        ),
        Some(Reply::CurrencyFound { id: 1 })
    );
    assert_eq!(
        answer(&mut db, &Command::AddQuote { currency_id: 2, quote: usd(1) }),
        Some(Reply::StoreFailed)
    );
    assert_eq!(
        answer(&mut db, &Command::AddQuote { currency_id: 1, quote: usd(1) }),
        Some(Reply::QuoteAdded)
    );
    assert_eq!(db.quote_count(), 1);
}

#[test]
fn with_a_store_at_hand_the_run_goes_straight_to_the_alert() {
    let config = settings(Some(("50000", Some(5_000_000))), Some("https://hook.example/1"));
    let mut db = Database::new();
    let (run, _) = Pipeline::start(&config);
    let (run, command) =
        run.advance_on(&mut db, Reply::QuoteFetched { currency: bitcoin(1, 5_000_000) });
    assert_eq!(
        command,
        Command::SendAlert {
            url: String::from("https://hook.example/1"),
            message: String::from(
                "BTC quote **$50000** meets your buy threshold of **$50000 USD**.\n_Pull the trigger!_"
            ),
        }
    );
    assert_eq!(run.stage, Stage::Alerting { currency_id: 1 });
    assert_eq!(db.currency_count(), 1);
    assert_eq!(db.quote_count(), 1);
}

#[test]
fn a_successful_run_appends_one_quote_for_a_registered_currency() {
    let config = settings(None, None);
    let mut db = Database::new();
    for round in 0..3u64 {
        let outcome = fetch_and_store_latest_quote(&config, &mut db, Ok(bitcoin(1 + round, 100 + round as i64)), true);
        assert_eq!(
            outcome,
            Outcome::Stored { currency_id: 1, alert: AlertOutcome::NoThreshold }
        );
        assert_eq!(db.quote_count(), round as usize + 1);
        assert_eq!(db.currency_count(), 1);
        let row = db.quote(round as usize).unwrap();
        assert_eq!(row.currency_id, 1);
        assert_eq!(row.price, 100 + round as i64);
        assert_eq!(db.currency(0).unwrap().id, row.currency_id);
    }
}

#[test]
fn a_price_under_the_threshold_is_alerted() {
    let config = settings(Some(("50000", Some(5_000_000))), Some("https://hook.example/1"));
    let mut db = Database::new();
    assert_eq!(
        fetch_and_store_latest_quote(&config, &mut db, Ok(bitcoin(1, 4_999_999)), true),
        Outcome::Stored { currency_id: 1, alert: AlertOutcome::Sent }
    );
}

#[test]
fn a_price_over_the_threshold_is_not_alerted() {
    let config = settings(Some(("50000", Some(5_000_000))), Some("https://hook.example/1"));
    let mut db = Database::new();
    assert_eq!(
        fetch_and_store_latest_quote(&config, &mut db, Ok(bitcoin(1, 5_000_001)), true),
        Outcome::Stored { currency_id: 1, alert: AlertOutcome::AboveThreshold }
    );
    assert_eq!(db.quote_count(), 1);
}

#[test]
fn a_threshold_that_is_no_number_warns_and_the_run_succeeds() {
    let config = settings(Some(("abc", None)), Some("https://hook.example/1"));
    let mut db = Database::new();
    assert_eq!(
        fetch_and_store_latest_quote(&config, &mut db, Ok(bitcoin(1, 1)), true),
        Outcome::Stored { currency_id: 1, alert: AlertOutcome::InvalidThreshold }
    );
    assert_eq!(db.quote_count(), 1);
}

#[test]
fn a_failed_delivery_does_not_fail_the_run() {
    let config = settings(Some(("50000", Some(5_000_000))), Some("https://hook.example/1"));
    let mut db = Database::new();
    assert_eq!(
        fetch_and_store_latest_quote(&config, &mut db, Ok(bitcoin(1, 1)), false),
        Outcome::Stored { currency_id: 1, alert: AlertOutcome::DeliveryFailed }
    );
    assert_eq!(db.quote_count(), 1);
}

#[test]
fn without_a_webhook_no_alert_is_sent() {
    let config = settings(Some(("50000", Some(5_000_000))), None);
    let mut db = Database::new();
    assert_eq!(
        fetch_and_store_latest_quote(&config, &mut db, Ok(bitcoin(1, 1)), true),
        Outcome::Stored { currency_id: 1, alert: AlertOutcome::NoWebhook }
    );
}

#[test]
fn a_failed_fetch_stores_nothing() {
    let config = settings(None, None);
    let mut db = Database::new();
    assert_eq!(
        fetch_and_store_latest_quote(&config, &mut db, Err(FetchFailure::Network), true),
        Outcome::Failed { kind: ErrorKind::Network }
    );
    assert_eq!(
        fetch_and_store_latest_quote(&config, &mut db, Err(FetchFailure::Parse), true),
        Outcome::Failed { kind: ErrorKind::Parse }
    );
    assert!(!db.has_schema());
    assert_eq!(db.currency_count(), 0);
    assert_eq!(db.quote_count(), 0);
}

#[test]
fn a_refused_currency_fails_the_run_and_appends_nothing() {
    let config = settings(Some(("50000", Some(5_000_000))), Some("https://hook.example/1"));
    let mut db = Database::new();
    assert_eq!(create_database(&mut db), Ok(()));
    let mut other = bitcoin(1, 1);
    other.symbol = String::from("XBT");
    assert_eq!(insert_currency(&mut db, &other), Ok(1));
    assert_eq!(
        fetch_and_store_latest_quote(&config, &mut db, Ok(bitcoin(2, 1)), true),
        Outcome::Failed { kind: ErrorKind::Persistence }
    );
    assert_eq!(db.currency_count(), 1);
    assert_eq!(db.quote_count(), 0);
}

#[test]
fn only_a_failed_run_or_delivery_counts_as_an_error() {
    assert_eq!(Outcome::Failed { kind: ErrorKind::Network }.failure(), Some(ErrorKind::Network));
    assert_eq!(
        Outcome::Stored { currency_id: 1, alert: AlertOutcome::DeliveryFailed }.failure(),
        Some(ErrorKind::Notification)
    );
    assert_eq!(Outcome::Stored { currency_id: 1, alert: AlertOutcome::Sent }.failure(), None);
    assert_eq!(
        Outcome::Stored { currency_id: 1, alert: AlertOutcome::InvalidThreshold }.failure(),
        None
    );
}
