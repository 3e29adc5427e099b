//! One run of the tracker: fetch a quote, store it, alert if it is due.
//!
//! A run is a small machine. It hands out one [`Command`] at a time, the
//! driver carries the command out and reports back with a [`Reply`], and
//! [`Pipeline::advance`] decides what comes next. The order is fixed: nothing
//! is stored before a quote has arrived, the quote is only appended under the
//! id the store gave for its currency, and an alert is only sent once the
//! quote is stored. A failure before that point ends the run; a failed alert
//! does not.

use crate::database::{
    create_database, insert_quote, Cryptocurrency, CryptocurrencyView, Database, DatabaseView,
    Quote, QuoteView, StoreError,
};
use crate::error::ErrorKind;
use crate::notifier::{
    alert_message, alert_text, decide, decision, notification_due, threshold_view, Decision,
    Threshold, ThresholdView,
};
use crate::quote_source::{
    quote_request, request_for, FetchFailure, QuoteRequest, QuoteRequestView,
};
use crate::settings::{clone_text, clone_threshold, text_view, Settings, SettingsView};
use vstd::prelude::*;

verus! {

/// What became of the alert in a run that stored its quote.
#[derive(Clone, Copy, Debug, PartialEq, Eq, Structural)]
pub enum AlertOutcome {
    /// No threshold is configured.
    NoThreshold,
    /// The threshold is not a number: worth a warning, not a failure.
    InvalidThreshold,
    /// The price is above the threshold.
    AboveThreshold,
    /// An alert was due, but there is no address to send it to.
    NoWebhook,
    /// The alert was delivered.
    Sent,
    /// The alert was due and could not be delivered.
    DeliveryFailed,
}

/// How a run ended.
#[derive(Clone, Copy, Debug, PartialEq, Eq, Structural)]
pub enum Outcome {
    /// The quote is stored under the currency `currency_id`.
    Stored { currency_id: u64, alert: AlertOutcome },
    /// The run failed before the quote was stored.
    Failed { kind: ErrorKind },
}

impl Outcome {
    /// The kind of error the run met, if it met one. A run that stored its
    /// quote can only have met a failed delivery.
    pub open spec fn error(self) -> Option<ErrorKind> {
        match self {
            Outcome::Failed { kind } => Some(kind),
            Outcome::Stored { alert: AlertOutcome::DeliveryFailed, .. } => Some(
                ErrorKind::Notification,
            ),
            Outcome::Stored { .. } => None,
        }
    }

    /// Executable form of [`Outcome::error`].
    pub fn failure(self) -> (kind: Option<ErrorKind>)
        ensures
            kind == self.error(),
    {
        match self {
            Outcome::Failed { kind } => Some(kind),
            Outcome::Stored { alert: AlertOutcome::DeliveryFailed, .. } => Some(
                ErrorKind::Notification,
            ),
            Outcome::Stored { .. } => None,
        }
    }
}

/// What the driver is asked to do next.
#[derive(Debug, PartialEq, Eq)]
pub enum Command {
    /// Send the quote request and read the answer.
    FetchQuote { request: QuoteRequest },
    /// Open the store and create its tables if they are missing.
    CreateTables,
    /// Look the currency up by name and symbol.
    FindCurrency { name: String, symbol: String },
    /// Add a currency row.
    AddCurrency { id: u64, name: String, symbol: String },
    /// Append a quote row for the currency `currency_id`.
    AddQuote { currency_id: u64, quote: Quote },
    /// Post the alert to the webhook.
    SendAlert { url: String, message: String },
    /// The run is over.
    Finish { outcome: Outcome },
    /// The reply answered no open command: there is nothing to do.
    Nothing,
}

/// What the driver reports back.
#[derive(Debug, PartialEq, Eq)]
pub enum Reply {
    /// The quote arrived, its price already rounded to cents.
    QuoteFetched { currency: Cryptocurrency },
    /// No quote arrived.
    FetchFailed { failure: FetchFailure },
    /// The tables are there.
    TablesReady,
    /// The currency is registered under `id`.
    CurrencyFound { id: u64 },
    /// The currency is not registered.
    CurrencyMissing,
    /// The currency row was added and has the id `id`.
    CurrencyAdded { id: u64 },
    /// The quote row was appended.
    QuoteAdded,
    /// The store failed to carry the command out.
    StoreFailed,
    /// The alert was delivered.
    AlertSent,
    /// The alert could not be delivered.
    AlertFailed,
}

/// Where a run stands: which reply it is waiting for, and what it keeps for
/// the steps to come.
#[derive(Debug, PartialEq, Eq)]
pub enum Stage {
    /// Waiting for the quote.
    Fetching,
    /// Waiting for the tables.
    PreparingStore { currency: Cryptocurrency },
    /// Waiting for the lookup of the currency.
    FindingCurrency { currency: Cryptocurrency },
    /// Waiting for the new currency row.
    AddingCurrency { currency: Cryptocurrency },
    /// Waiting for the new quote row.
    AddingQuote { currency_id: u64, price: i64 },
    /// Waiting for the delivery of the alert.
    Alerting { currency_id: u64 },
    /// Over.
    Finished,
}

/// One run.
#[derive(Debug, PartialEq, Eq)]
pub struct Pipeline {
    pub stage: Stage,
    /// The threshold the stored price is held against.
    pub threshold: Option<Threshold>,
    /// Where an alert goes.
    pub webhook_url: Option<String>,
}

/// Mathematical value of a [`Command`].
pub enum CommandView {
    FetchQuote { request: QuoteRequestView },
    CreateTables,
    FindCurrency { name: Seq<char>, symbol: Seq<char> },
    AddCurrency { id: u64, name: Seq<char>, symbol: Seq<char> },
    AddQuote { currency_id: u64, quote: QuoteView },
    SendAlert { url: Seq<char>, message: Seq<char> },
    Finish { outcome: Outcome },
    Nothing,
}

/// Mathematical value of a [`Reply`].
pub enum ReplyView {
    QuoteFetched { currency: CryptocurrencyView },
    FetchFailed { failure: FetchFailure },
    TablesReady,
    CurrencyFound { id: u64 },
    CurrencyMissing,
    CurrencyAdded { id: u64 },
    QuoteAdded,
    StoreFailed,
    AlertSent,
    AlertFailed,
}

/// Mathematical value of a [`Stage`].
pub enum StageView {
    Fetching,
    PreparingStore { currency: CryptocurrencyView },
    FindingCurrency { currency: CryptocurrencyView },
    AddingCurrency { currency: CryptocurrencyView },
    AddingQuote { currency_id: u64, price: i64 },
    Alerting { currency_id: u64 },
    Finished,
}

/// Mathematical value of a [`Pipeline`].
pub struct PipelineView {
    pub stage: StageView,
    pub threshold: Option<ThresholdView>,
    pub webhook_url: Option<Seq<char>>,
}

impl View for Command {
    type V = CommandView;

    open spec fn view(&self) -> CommandView {
        match *self {
            Command::FetchQuote { request } => CommandView::FetchQuote { request: request@ },
            Command::CreateTables => CommandView::CreateTables,
            Command::FindCurrency { name, symbol } => CommandView::FindCurrency {
                name: name@,
                symbol: symbol@,
            },
            Command::AddCurrency { id, name, symbol } => CommandView::AddCurrency {
                id,
                name: name@,
                symbol: symbol@,
            },
            Command::AddQuote { currency_id, quote } => CommandView::AddQuote {
                currency_id,
                quote: quote@,
            },
            Command::SendAlert { url, message } => CommandView::SendAlert {
                url: url@,
                message: message@,
            },
            Command::Finish { outcome } => CommandView::Finish { outcome },
            Command::Nothing => CommandView::Nothing,
        }
    }
}

impl View for Reply {
    type V = ReplyView;

    open spec fn view(&self) -> ReplyView {
        match *self {
            Reply::QuoteFetched { currency } => ReplyView::QuoteFetched { currency: currency@ },
            Reply::FetchFailed { failure } => ReplyView::FetchFailed { failure },
            Reply::TablesReady => ReplyView::TablesReady,
            Reply::CurrencyFound { id } => ReplyView::CurrencyFound { id },
            Reply::CurrencyMissing => ReplyView::CurrencyMissing,
            Reply::CurrencyAdded { id } => ReplyView::CurrencyAdded { id },
            Reply::QuoteAdded => ReplyView::QuoteAdded,
            Reply::StoreFailed => ReplyView::StoreFailed,
            Reply::AlertSent => ReplyView::AlertSent,
            Reply::AlertFailed => ReplyView::AlertFailed,
        }
    }
}

impl View for Stage {
    type V = StageView;

    open spec fn view(&self) -> StageView {
        match *self {
            Stage::Fetching => StageView::Fetching,
            Stage::PreparingStore { currency } => StageView::PreparingStore {
                currency: currency@,
            },
            Stage::FindingCurrency { currency } => StageView::FindingCurrency {
                currency: currency@,
            },
            Stage::AddingCurrency { currency } => StageView::AddingCurrency {
                currency: currency@,
            },
            Stage::AddingQuote { currency_id, price } => StageView::AddingQuote {
                currency_id,
                price,
            },
            Stage::Alerting { currency_id } => StageView::Alerting { currency_id },
            Stage::Finished => StageView::Finished,
        }
    }
}

impl View for Pipeline {
    type V = PipelineView;

    open spec fn view(&self) -> PipelineView {
        PipelineView {
            stage: self.stage@,
            threshold: threshold_view(self.threshold),
            webhook_url: text_view(self.webhook_url),
        }
    }
}

impl PipelineView {
    /// The run moved to `stage`.
    pub open spec fn at(self, stage: StageView) -> PipelineView {
        PipelineView { stage, ..self }
    }

    /// The run ends with `outcome`.
    pub open spec fn finish(self, outcome: Outcome) -> (PipelineView, CommandView) {
        (self.at(StageView::Finished), CommandView::Finish { outcome })
    }

    /// The run fails with an error of kind `kind`.
    pub open spec fn fail(self, kind: ErrorKind) -> (PipelineView, CommandView) {
        self.finish(Outcome::Failed { kind })
    }

    /// The first step of a run with `settings`: ask for the quote, or fail
    /// where the settings do not allow a request.
    pub open spec fn start(settings: SettingsView) -> (PipelineView, CommandView) {
        let run = PipelineView {
            stage: StageView::Fetching,
            threshold: settings.minimum_buy_price,
            webhook_url: settings.webhook_url,
        };
        match request_for(settings) {
            Ok(request) => (run, CommandView::FetchQuote { request }),
            Err(_) => run.fail(ErrorKind::Configuration),
        }
    }

    /// The step after the currency is known by `currency_id`: append its
    /// quote.
    pub open spec fn record(self, currency_id: u64, currency: CryptocurrencyView) -> (
        PipelineView,
        CommandView,
    ) {
        (
            self.at(StageView::AddingQuote { currency_id, price: currency.quote.usd.price }),
            CommandView::AddQuote { currency_id, quote: currency.quote.usd },
        )
    }

    /// The step after the quote is stored: send the alert where one is due and
    /// there is an address for it, else end the run.
    pub open spec fn conclude(self, currency_id: u64, price: i64) -> (PipelineView, CommandView) {
        match decision(price, self.threshold) {
            Decision::NoThreshold => self.finish(
                Outcome::Stored { currency_id, alert: AlertOutcome::NoThreshold },
            ),
            Decision::InvalidThreshold => self.finish(
                Outcome::Stored { currency_id, alert: AlertOutcome::InvalidThreshold },
            ),
            Decision::AboveThreshold => self.finish(
                Outcome::Stored { currency_id, alert: AlertOutcome::AboveThreshold },
            ),
            Decision::Notify => match self.webhook_url {
                None => self.finish(
                    Outcome::Stored { currency_id, alert: AlertOutcome::NoWebhook },
                ),
                Some(url) => (
                    self.at(StageView::Alerting { currency_id }),
                    CommandView::SendAlert {
                        url,
                        message: alert_text(price as int, self.threshold->0.text),
                    },
                ),
            },
        }
    }

    /// What `reply` leads to: the run afterwards and the next command.
    ///
    /// A reply that does not answer the open command changes nothing.
    pub open spec fn step(self, reply: ReplyView) -> (PipelineView, CommandView) {
        match (self.stage, reply) {
            (StageView::Fetching, ReplyView::QuoteFetched { currency }) => (
                self.at(StageView::PreparingStore { currency }),
                CommandView::CreateTables,
            ),
            (StageView::Fetching, ReplyView::FetchFailed { failure }) => self.fail(
                failure.error_kind(),
            ),
            (StageView::PreparingStore { currency }, ReplyView::TablesReady) => (
                self.at(StageView::FindingCurrency { currency }),
                CommandView::FindCurrency { name: currency.name, symbol: currency.symbol },
            ),
            (StageView::FindingCurrency { currency }, ReplyView::CurrencyFound { id }) => self.record(
                id,
                currency,
            ),
            (StageView::FindingCurrency { currency }, ReplyView::CurrencyMissing) => (
                self.at(StageView::AddingCurrency { currency }),
                CommandView::AddCurrency {
                    id: currency.id,
                    name: currency.name,
                    symbol: currency.symbol,
                },
            ),
            (StageView::AddingCurrency { currency }, ReplyView::CurrencyAdded { id }) => self.record(
                id,
                currency,
            ),
            (StageView::AddingQuote { currency_id, price }, ReplyView::QuoteAdded) => self.conclude(
                currency_id,
                price,
            ),
            (StageView::PreparingStore { .. }, ReplyView::StoreFailed) => self.fail(
                ErrorKind::Persistence,
            ),
            (StageView::FindingCurrency { .. }, ReplyView::StoreFailed) => self.fail(
                ErrorKind::Persistence,
            ),
            (StageView::AddingCurrency { .. }, ReplyView::StoreFailed) => self.fail(
                ErrorKind::Persistence,
            ),
            (StageView::AddingQuote { .. }, ReplyView::StoreFailed) => self.fail(
                ErrorKind::Persistence,
            ),
            (StageView::Alerting { currency_id }, ReplyView::AlertSent) => self.finish(
                Outcome::Stored { currency_id, alert: AlertOutcome::Sent },
            ),
            (StageView::Alerting { currency_id }, ReplyView::AlertFailed) => self.finish(
                Outcome::Stored { currency_id, alert: AlertOutcome::DeliveryFailed },
            ),
            _ => (self, CommandView::Nothing),
        }
    }
}

impl Pipeline {
    /// Begins a run with `settings`.
    ///
    /// The first command asks for the quote. Where the credential or the
    /// endpoint address is missing, empty or unusable, the run is over at once
    /// with a configuration error.
    pub fn start(settings: &Settings) -> (next: (Pipeline, Command))
        ensures
            (next.0@, next.1@) == PipelineView::start(settings@),
    {
        let run = Pipeline {
            stage: Stage::Fetching,
            threshold: clone_threshold(&settings.minimum_buy_price),
            webhook_url: clone_text(&settings.webhook_url),
        };
        match quote_request(settings) {
            Ok(request) => (run, Command::FetchQuote { request }),
            Err(_) => run.fail(ErrorKind::Configuration),
        }
    }

    fn finish(self, outcome: Outcome) -> (next: (Pipeline, Command))
        ensures
            (next.0@, next.1@) == self@.finish(outcome),
    {
        (
            Pipeline {
                stage: Stage::Finished,
                threshold: self.threshold,
                webhook_url: self.webhook_url,
            },
            Command::Finish { outcome },
        )
    }

    fn fail(self, kind: ErrorKind) -> (next: (Pipeline, Command))
        ensures
            (next.0@, next.1@) == self@.fail(kind),
    {
        self.finish(Outcome::Failed { kind })
    }

    fn record(
        threshold: Option<Threshold>,
        webhook_url: Option<String>,
        currency_id: u64,
        currency: Cryptocurrency,
    ) -> (next: (Pipeline, Command))
        ensures
            (next.0@, next.1@) == (PipelineView {
                stage: StageView::Fetching,
                threshold: threshold_view(threshold),
                webhook_url: text_view(webhook_url),
            }).record(currency_id, currency@),
    {
        let price = currency.quote.usd.price;
        (
            Pipeline { stage: Stage::AddingQuote { currency_id, price }, threshold, webhook_url },
            Command::AddQuote { currency_id, quote: currency.quote.usd },
        )
    }

    fn conclude(
        threshold: Option<Threshold>,
        webhook_url: Option<String>,
        currency_id: u64,
        price: i64,
    ) -> (next: (Pipeline, Command))
        ensures
            (next.0@, next.1@) == (PipelineView {
                stage: StageView::Fetching,
                threshold: threshold_view(threshold),
                webhook_url: text_view(webhook_url),
            }).conclude(currency_id, price),
    {
        let outcome = decide(price, &threshold);
        let run = Pipeline { stage: Stage::Finished, threshold, webhook_url };
        match outcome {
            Decision::NoThreshold => run.finish(
                Outcome::Stored { currency_id, alert: AlertOutcome::NoThreshold },
            ),
            Decision::InvalidThreshold => run.finish(
                Outcome::Stored { currency_id, alert: AlertOutcome::InvalidThreshold },
            ),
            Decision::AboveThreshold => run.finish(
                Outcome::Stored { currency_id, alert: AlertOutcome::AboveThreshold },
            ),
            Decision::Notify => {
                let message = match &run.threshold {
                    Some(threshold) => alert_message(price, threshold.text.as_str()),
                    None => String::new(),
                };
                match clone_text(&run.webhook_url) {
                    None => run.finish(
                        Outcome::Stored { currency_id, alert: AlertOutcome::NoWebhook },
                    ),
                    Some(url) => (
                        Pipeline {
                            stage: Stage::Alerting { currency_id },
                            threshold: run.threshold,
                            webhook_url: run.webhook_url,
                        },
                        Command::SendAlert { url, message },
                    ),
                }
            },
        }
    }

    /// Takes the driver's reply and decides what comes next.
    ///
    /// A reply that does not answer the open command leaves the run as it is
    /// and asks for nothing.
    pub fn advance(self, reply: Reply) -> (next: (Pipeline, Command))
        ensures
            (next.0@, next.1@) == self@.step(reply@),
    {
        let Pipeline { stage, threshold, webhook_url } = self;
        match (stage, reply) {
            (Stage::Fetching, Reply::QuoteFetched { currency }) => (
                Pipeline { stage: Stage::PreparingStore { currency }, threshold, webhook_url },
                Command::CreateTables,
            ),
            (Stage::Fetching, Reply::FetchFailed { failure }) => {
                let run = Pipeline { stage: Stage::Fetching, threshold, webhook_url };
                run.fail(failure.kind())
            },
            (Stage::PreparingStore { currency }, Reply::TablesReady) => {
                let name = currency.name.clone();
                let symbol = currency.symbol.clone();
                (
                    Pipeline {
                        stage: Stage::FindingCurrency { currency },
                        threshold,
                        webhook_url,
                    },
                    Command::FindCurrency { name, symbol },
                )
            },
            (Stage::FindingCurrency { currency }, Reply::CurrencyFound { id }) => Pipeline::record(
                threshold,
                webhook_url,
                id,
                currency,
            ),
            (Stage::FindingCurrency { currency }, Reply::CurrencyMissing) => {
                let id = currency.id;
                let name = currency.name.clone();
                let symbol = currency.symbol.clone();
                (
                    Pipeline {
                        stage: Stage::AddingCurrency { currency },
                        threshold,
                        webhook_url,
                    },
                    Command::AddCurrency { id, name, symbol },
                )
            },
            (Stage::AddingCurrency { currency }, Reply::CurrencyAdded { id }) => Pipeline::record(
                threshold,
                webhook_url,
                id,
                currency,
            ),
            (Stage::AddingQuote { currency_id, price }, Reply::QuoteAdded) => Pipeline::conclude(
                threshold,
                webhook_url,
                currency_id,
                price,
            ),
            (Stage::PreparingStore { currency }, Reply::StoreFailed) => {
                let run = Pipeline {
                    stage: Stage::PreparingStore { currency },
                    threshold,
                    webhook_url,
                };
                run.fail(ErrorKind::Persistence)
            },
            (Stage::FindingCurrency { currency }, Reply::StoreFailed) => {
                let run = Pipeline {
                    stage: Stage::FindingCurrency { currency },
                    threshold,
                    webhook_url,
                };
                run.fail(ErrorKind::Persistence)
            },
            (Stage::AddingCurrency { currency }, Reply::StoreFailed) => {
                let run = Pipeline {
                    stage: Stage::AddingCurrency { currency },
                    threshold,
                    webhook_url,
                };
                run.fail(ErrorKind::Persistence)
            },
            (Stage::AddingQuote { currency_id, price }, Reply::StoreFailed) => {
                let run = Pipeline {
                    stage: Stage::AddingQuote { currency_id, price },
                    threshold,
                    webhook_url,
                };
                run.fail(ErrorKind::Persistence)
            },
            (Stage::Alerting { currency_id }, Reply::AlertSent) => {
                let run = Pipeline { stage: Stage::Finished, threshold, webhook_url };
                run.finish(Outcome::Stored { currency_id, alert: AlertOutcome::Sent })
            },
            (Stage::Alerting { currency_id }, Reply::AlertFailed) => {
                let run = Pipeline { stage: Stage::Finished, threshold, webhook_url };
                run.finish(Outcome::Stored { currency_id, alert: AlertOutcome::DeliveryFailed })
            },
            (stage, _) => (Pipeline { stage, threshold, webhook_url }, Command::Nothing),
        }
    }
}

/// How far a run in `stage` is from its end, in replies.
pub open spec fn rank(stage: StageView) -> nat {
    match stage {
        StageView::Fetching => 6,
        StageView::PreparingStore { .. } => 5,
        StageView::FindingCurrency { .. } => 4,
        StageView::AddingCurrency { .. } => 3,
        StageView::AddingQuote { .. } => 2,
        StageView::Alerting { .. } => 1,
        StageView::Finished => 0,
    }
}

/// Every reply either changes nothing or brings the run closer to its end.
pub proof fn lemma_step_descends(run: PipelineView, reply: ReplyView)
    ensures
        run.step(reply).1 is Nothing ==> run.step(reply).0 == run,
        !(run.step(reply).1 is Nothing) ==> rank(run.step(reply).0.stage) < rank(run.stage),
{
}

/// How a store with the value `db` carries `command` out: the store
/// afterwards and its reply. `None` for a command that is not for the store.
pub open spec fn store_reply(db: DatabaseView, command: CommandView) -> Option<
    (DatabaseView, ReplyView),
> {
    match command {
        CommandView::CreateTables => Some((db.with_schema(), ReplyView::TablesReady)),
        CommandView::FindCurrency { name, symbol } => Some(
            (
                db,
                match db.find(name, symbol) {
                    Ok(Some(id)) => ReplyView::CurrencyFound { id },
                    Ok(None) => ReplyView::CurrencyMissing,
                    Err(_) => ReplyView::StoreFailed,
                },
            ),
        ),
        CommandView::AddCurrency { id, name, symbol } => Some(
            (
                db.add(id, name, symbol).0,
                match db.add(id, name, symbol).1 {
                    Ok(id) => ReplyView::CurrencyAdded { id },
                    Err(_) => ReplyView::StoreFailed,
                },
            ),
        ),
        CommandView::AddQuote { currency_id, quote } => Some(
            (
                db.append(currency_id, quote).0,
                match db.append(currency_id, quote).1 {
                    Ok(_) => ReplyView::QuoteAdded,
                    Err(_) => ReplyView::StoreFailed,
                },
            ),
        ),
        _ => None,
    }
}

/// Lets the store `db` carry `command` out and answers with its reply, or with
/// `None` and an untouched store where the command is not for the store.
pub fn answer(db: &mut Database, command: &Command) -> (reply: Option<Reply>)
    ensures
        match store_reply(old(db)@, command@) {
            Some((after, said)) => reply is Some && reply->0@ == said && final(db)@ == after,
            None => reply is None && final(db)@ == old(db)@,
        },
        final(db)@.well_formed(),
{
    match command {
        Command::CreateTables => {
            let _ = create_database(db);
            Some(Reply::TablesReady)
        },
        Command::FindCurrency { name, symbol } => {
            match db.find_currency(name, symbol) {
                Ok(Some(id)) => Some(Reply::CurrencyFound { id }),
                Ok(None) => Some(Reply::CurrencyMissing),
                Err(_) => Some(Reply::StoreFailed),
            }
        },
        Command::AddCurrency { id, name, symbol } => {
            match db.add_currency(*id, name, symbol) {
                Ok(id) => Some(Reply::CurrencyAdded { id }),
                Err(_) => Some(Reply::StoreFailed),
            }
        },
        Command::AddQuote { currency_id, quote } => {
            match insert_quote(db, *currency_id, quote) {
                Ok(_) => Some(Reply::QuoteAdded),
                Err(_) => Some(Reply::StoreFailed),
            }
        },
        _ => {
            let _ = db.has_schema();
            None
        },
    }
}

/// Where a run and a store end up when the store answers every command that
/// is meant for it: at the first command that is for someone else.
pub open spec fn settle(run: PipelineView, db: DatabaseView, command: CommandView) -> (
    PipelineView,
    DatabaseView,
    CommandView,
)
    decreases rank(run.stage),
{
    match store_reply(db, command) {
        None => (run, db, command),
        Some((after, reply)) => {
            let (next, then) = run.step(reply);
            if rank(next.stage) < rank(run.stage) {
                settle(next, after, then)
            } else {
                (next, after, then)
            }
        },
    }
}

impl Pipeline {
    /// Like [`Pipeline::advance`], with `db` as the store: the commands for
    /// the store are carried out on `db` at once, and the command that comes
    /// back is the next one for the driver.
    pub fn advance_on(self, db: &mut Database, reply: Reply) -> (next: (Pipeline, Command))
        ensures
            (next.0@, final(db)@, next.1@) == settle(
                self@.step(reply@).0,
                old(db)@,
                self@.step(reply@).1,
            ),
            final(db)@.well_formed(),
    {
        let ghost goal = settle(self@.step(reply@).0, old(db)@, self@.step(reply@).1);
        let first = self.advance(reply);
        let mut run = first.0;
        let mut command = first.1;
        let _ = db.has_schema();
        loop
            invariant
                goal == settle(self@.step(reply@).0, old(db)@, self@.step(reply@).1),
                settle(run@, db@, command@) == goal,
                db@.well_formed(),
            decreases
                    rank(run@.stage),
                    (if store_reply(db@, command@) is Some {
                        1nat
                    } else {
                        0nat
                    }),
        {
            match answer(db, &command) {
                None => {
                    assert(settle(run@, db@, command@) == (run@, db@, command@));
                    return (run, command);
                },
                Some(said) => {
                    proof {
                        lemma_step_descends(run@, said@);
                    }
                    let next = run.advance(said);
                    run = next.0;
                    command = next.1;
                },
            }
        }
    }
}

/// What storing the quote of `currency` does to a store: the tables are
/// created if need be, the currency is registered, and its quote is appended
/// under the id the store knows the currency by.
pub open spec fn stored(db: DatabaseView, currency: CryptocurrencyView) -> (
    DatabaseView,
    Result<u64, StoreError>,
) {
    let (registered, id) = db.with_schema().upsert(currency);
    match id {
        Err(error) => (registered, Err(error)),
        Ok(id) => match registered.append(id, currency.quote.usd).1 {
            Err(error) => (registered, Err(error)),
            Ok(_) => (registered.append(id, currency.quote.usd).0, Ok(id)),
        },
    }
}

/// What becomes of the alert once a price is stored, given how a delivery
/// would go.
pub open spec fn alert_outcome(
    price: i64,
    threshold: Option<ThresholdView>,
    webhook_url: Option<Seq<char>>,
    delivered: bool,
) -> AlertOutcome {
    match decision(price, threshold) {
        Decision::NoThreshold => AlertOutcome::NoThreshold,
        Decision::InvalidThreshold => AlertOutcome::InvalidThreshold,
        Decision::AboveThreshold => AlertOutcome::AboveThreshold,
        Decision::Notify => if webhook_url is None {
            AlertOutcome::NoWebhook
        } else if delivered {
            AlertOutcome::Sent
        } else {
            AlertOutcome::DeliveryFailed
        },
    }
}

/// The value of a fetched quote or of the reason why there is none.
pub open spec fn fetched_view(fetched: Result<Cryptocurrency, FetchFailure>) -> Result<
    CryptocurrencyView,
    FetchFailure,
> {
    match fetched {
        Ok(currency) => Ok(currency@),
        Err(failure) => Err(failure),
    }
}

/// A whole run at a glance: what it leaves in the store and how it ends,
/// given what the quote source answered and how a delivery would go.
pub open spec fn completed(
    settings: SettingsView,
    db: DatabaseView,
    fetched: Result<CryptocurrencyView, FetchFailure>,
    delivered: bool,
) -> (DatabaseView, Outcome) {
    if request_for(settings) is Err {
        (db, Outcome::Failed { kind: ErrorKind::Configuration })
    } else {
        match fetched {
            Err(failure) => (db, Outcome::Failed { kind: failure.error_kind() }),
            Ok(currency) => match stored(db, currency) {
                (after, Err(_)) => (after, Outcome::Failed { kind: ErrorKind::Persistence }),
                (after, Ok(currency_id)) => (
                    after,
                    Outcome::Stored {
                        currency_id,
                        alert: alert_outcome(
                            currency.quote.usd.price,
                            settings.minimum_buy_price,
                            settings.webhook_url,
                            delivered,
                        ),
                    },
                ),
            },
        }
    }
}

/// A currency that registering answers with is in the store afterwards.
pub proof fn lemma_upsert_registers(db: DatabaseView, currency: CryptocurrencyView)
    requires
        db.well_formed(),
        db.upsert(currency).1 is Ok,
    ensures
        db.upsert(currency).0.has_id(db.upsert(currency).1->Ok_0),
        db.upsert(currency).0.lookup(currency.name, currency.symbol) == Some(
            db.upsert(currency).1->Ok_0,
        ),
{
    let after = db.upsert(currency).0;
    if db.lookup(currency.name, currency.symbol) is Some {
        let at = choose|i: int| db.names_row(i, currency.name, currency.symbol);
        assert(db.names_row(at, currency.name, currency.symbol));
        assert(db.currencies[at].id == db.upsert(currency).1->Ok_0);
    } else {
        crate::database::lemma_added_is_found(db, currency.id, currency.name, currency.symbol);
        assert(after.currencies[db.currencies.len() as int].id == currency.id);
    }
}

/// The last step at the store: the quote row.
proof fn lemma_settle_quote(
    run: PipelineView,
    db: DatabaseView,
    currency_id: u64,
    currency: CryptocurrencyView,
)
    ensures
        ({
            let first = run.record(currency_id, currency);
            let (after_run, after_db, command) = settle(first.0, db, first.1);
            &&& after_db == db.append(currency_id, currency.quote.usd).0
            &&& match db.append(currency_id, currency.quote.usd).1 {
                Ok(_) => (after_run, command) == run.conclude(
                    currency_id,
                    currency.quote.usd.price,
                ),
                Err(_) => (after_run, command) == run.fail(ErrorKind::Persistence),
            }
        }),
{
    reveal_with_fuel(settle, 2);
}

/// The step before: the currency row, where the currency was not found.
proof fn lemma_settle_add(run: PipelineView, db: DatabaseView, currency: CryptocurrencyView)
    requires
        run.stage == (StageView::AddingCurrency { currency }),
    ensures
        ({
            let command = CommandView::AddCurrency {
                id: currency.id,
                name: currency.name,
                symbol: currency.symbol,
            };
            let added = db.add(currency.id, currency.name, currency.symbol);
            match added.1 {
                Ok(id) => settle(run, db, command) == settle(
                    run.record(id, currency).0,
                    added.0,
                    run.record(id, currency).1,
                ),
                Err(_) => settle(run, db, command) == (
                    run.fail(ErrorKind::Persistence).0,
                    db,
                    run.fail(ErrorKind::Persistence).1,
                ),
            }
        }),
{
    reveal_with_fuel(settle, 2);
}

/// The step before: the lookup of the currency.
proof fn lemma_settle_find(run: PipelineView, db: DatabaseView, currency: CryptocurrencyView)
    requires
        run.stage == (StageView::FindingCurrency { currency }),
    ensures
        ({
            let command = CommandView::FindCurrency {
                name: currency.name,
                symbol: currency.symbol,
            };
            match db.find(currency.name, currency.symbol) {
                Ok(Some(id)) => settle(run, db, command) == settle(
                    run.record(id, currency).0,
                    db,
                    run.record(id, currency).1,
                ),
                Ok(None) => settle(run, db, command) == settle(
                    run.at(StageView::AddingCurrency { currency }),
                    db,
                    CommandView::AddCurrency {
                        id: currency.id,
                        name: currency.name,
                        symbol: currency.symbol,
                    },
                ),
                Err(_) => settle(run, db, command) == (
                    run.fail(ErrorKind::Persistence).0,
                    db,
                    run.fail(ErrorKind::Persistence).1,
                ),
            }
        }),
{
    reveal_with_fuel(settle, 2);
}

/// Driving the machine against a store does what [`stored`] says: after the
/// quote has arrived, the store ends up as `stored` leaves it, and the run
/// goes on to the alert if the quote was stored and fails with a persistence
/// error if it was not.
pub proof fn lemma_machine_stores(run: PipelineView, db: DatabaseView, currency: CryptocurrencyView)
    requires
        db.well_formed(),
        run.stage is Fetching,
    ensures
        ({
            let first = run.step(ReplyView::QuoteFetched { currency });
            let (after_run, after_db, command) = settle(first.0, db, first.1);
            &&& after_db == stored(db, currency).0
            &&& after_db.well_formed()
            &&& match stored(db, currency).1 {
                Ok(id) => (after_run, command) == run.conclude(id, currency.quote.usd.price),
                Err(_) => (after_run, command) == run.fail(ErrorKind::Persistence),
            }
        }),
{
    let ready = db.with_schema();
    let preparing = run.at(StageView::PreparingStore { currency });
    let finding = run.at(StageView::FindingCurrency { currency });
    let adding = run.at(StageView::AddingCurrency { currency });
    let find = CommandView::FindCurrency { name: currency.name, symbol: currency.symbol };
    assert(settle(preparing, db, CommandView::CreateTables) == settle(finding, ready, find)) by {
        reveal_with_fuel(settle, 2);
    }
    lemma_settle_find(finding, ready, currency);
    crate::database::lemma_upsert_well_formed(ready, currency);
    match ready.lookup(currency.name, currency.symbol) {
        Some(id) => {
            lemma_upsert_registers(ready, currency);
            lemma_settle_quote(finding, ready, id, currency);
            crate::database::lemma_append_well_formed(ready, id, currency.quote.usd);
        },
        None => {
            lemma_settle_add(adding, ready, currency);
            let added = ready.add(currency.id, currency.name, currency.symbol);
            if added.1 is Ok {
                lemma_upsert_registers(ready, currency);
                lemma_settle_quote(adding, added.0, currency.id, currency);
                crate::database::lemma_append_well_formed(
                    added.0,
                    currency.id,
                    currency.quote.usd,
                );
            }
        },
    }
}

/// A run that stores its quote appends exactly one quote row, and that row
/// belongs to a currency that is registered, under the id the run reports,
/// when the row is written. A run that fails appends none. Rows that were
/// there before stay as they were.
pub proof fn lemma_run_appends_one_quote(
    settings: SettingsView,
    db: DatabaseView,
    fetched: Result<CryptocurrencyView, FetchFailure>,
    delivered: bool,
)
    requires
        db.well_formed(),
    ensures
        completed(settings, db, fetched, delivered).0.well_formed(),
        match completed(settings, db, fetched, delivered).1 {
            Outcome::Stored { currency_id, .. } => {
                let after = completed(settings, db, fetched, delivered).0;
                &&& fetched is Ok
                &&& after.quotes == db.quotes.push(
                    crate::database::quote_row(currency_id, fetched->Ok_0.quote.usd),
                )
                &&& after.has_id(currency_id)
                &&& after.lookup(fetched->Ok_0.name, fetched->Ok_0.symbol) == Some(currency_id)
                &&& after.currencies == db.with_schema().upsert(fetched->Ok_0).0.currencies
            },
            Outcome::Failed { .. } => completed(settings, db, fetched, delivered).0.quotes
                == db.quotes,
        },
{
    if request_for(settings) is Ok && fetched is Ok {
        let currency = fetched->Ok_0;
        let ready = db.with_schema();
        crate::database::lemma_upsert_well_formed(ready, currency);
        if ready.upsert(currency).1 is Ok {
            let id = ready.upsert(currency).1->Ok_0;
            lemma_upsert_registers(ready, currency);
            crate::database::lemma_append_well_formed(
                ready.upsert(currency).0,
                id,
                currency.quote.usd,
            );
            let after = ready.upsert(currency).0.append(id, currency.quote.usd).0;
            assert(after.has_id(id)) by {
                let at = choose|i: int|
                    0 <= i < ready.upsert(currency).0.currencies.len() && (
                    #[trigger] ready.upsert(currency).0.currencies[i]).id == id;
                assert(after.currencies[at].id == id);
            }
            assert(after.names_row(
                choose|i: int|
                    ready.upsert(currency).0.names_row(i, currency.name, currency.symbol),
                currency.name,
                currency.symbol,
            ));
        }
    }
}

/// Makes a whole run with `db` as the store, given what the quote source
/// answered and whether a delivery succeeds, and reports how the run ended.
///
/// This is the machine driven from its first command to its last; what it
/// comes to is said by [`completed`].
pub fn fetch_and_store_latest_quote(
    settings: &Settings,
    db: &mut Database,
    fetched: Result<Cryptocurrency, FetchFailure>,
    delivered: bool,
) -> (outcome: Outcome)
    ensures
        (final(db)@, outcome) == completed(settings@, old(db)@, fetched_view(fetched), delivered),
        final(db)@.well_formed(),
{
    let _ = db.has_schema();
    let (run, command) = Pipeline::start(settings);
    match command {
        Command::FetchQuote { .. } => {
            let reply = match fetched {
                Ok(currency) => {
                    proof {
                        lemma_machine_stores(run@, db@, currency@);
                    }
                    Reply::QuoteFetched { currency }
                },
                Err(failure) => Reply::FetchFailed { failure },
            };
            proof {
                reveal_with_fuel(settle, 1);
            }
            let (run, command) = run.advance_on(db, reply);
            match command {
                Command::Finish { outcome } => outcome,
                Command::SendAlert { .. } => {
                    let reply = if delivered {
                        Reply::AlertSent
                    } else {
                        Reply::AlertFailed
                    };
                    let (_, command) = run.advance(reply);
                    match command {
                        Command::Finish { outcome } => outcome,
                        _ => vstd::pervasive::unreached(),
                    }
                },
                _ => vstd::pervasive::unreached(),
            }
        },
        Command::Finish { outcome } => outcome,
        _ => vstd::pervasive::unreached(),
    }
}

/// Once the quote is stored, the alert is sent for exactly when it is due and
/// there is an address for it; in every other case the run ends there, with
/// its quote stored.
pub proof fn lemma_alert_when_due(run: PipelineView, currency_id: u64, price: i64)
    ensures
        run.conclude(currency_id, price).1 is SendAlert <==> notification_due(price, run.threshold)
            && run.webhook_url is Some,
        !(run.conclude(currency_id, price).1 is SendAlert) ==> run.conclude(currency_id, price).1
            is Finish && run.conclude(currency_id, price).1->outcome is Stored,
{
}

/// The store is a pair of logs: whatever command it carries out, the rows
/// that were there stay where they were and as they were.
pub proof fn lemma_rows_only_grow(db: DatabaseView, command: CommandView)
    requires
        store_reply(db, command) is Some,
    ensures
        ({
            let after = store_reply(db, command).unwrap().0;
            &&& db.currencies.is_prefix_of(after.currencies)
            &&& db.quotes.is_prefix_of(after.quotes)
            &&& after.currencies.len() + after.quotes.len() <= db.currencies.len()
                + db.quotes.len() + 1
        }),
{
}

/// The steps keep their order. A quote is only written in answer to the
/// store's word on its currency, and under the id the store gave; an alert is
/// only sent in answer to the stored quote.
pub proof fn lemma_steps_keep_their_order(run: PipelineView, reply: ReplyView)
    ensures
        run.step(reply).1 matches CommandView::AddQuote { currency_id, quote } ==> {
            ||| {
                &&& run.stage matches StageView::FindingCurrency { currency }
                &&& reply == (ReplyView::CurrencyFound { id: currency_id })
                &&& quote == currency.quote.usd
            }
            ||| {
                &&& run.stage matches StageView::AddingCurrency { currency }
                &&& reply == (ReplyView::CurrencyAdded { id: currency_id })
                &&& quote == currency.quote.usd
            }
        },
        run.step(reply).1 is SendAlert ==> run.stage is AddingQuote && reply is QuoteAdded,
        run.step(reply).1 matches CommandView::Finish { outcome } && outcome is Stored ==> {
            ||| run.stage is AddingQuote && reply is QuoteAdded
            ||| run.stage is Alerting
        },
{
}

} // verus!
