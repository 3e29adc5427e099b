//! Building the one outbound quote request from the settings.
//!
//! The request asks the configured endpoint for the quote of a single fixed
//! currency and carries the credential in a header of its own. Sending it and
//! reading the answer are not done here.

use crate::error::ErrorKind;
use crate::settings::{Settings, SettingsView};
use vstd::prelude::*;
use vstd::string::StringExecFns;

verus! {

/// The name of the header that carries the credential.
pub const API_KEY_HEADER: &'static str = "X-CMC_PRO_API_KEY";

/// What is appended to the endpoint address to select the currency.
pub const CURRENCY_QUERY: &'static str = "?slug=bitcoin";

/// Why no quote request can be built from the settings.
#[derive(Clone, Copy, Debug, PartialEq, Eq, Structural)]
pub enum ConfigError {
    /// The credential is not set, or set to nothing.
    MissingApiKey,
    /// The endpoint address is not set, or set to nothing.
    MissingApiUrl,
    /// The credential holds a character that no header value can carry.
    MalformedApiKey,
}

/// The quote request: where to send it and the credential to send along.
#[derive(Debug, PartialEq, Eq)]
pub struct QuoteRequest {
    pub url: String,
    pub api_key: String,
}

/// Mathematical value of a [`QuoteRequest`].
pub struct QuoteRequestView {
    pub url: Seq<char>,
    pub api_key: Seq<char>,
}

impl View for QuoteRequest {
    type V = QuoteRequestView;

    open spec fn view(&self) -> QuoteRequestView {
        QuoteRequestView { url: self.url@, api_key: self.api_key@ }
    }
}

/// Whether `c` may stand in an HTTP header value: a tab, or any character from
/// the space upwards except DEL.
pub open spec fn header_char(c: char) -> bool {
    c == '\t' || (' ' <= c && c != '\x7f')
}

/// Whether every character of `text` may stand in an HTTP header value.
pub open spec fn header_text(text: Seq<char>) -> bool {
    forall|i: int| 0 <= i < text.len() ==> header_char(#[trigger] text[i])
}

/// Whether a required setting is there: set, and not to the empty text.
pub open spec fn present(setting: Option<Seq<char>>) -> bool {
    setting is Some && setting->0.len() > 0
}

/// The quote request that follows from `settings`, or why there is none.
pub open spec fn request_for(settings: SettingsView) -> Result<QuoteRequestView, ConfigError> {
    if !present(settings.api_key) {
        Err(ConfigError::MissingApiKey)
    } else if !present(settings.api_url) {
        Err(ConfigError::MissingApiUrl)
    } else if !header_text(settings.api_key->0) {
        Err(ConfigError::MalformedApiKey)
    } else {
        Ok(
            QuoteRequestView {
                url: settings.api_url->0 + CURRENCY_QUERY@,
                api_key: settings.api_key->0,
            },
        )
    }
}

/// The value of a request or of the reason why there is none.
pub open spec fn request_view(request: Result<QuoteRequest, ConfigError>) -> Result<
    QuoteRequestView,
    ConfigError,
> {
    match request {
        Ok(request) => Ok(request@),
        Err(error) => Err(error),
    }
}

/// Why no quote came back.
#[derive(Clone, Copy, Debug, PartialEq, Eq, Structural)]
pub enum FetchFailure {
    /// The request failed, timed out or was answered without success.
    Network,
    /// The answer was not the expected document.
    Parse,
}

impl FetchFailure {
    /// The kind of error this failure is reported as.
    pub open spec fn error_kind(self) -> ErrorKind {
        match self {
            FetchFailure::Network => ErrorKind::Network,
            FetchFailure::Parse => ErrorKind::Parse,
        }
    }

    /// Executable form of [`FetchFailure::error_kind`].
    pub fn kind(self) -> (kind: ErrorKind)
        ensures
            kind == self.error_kind(),
    {
        match self {
            FetchFailure::Network => ErrorKind::Network,
            FetchFailure::Parse => ErrorKind::Parse,
        }
    }
}

/// What an answer with the HTTP status `status` means before its body is
/// read: anything but a success (200 to 299) is a network failure.
pub fn check_status(status: u16) -> (decision: Result<(), FetchFailure>)
    ensures
        200 <= status < 300 ==> decision is Ok,
        !(200 <= status < 300) ==> decision == Err::<(), FetchFailure>(FetchFailure::Network),
{
    if 200 <= status && status < 300 {
        Ok(())
    } else {
        Err(FetchFailure::Network)
    }
}

/// Asks `reqwest::header::HeaderValue::from_str` whether it accepts `text`.
///
/// That function walks the UTF-8 bytes of its argument and rejects the first
/// one that is below 32 and not a tab, or equal to 127; every other byte
/// passes, those of non-ASCII characters included. The contract states this
/// per character and is not proved here.
#[verifier::external_body]
fn accepted_as_header_value(text: &str) -> (accepted: bool)
    ensures
        accepted == header_text(text@),
{
    reqwest::header::HeaderValue::from_str(text).is_ok()
}

/// Builds the quote request from the settings.
///
/// Both the credential and the endpoint address must be set and not empty,
/// and the credential must be fit for a header.
pub fn quote_request(settings: &Settings) -> (request: Result<QuoteRequest, ConfigError>)
    ensures
        request_view(request) == request_for(settings@),
{
    match &settings.api_key {
        None => Err(ConfigError::MissingApiKey),
        Some(api_key) => {
            if api_key.as_str().is_empty() {
                return Err(ConfigError::MissingApiKey);
            }
            match &settings.api_url {
                None => Err(ConfigError::MissingApiUrl),
                Some(api_url) => {
                    if api_url.as_str().is_empty() {
                        return Err(ConfigError::MissingApiUrl);
                    }
                    if !accepted_as_header_value(api_key.as_str()) {
                        return Err(ConfigError::MalformedApiKey);
                    }
                    let mut url = api_url.clone();
                    url.append(CURRENCY_QUERY);
                    Ok(QuoteRequest { url, api_key: api_key.clone() })
                },
            }
        },
    }
}

} // verus!
