//! The settings the tracker runs with, as the loader found them.

use crate::notifier::{threshold_view, Threshold, ThresholdView};
use vstd::prelude::*;

verus! {

/// The tick period where none is configured: thirty minutes.
pub const DEFAULT_PERIOD_SECS: u64 = 1800;

/// The settings, each as it was found: `None` where it is not set.
#[derive(Debug, PartialEq, Eq)]
pub struct Settings {
    /// The address of the quote endpoint.
    pub api_url: Option<String>,
    /// The credential for the quote endpoint.
    pub api_key: Option<String>,
    /// The address alerts are posted to. Without it no alert is sent.
    pub webhook_url: Option<String>,
    /// The minimum-buy threshold. Without it no alert is due.
    pub minimum_buy_price: Option<Threshold>,
    /// The seconds between two ticks.
    pub period_secs: Option<u64>,
}

/// Mathematical value of a [`Settings`].
pub struct SettingsView {
    pub api_url: Option<Seq<char>>,
    pub api_key: Option<Seq<char>>,
    pub webhook_url: Option<Seq<char>>,
    pub minimum_buy_price: Option<ThresholdView>,
    pub period_secs: Option<u64>,
}

/// The value of an optional text.
pub open spec fn text_view(text: Option<String>) -> Option<Seq<char>> {
    match text {
        Some(text) => Some(text@),
        None => None,
    }
}

impl View for Settings {
    type V = SettingsView;

    open spec fn view(&self) -> SettingsView {
        SettingsView {
            api_url: text_view(self.api_url),
            api_key: text_view(self.api_key),
            webhook_url: text_view(self.webhook_url),
            minimum_buy_price: threshold_view(self.minimum_buy_price),
            period_secs: self.period_secs,
        }
    }
}

impl SettingsView {
    /// The seconds between two ticks: as configured, else the default.
    pub open spec fn period(self) -> u64 {
        match self.period_secs {
            Some(secs) => secs,
            None => DEFAULT_PERIOD_SECS,
        }
    }
}

impl Settings {
    /// The seconds between two ticks: as configured, else thirty minutes.
    pub fn period(&self) -> (secs: u64)
        ensures
            secs == self@.period(),
    {
        match self.period_secs {
            Some(secs) => secs,
            None => DEFAULT_PERIOD_SECS,
        }
    }
}

/// A copy of an optional text.
pub fn clone_text(text: &Option<String>) -> (copy: Option<String>)
    ensures
        text_view(copy) == text_view(*text),
{
    match text {
        Some(text) => Some(text.clone()),
        None => None,
    }
}

/// A copy of an optional threshold.
pub fn clone_threshold(threshold: &Option<Threshold>) -> (copy: Option<Threshold>)
    ensures
        threshold_view(copy) == threshold_view(*threshold),
{
    match threshold {
        Some(threshold) => Some(threshold.clone()),
        None => None,
    }
}

} // verus!
