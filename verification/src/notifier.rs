//! The notification policy and the text of the alert.
//!
//! Whether an alert is due is decided here; delivering it is not. The
//! threshold comes from the settings as text. Reading that text as a number is
//! the loader's part: it hands over what it found as a whole number of cents.

use vstd::prelude::*;
use vstd::string::StringExecFns;

verus! {

/// The configured minimum-buy threshold.
#[derive(Debug, PartialEq, Eq)]
pub struct Threshold {
    /// The setting as it was written.
    pub text: String,
    /// The largest price in cents that is not above the threshold, or `None`
    /// where the text is not a number.
    pub cents: Option<i64>,
}

/// Mathematical value of a [`Threshold`].
pub struct ThresholdView {
    pub text: Seq<char>,
    pub cents: Option<i64>,
}

impl View for Threshold {
    type V = ThresholdView;

    open spec fn view(&self) -> ThresholdView {
        ThresholdView { text: self.text@, cents: self.cents }
    }
}

impl Clone for Threshold {
    fn clone(&self) -> (copy: Self)
        ensures
            copy@ == self@,
    {
        Threshold { text: self.text.clone(), cents: self.cents }
    }
}

/// What the policy says about one stored price.
#[derive(Clone, Copy, Debug, PartialEq, Eq, Structural)]
pub enum Decision {
    /// No threshold is configured.
    NoThreshold,
    /// A threshold is configured, but its text is not a number.
    InvalidThreshold,
    /// The price is above the threshold.
    AboveThreshold,
    /// The price is at or below the threshold: an alert is due.
    Notify,
}

/// Whether an alert is due: a threshold is configured, its text is a number,
/// and the price is not above it.
pub open spec fn notification_due(price: i64, threshold: Option<ThresholdView>) -> bool {
    &&& threshold is Some
    &&& threshold->0.cents is Some
    &&& price <= threshold->0.cents->0
}

/// The decision of the policy on `price`.
pub open spec fn decision(price: i64, threshold: Option<ThresholdView>) -> Decision {
    match threshold {
        None => Decision::NoThreshold,
        Some(threshold) => match threshold.cents {
            None => Decision::InvalidThreshold,
            Some(limit) => if price <= limit {
                Decision::Notify
            } else {
                Decision::AboveThreshold
            },
        },
    }
}

/// The value of an optional threshold.
pub open spec fn threshold_view(threshold: Option<Threshold>) -> Option<ThresholdView> {
    match threshold {
        Some(threshold) => Some(threshold@),
        None => None,
    }
}

/// Applies the policy to `price`.
///
/// [`Decision::Notify`] comes back exactly when an alert is due. A
/// threshold that is not a number never makes an alert due and is no failure.
pub fn decide(price: i64, threshold: &Option<Threshold>) -> (outcome: Decision)
    ensures
        outcome == decision(price, threshold_view(*threshold)),
        outcome is Notify <==> notification_due(price, threshold_view(*threshold)),
{
    match threshold {
        None => Decision::NoThreshold,
        Some(threshold) => match threshold.cents {
            None => Decision::InvalidThreshold,
            Some(limit) => if price <= limit {
                Decision::Notify
            } else {
                Decision::AboveThreshold
            },
        },
    }
}

/// The decimal digit for `d`.
pub open spec fn digit(d: int) -> char {
    if d == 0 {
        '0'
    } else if d == 1 {
        '1'
    } else if d == 2 {
        '2'
    } else if d == 3 {
        '3'
    } else if d == 4 {
        '4'
    } else if d == 5 {
        '5'
    } else if d == 6 {
        '6'
    } else if d == 7 {
        '7'
    } else if d == 8 {
        '8'
    } else {
        '9'
    }
}

/// The decimal digits of `n`, without leading zeros.
pub open spec fn decimal(n: nat) -> Seq<char>
    decreases n,
{
    if n < 10 {
        seq![digit(n as int)]
    } else {
        decimal(n / 10).push(digit((n % 10) as int))
    }
}

/// The decimals of a price: none for whole dollars, else one or two digits
/// after a point, without a trailing zero.
pub open spec fn cents_text(cents: int) -> Seq<char> {
    if cents == 0 {
        Seq::empty()
    } else if cents % 10 == 0 {
        seq!['.', digit(cents / 10)]
    } else {
        seq!['.', digit(cents / 10), digit(cents % 10)]
    }
}

/// A price of `cents` hundredths written in dollars, such as `43251.57`,
/// `43251.5` or `50000`.
pub open spec fn price_text(cents: int) -> Seq<char> {
    let magnitude = if cents < 0 {
        -cents
    } else {
        cents
    };
    let sign = if cents < 0 {
        seq!['-']
    } else {
        Seq::<char>::empty()
    };
    sign + decimal((magnitude / 100) as nat) + cents_text(magnitude % 100)
}

/// The text of the alert for `price` cents and the threshold as configured.
pub open spec fn alert_text(price: int, threshold: Seq<char>) -> Seq<char> {
    "BTC quote **$"@ + price_text(price) + "** meets your buy threshold of **$"@ + threshold
        + " USD**.\n_Pull the trigger!_"@
}

/// The text of one decimal digit.
fn digit_text(d: u64) -> (text: &'static str)
    requires
        d < 10,
    ensures
        text@ == seq![digit(d as int)],
{
    proof {
        reveal_strlit("0");
        reveal_strlit("1");
        reveal_strlit("2");
        reveal_strlit("3");
        reveal_strlit("4");
        reveal_strlit("5");
        reveal_strlit("6");
        reveal_strlit("7");
        reveal_strlit("8");
        reveal_strlit("9");
    }
    let text = if d == 0 {
        "0"
    } else if d == 1 {
        "1"
    } else if d == 2 {
        "2"
    } else if d == 3 {
        "3"
    } else if d == 4 {
        "4"
    } else if d == 5 {
        "5"
    } else if d == 6 {
        "6"
    } else if d == 7 {
        "7"
    } else if d == 8 {
        "8"
    } else {
        "9"
    };
    assert(text@ =~= seq![digit(d as int)]);
    text
}

/// Appends the decimal digits of `n` to `out`.
fn push_decimal(out: &mut String, n: u64)
    ensures
        final(out)@ == old(out)@ + decimal(n as nat),
    decreases n,
{
    if n >= 10 {
        push_decimal(out, n / 10);
    }
    out.append(digit_text(n % 10));
    assert(final(out)@ =~= old(out)@ + decimal(n as nat));
}

/// Writes a price of `cents` hundredths in dollars.
pub fn format_price(cents: i64) -> (text: String)
    ensures
        text@ == price_text(cents as int),
{
    let mut text = String::new();
    let magnitude: u64 = if cents < 0 {
        ((-(cents + 1)) as u64) + 1
    } else {
        cents as u64
    };
    if cents < 0 {
        proof {
            reveal_strlit("-");
        }
        text.append("-");
    }
    let ghost sign = text@;
    assert(sign =~= if cents < 0 {
        seq!['-']
    } else {
        Seq::<char>::empty()
    });
    push_decimal(&mut text, magnitude / 100);
    let fraction: u64 = magnitude % 100;
    if fraction != 0 {
        proof {
            reveal_strlit(".");
        }
        text.append(".");
        text.append(digit_text(fraction / 10));
        if fraction % 10 != 0 {
            text.append(digit_text(fraction % 10));
        }
    }
    assert(text@ =~= sign + decimal((magnitude / 100) as nat) + cents_text(fraction as int));
    text
}

/// Composes the alert for `price` cents and the threshold as configured.
pub fn alert_message(price: i64, threshold: &str) -> (message: String)
    ensures
        message@ == alert_text(price as int, threshold@),
{
    let mut message = String::from_str("BTC quote **$");
    let amount = format_price(price);
    message.append(amount.as_str());
    message.append("** meets your buy threshold of **$");
    message.append(threshold);
    message.append(" USD**.\n_Pull the trigger!_");
    message
}

} // verus!
