//! Threshold evaluation: the one decision rule of the bot.

use vstd::prelude::*;

verus! {

/// The outcome of comparing one fetched price against the alert threshold.
/// `observed_cents` carries the price back to the caller so it can be
/// reported whether or not the alert fired.
pub struct AlertDecision {
    pub triggered: bool,
    pub observed_cents: u64,
}

/// Decides whether an alert fires: strictly below the threshold triggers,
/// equal to the threshold does not. Both amounts are in cents.
pub fn evaluate(price_cents: u64, threshold_cents: u64) -> (d: AlertDecision)
    ensures
        d.triggered <==> price_cents < threshold_cents,
        d.observed_cents == price_cents,
{
    AlertDecision { triggered: price_cents < threshold_cents, observed_cents: price_cents }
}

} // verus!
