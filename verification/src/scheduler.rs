//! The per-iteration decision of the polling loop.
//!
//! The loop itself — fetch, evaluate, maybe notify, sleep, repeat forever —
//! performs I/O and runs outside the library. What it does each time around
//! is decided here: a failed fetch aborts the process, a triggered alert adds
//! the cooldown to the normal poll interval, and the outcome of the
//! notification is no input at all, so a failed notification can never change
//! the loop's course.

use vstd::prelude::*;
use crate::config::Config;
use crate::evaluate::evaluate;
use crate::feed::FeedError;
use crate::feed::PriceSample;

verus! {

/// What one iteration of the loop does after the fetch.
#[derive(Debug, PartialEq, Eq, Structural)]
pub enum StepAction {
    /// The fetch failed: the process terminates abnormally with this error.
    Abort(FeedError),
    /// The fetch succeeded and observed this price: notify iff `notify`,
    /// then sleep `sleep_secs` before the next fetch.
    Proceed { notify: bool, observed_cents: u64, sleep_secs: u64 },
}

/// The seconds until the next fetch attempt: the cooldown is added to the
/// poll interval exactly when the alert fired.
pub fn next_delay(cfg: &Config, triggered: bool) -> (d: u64)
    requires
        cfg.wf(),
    ensures
        triggered ==> d == cfg.alert_cooldown_secs + cfg.poll_interval_secs,
        !triggered ==> d == cfg.poll_interval_secs,
{
    if triggered {
        cfg.alert_cooldown_secs + cfg.poll_interval_secs
    } else {
        cfg.poll_interval_secs
    }
}

/// Decides one whole iteration from the outcome of the fetch: any fetch
/// failure aborts, a fetched price below the threshold notifies and sleeps
/// the cooldown plus the poll interval, any other price sleeps the poll
/// interval alone.
pub fn plan_iteration(cfg: &Config, fetched: Result<PriceSample, FeedError>) -> (a: StepAction)
    requires
        cfg.wf(),
    ensures
        a == (match fetched {
            Result::<PriceSample, FeedError>::Err(e) => StepAction::Abort(e),
            Result::<PriceSample, FeedError>::Ok(p) => StepAction::Proceed {
                notify: p.cents < cfg.alert_threshold_cents,
                observed_cents: p.cents,
                sleep_secs: if p.cents < cfg.alert_threshold_cents {
                    (cfg.alert_cooldown_secs + cfg.poll_interval_secs) as u64
                } else {
                    cfg.poll_interval_secs
                },
            },
        }),
{
    match fetched {
        Err(e) => StepAction::Abort(e),
        Ok(p) => {
            let decision = evaluate(p.cents, cfg.alert_threshold_cents);
            let sleep_secs = next_delay(cfg, decision.triggered);
            StepAction::Proceed {
                notify: decision.triggered,
                observed_cents: decision.observed_cents,
                sleep_secs,
            }
        },
    }
}

} // verus!
