//! Building the webhook notification for a triggered alert, and judging the
//! endpoint's answer.
//!
//! The payload is built here field by field, with every fixed string and both
//! formatted amounts pinned down; serializing it and posting it are I/O and
//! live outside the library.

use vstd::prelude::*;
use crate::digits::currency_text;
use crate::digits::spec_currency;

verus! {

/// The red used for the embed of a price-drop alert.
pub const ALERT_COLOR: u32 = 16711680;

/// One labeled line of the notification detail block.
pub struct DiscordEmbedField {
    pub name: String,
    pub value: String,
    pub inline: bool,
}

/// The fixed bot-identity label under the detail block.
pub struct DiscordEmbedFooter {
    pub text: String,
}

/// The detail block of a notification.
pub struct DiscordEmbed {
    pub title: String,
    pub description: String,
    pub color: u32,
    pub fields: Vec<DiscordEmbedField>,
    pub footer: Option<DiscordEmbedFooter>,
    pub timestamp: Option<String>,
}

/// The whole notification: an alert text and one detail block.
pub struct DiscordWebhookPayload {
    pub content: String,
    pub embeds: Vec<DiscordEmbed>,
}

/// What the notification for a price drop must hold, apart from its
/// timestamp: the fixed alert text, one red embed with the fixed title,
/// description and footer, and two inline fields carrying the observed price
/// and the threshold as currency strings.
pub open spec fn is_alert_payload(
    p: DiscordWebhookPayload,
    threshold_cents: u64,
    price_cents: u64,
) -> bool {
    &&& p.content@ == "@here ⚠️ BTC Price Alert"@
    &&& p.embeds@.len() == 1
    &&& p.embeds@[0].title@ == "Bitcoin Price Drop"@
    &&& p.embeds@[0].description@ == "The price of BTC has dropped below your threshold!"@
    &&& p.embeds@[0].color == ALERT_COLOR
    &&& p.embeds@[0].fields@.len() == 2
    &&& p.embeds@[0].fields@[0].name@ == "Current Price"@
    &&& p.embeds@[0].fields@[0].value@ == spec_currency(price_cents as nat)
    &&& p.embeds@[0].fields@[0].inline
    &&& p.embeds@[0].fields@[1].name@ == "Threshold"@
    &&& p.embeds@[0].fields@[1].value@ == spec_currency(threshold_cents as nat)
    &&& p.embeds@[0].fields@[1].inline
    &&& p.embeds@[0].footer matches Some(f) && f.text@ == "BTC Alert Bot"@
}

/// Builds the notification for a price drop, stamped with the given instant.
pub fn build_alert_payload(threshold_cents: u64, price_cents: u64, timestamp: String) -> (p:
    DiscordWebhookPayload)
    ensures
        is_alert_payload(p, threshold_cents, price_cents),
        p.embeds@[0].timestamp matches Some(t) && t@ == timestamp@,
{
    let price_text = currency_text(price_cents);
    let threshold_text = currency_text(threshold_cents);
    let mut fields: Vec<DiscordEmbedField> = Vec::new();
    fields.push(
        DiscordEmbedField { name: "Current Price".to_owned(), value: price_text, inline: true },
    );
    fields.push(
        DiscordEmbedField { name: "Threshold".to_owned(), value: threshold_text, inline: true },
    );
    let embed = DiscordEmbed {
        title: "Bitcoin Price Drop".to_owned(),
        description: "The price of BTC has dropped below your threshold!".to_owned(),
        color: ALERT_COLOR,
        fields,
        footer: Some(DiscordEmbedFooter { text: "BTC Alert Bot".to_owned() }),
        timestamp: Some(timestamp),
    };
    let mut embeds: Vec<DiscordEmbed> = Vec::new();
    embeds.push(embed);
    DiscordWebhookPayload { content: "@here ⚠️ BTC Price Alert".to_owned(), embeds }
}

/// Relies on `chrono::Utc::now` and `chrono::DateTime::to_rfc3339`: the
/// current instant rendered in RFC 3339 form with its UTC offset. The result
/// depends on the clock, so nothing is stated of it.
#[verifier::external_body]
fn now_rfc3339() -> String {
    chrono::Utc::now().to_rfc3339()
}

/// Builds the notification for a price drop, stamped with the present moment.
pub fn alert_payload_now(threshold_cents: u64, price_cents: u64) -> (p: DiscordWebhookPayload)
    ensures
        is_alert_payload(p, threshold_cents, price_cents),
        p.embeds@[0].timestamp is Some,
{
    let timestamp = now_rfc3339();
    build_alert_payload(threshold_cents, price_cents, timestamp)
}

/// Why a notification did not get through. The failure is reported and
/// swallowed: it never stops the polling loop.
#[derive(Clone, Copy, Debug, PartialEq, Eq, Structural)]
pub enum NotifyError {
    /// The request never completed.
    Network,
    /// The endpoint answered with this non-success status.
    BadStatus(u16),
}

/// Judges the outcome of posting a notification: no response at all is a
/// network failure, and an answer is a success exactly when its status is in
/// the 2xx range, the range reqwest's `StatusCode::is_success` accepts.
pub fn classify_post_outcome(status: Option<u16>) -> (r: Result<(), NotifyError>)
    ensures
        r == (match status {
            Option::<u16>::None => Result::<(), NotifyError>::Err(NotifyError::Network),
            Option::<u16>::Some(s) => if 200 <= s < 300 {
                Result::<(), NotifyError>::Ok(())
            } else {
                Result::<(), NotifyError>::Err(NotifyError::BadStatus(s))
            },
        }),
{
    match status {
        None => Err(NotifyError::Network),
        Some(s) => {
            if 200 <= s && s < 300 {
                Ok(())
            } else {
                Err(NotifyError::BadStatus(s))
            }
        },
    }
}

} // verus!
