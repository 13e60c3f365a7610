//! Reading one price out of the ticker feed's response body.
//!
//! The feed answers with a JSON object of currency entries, each holding a
//! numeric "buy" field. Decoding the body is delegated to the `json` crate;
//! everything after the extracted number is verified.

use vstd::prelude::*;

verus! {

/// The currency entry read from the feed.
pub const FEED_CURRENCY: &'static str = "EUR";

/// One fetched price, in cents. Non-negative by construction: the extraction
/// yields no value for a negative number.
#[derive(Clone, Copy, Debug)]
pub struct PriceSample {
    pub cents: u64,
}

/// Why no price came out of a poll cycle.
#[derive(Clone, Copy, Debug, PartialEq, Eq, Structural)]
pub enum FeedError {
    /// The network request could not complete.
    Fetch,
    /// The response body is not well-formed or the expected field is absent.
    Parse,
}

/// The number that the feed body holds under `currency` -> "buy", in
/// hundredths, when the body is well-formed JSON and that member is a
/// non-negative number; nothing otherwise.
pub uninterp spec fn ticker_buy_cents(body: Seq<char>, currency: Seq<char>) -> Option<u64>;

/// Relies on `json::parse` and on `json::JsonValue::remove` and
/// `json::JsonValue::as_fixed_point_u64`: decodes the body as JSON, walks to
/// the member `currency` -> "buy" and reads it as a non-negative number with
/// two decimal places. Each step yields nothing on a missing member, a
/// non-number, a negative number or a malformed body, and the outcome is a
/// function of the two strings alone.
#[verifier::external_body]
fn extract_buy_cents(body: &str, currency: &str) -> (r: Option<u64>)
    ensures
        r == ticker_buy_cents(body@, currency@),
{
    match json::parse(body) {
        Ok(mut root) => {
            let mut entry = root.remove(currency);
            entry.remove("buy").as_fixed_point_u64(2)
        },
        Err(_) => None,
    }
}

/// Turns the outcome of the extraction into a price sample: any extracted
/// number is a valid sample, and a missing one is exactly a parse failure.
pub fn price_from_extracted(extracted: Option<u64>) -> (r: Result<PriceSample, FeedError>)
    ensures
        extracted matches Some(c) ==> r matches Ok(p) && p.cents == c,
        extracted is None ==> r == Result::<PriceSample, FeedError>::Err(FeedError::Parse),
{
    match extracted {
        Some(c) => Ok(PriceSample { cents: c }),
        None => Err(FeedError::Parse),
    }
}

/// Reads the price for `currency` out of a feed response body: the sample
/// holds exactly the feed's "buy" number for that currency, and a body that
/// does not carry one is a parse failure — never any other error.
pub fn price_from_body(body: &str, currency: &str) -> (r: Result<PriceSample, FeedError>)
    ensures
        ticker_buy_cents(body@, currency@) matches Some(c) ==> r matches Ok(p) && p.cents == c,
        ticker_buy_cents(body@, currency@) is None ==> r == Result::<
            PriceSample,
            FeedError,
        >::Err(FeedError::Parse),
{
    price_from_extracted(extract_buy_cents(body, currency))
}

} // verus!
