//! Configuration loading and the verified text-to-number parsers it rests on.
//!
//! The raw values arrive as the optional strings of the process environment;
//! turning them into validated numbers is pure logic and is proved here. The
//! threshold is a decimal amount with at most two fractional digits, held in
//! cents; the two durations are whole seconds.

use vstd::prelude::*;

verus! {

/// Threshold applied when `ALERT_PRICE` is absent: 70000 whole units.
pub const DEFAULT_ALERT_PRICE_CENTS: u64 = 7000000;

/// Poll interval applied when `CHECK_TIME` is absent: fifteen minutes.
pub const DEFAULT_CHECK_TIME_SECS: u64 = 900;

/// Cooldown applied when `ALERT_TIMEOUT` is absent: one day.
pub const DEFAULT_ALERT_TIMEOUT_SECS: u64 = 86400;

/// A decimal digit character.
pub open spec fn is_digit(c: char) -> bool {
    48 <= c as int && c as int <= 57
}

/// The numeric value of a decimal digit character (0 for anything else).
pub open spec fn digit_val(c: char) -> nat {
    if is_digit(c) {
        (c as int - 48) as nat
    } else {
        0
    }
}

/// Every character of `s` is a decimal digit.
pub open spec fn all_digits(s: Seq<char>) -> bool {
    forall|i: int| 0 <= i < s.len() ==> is_digit(#[trigger] s[i])
}

/// The value of a digit string read as a base-10 numeral.
pub open spec fn dec_value(s: Seq<char>) -> nat
    decreases s.len(),
{
    if s.len() == 0 {
        0
    } else {
        dec_value(s.drop_last()) * 10 + digit_val(s.last())
    }
}

proof fn lemma_dec_value_step(s: Seq<char>, i: int)
    requires
        0 <= i < s.len(),
    ensures
        dec_value(s.take(i + 1)) == dec_value(s.take(i)) * 10 + digit_val(s[i]),
{
    assert(s.take(i + 1).drop_last() =~= s.take(i));
    assert(s.take(i + 1).last() == s[i]);
}

proof fn lemma_dec_value_mono(s: Seq<char>, i: int)
    requires
        0 <= i <= s.len(),
    ensures
        dec_value(s.take(i)) <= dec_value(s),
    decreases s.len() - i,
{
    if i == s.len() {
        assert(s.take(i) =~= s);
    } else {
        lemma_dec_value_step(s, i);
        lemma_dec_value_mono(s, i + 1);
    }
}

/// Parses a whole number of seconds: the string must be one or more decimal
/// digits whose value fits in `u64`.
pub fn parse_u64(s: &str) -> (r: Option<u64>)
    ensures
        r is Some <==> s@.len() > 0 && all_digits(s@) && dec_value(s@) <= u64::MAX,
        r matches Some(v) ==> v == dec_value(s@),
{
    let n = s.unicode_len();
    if n == 0 {
        return None;
    }
    let mut acc: u64 = 0;
    let mut i: usize = 0;
    while i < n
        invariant
            n == s@.len(),
            i <= n,
            forall|j: int| 0 <= j < i ==> is_digit(#[trigger] s@[j]),
            acc == dec_value(s@.take(i as int)),
        decreases n - i,
    {
        let c = s.get_char(i);
        let code = c as u32;
        if code < 48 || code > 57 {
            return None;
        }
        let d: u64 = (code - 48) as u64;
        proof {
            lemma_dec_value_step(s@, i as int);
        }
        let wide: u128 = (acc as u128) * 10 + (d as u128);
        if wide > u64::MAX as u128 {
            proof {
                lemma_dec_value_mono(s@, i as int + 1);
            }
            return None;
        }
        acc = wide as u64;
        i = i + 1;
    }
    proof {
        assert(s@.take(n as int) =~= s@);
    }
    Some(acc)
}

/// `p` is the position of the first dot of `s`.
pub open spec fn is_dot_split(s: Seq<char>, p: int) -> bool {
    &&& 0 <= p < s.len()
    &&& s[p] == '.'
    &&& forall|j: int| 0 <= j < p ==> s[j] != '.'
}

/// `s` contains a dot.
pub open spec fn has_dot(s: Seq<char>) -> bool {
    exists|p: int| is_dot_split(s, p)
}

/// The position of the first dot of `s`, or -1 when there is none.
pub open spec fn first_dot(s: Seq<char>) -> int {
    if has_dot(s) {
        choose|p: int| is_dot_split(s, p)
    } else {
        -1
    }
}

proof fn lemma_first_dot_is(s: Seq<char>, p: int)
    requires
        is_dot_split(s, p),
    ensures
        has_dot(s),
        first_dot(s) == p,
{
    assert(has_dot(s));
    let q = choose|q: int| is_dot_split(s, q);
    if q < p {
        assert(s[q] != '.');
    } else if p < q {
        assert(s[p] != '.');
    }
}

/// The digits before the first dot (the whole string when there is no dot).
pub open spec fn whole_part(s: Seq<char>) -> Seq<char> {
    if has_dot(s) {
        s.take(first_dot(s))
    } else {
        s
    }
}

/// The characters after the first dot (empty when there is no dot).
pub open spec fn frac_part(s: Seq<char>) -> Seq<char> {
    if has_dot(s) {
        s.skip(first_dot(s) + 1)
    } else {
        Seq::empty()
    }
}

/// A decimal amount: one or more digits, optionally followed by a dot and one
/// or two fractional digits.
pub open spec fn valid_amount_text(s: Seq<char>) -> bool {
    &&& whole_part(s).len() > 0
    &&& all_digits(whole_part(s))
    &&& all_digits(frac_part(s))
    &&& (!has_dot(s) || 1 <= frac_part(s).len() <= 2)
}

/// The cents contributed by the fractional digits: one digit counts as tens
/// of cents, two digits as tens plus units.
pub open spec fn frac_cents(f: Seq<char>) -> nat {
    if f.len() == 0 {
        0
    } else if f.len() == 1 {
        digit_val(f[0]) * 10
    } else {
        digit_val(f[0]) * 10 + digit_val(f[1])
    }
}

/// The value of a decimal amount string in cents.
pub open spec fn amount_cents(s: Seq<char>) -> nat {
    dec_value(whole_part(s)) * 100 + frac_cents(frac_part(s))
}

/// Parses a decimal amount (e.g. `70000` or `69999.5`) into cents.
pub fn parse_cents(s: &str) -> (r: Option<u64>)
    ensures
        r is Some <==> valid_amount_text(s@) && amount_cents(s@) <= u64::MAX,
        r matches Some(v) ==> v == amount_cents(s@),
{
    let n = s.unicode_len();
    let mut i: usize = 0;
    while i < n && s.get_char(i) != '.'
        invariant
            n == s@.len(),
            i <= n,
            forall|j: int| 0 <= j < i ==> s@[j] != '.',
        decreases n - i,
    {
        i = i + 1;
    }
    if i == n {
        // no dot: the whole string is the whole part
        proof {
            assert(!has_dot(s@)) by {
                if has_dot(s@) {
                    let p = choose|p: int| is_dot_split(s@, p);
                    assert(s@[p] == '.');
                }
            }
        }
        let w = match parse_u64(s) {
            Some(w) => w,
            None => {
                return None;
            },
        };
        let wide: u128 = (w as u128) * 100;
        if wide > u64::MAX as u128 {
            return None;
        }
        Some(wide as u64)
    } else {
        proof {
            lemma_first_dot_is(s@, i as int);
        }
        let whole = s.substring_char(0, i);
        proof {
            assert(whole@ =~= whole_part(s@));
        }
        let fl = n - (i + 1);
        if fl < 1 || fl > 2 {
            proof {
                assert(frac_part(s@).len() == fl);
            }
            return None;
        }
        let c0 = s.get_char(i + 1);
        let code0 = c0 as u32;
        proof {
            assert(frac_part(s@)[0] == s@[i + 1]);
        }
        if code0 < 48 || code0 > 57 {
            return None;
        }
        let d0: u64 = (code0 - 48) as u64;
        let mut fv: u64 = d0 * 10;
        if fl == 2 {
            let c1 = s.get_char(i + 2);
            let code1 = c1 as u32;
            proof {
                assert(frac_part(s@)[1] == s@[i + 2]);
            }
            if code1 < 48 || code1 > 57 {
                return None;
            }
            fv = fv + (code1 - 48) as u64;
        }
        proof {
            assert(all_digits(frac_part(s@))) by {
                assert(forall|k: int|
                    0 <= k < frac_part(s@).len() ==> #[trigger] frac_part(s@)[k] == s@[i + 1 + k]);
            }
            assert(fv == frac_cents(frac_part(s@)));
        }
        let w = match parse_u64(whole) {
            Some(w) => w,
            None => {
                return None;
            },
        };
        let wide: u128 = (w as u128) * 100 + (fv as u128);
        if wide > u64::MAX as u128 {
            return None;
        }
        Some(wide as u64)
    }
}

/// Why loading the configuration failed.
#[derive(Clone, Copy, Debug, PartialEq, Eq, Structural)]
pub enum ConfigError {
    /// `ALERT_PRICE` is present but not a positive decimal amount in range.
    BadAlertPrice,
    /// `CHECK_TIME` is present but not a positive whole number of seconds.
    BadCheckTime,
    /// `ALERT_TIMEOUT` is present but not a positive whole number of seconds.
    BadAlertTimeout,
    /// `WEBHOOK` is absent.
    MissingWebhook,
    /// `WEBHOOK` is present but empty.
    EmptyWebhook,
    /// Cooldown plus poll interval does not fit in a `u64` of seconds.
    SleepTooLong,
}

/// The immutable runtime settings, loaded once at startup.
#[derive(Debug)]
pub struct Config {
    /// Alert threshold in cents: the alert fires strictly below it.
    pub alert_threshold_cents: u64,
    /// Seconds slept after every check.
    pub poll_interval_secs: u64,
    /// Extra seconds slept after an alert has fired.
    pub alert_cooldown_secs: u64,
    /// Where the notification is posted.
    pub webhook_endpoint: String,
}

/// The threshold a given `ALERT_PRICE` value yields, if any: the default when
/// absent, else a positive in-range decimal amount.
pub open spec fn spec_threshold(v: Option<String>) -> Option<nat> {
    match v {
        None => Some(DEFAULT_ALERT_PRICE_CENTS as nat),
        Some(s) => if valid_amount_text(s@) && 0 < amount_cents(s@) <= u64::MAX {
            Some(amount_cents(s@))
        } else {
            None
        },
    }
}

/// The seconds a given duration value yields, if any: `default` when absent,
/// else a positive in-range whole number.
pub open spec fn spec_duration(v: Option<String>, default: u64) -> Option<nat> {
    match v {
        None => Some(default as nat),
        Some(s) => if s@.len() > 0 && all_digits(s@) && 0 < dec_value(s@) <= u64::MAX {
            Some(dec_value(s@))
        } else {
            None
        },
    }
}

impl Config {
    /// Every loaded configuration satisfies this: positive threshold and
    /// durations, a non-empty endpoint, and a combined sleep that fits.
    pub open spec fn wf(self) -> bool {
        &&& self.alert_threshold_cents > 0
        &&& self.poll_interval_secs > 0
        &&& self.alert_cooldown_secs > 0
        &&& self.webhook_endpoint@.len() > 0
        &&& self.alert_cooldown_secs + self.poll_interval_secs <= u64::MAX
    }

    /// Builds the configuration from the four raw environment values,
    /// applying the documented defaults where a value is absent. Loading
    /// fails on the first bad value, in the order threshold, poll interval,
    /// cooldown, endpoint.
    pub fn load(
        alert_price: Option<String>,
        check_time: Option<String>,
        alert_timeout: Option<String>,
        webhook: Option<String>,
    ) -> (r: Result<Config, ConfigError>)
        ensures
            r is Ok <==> {
                &&& spec_threshold(alert_price) is Some
                &&& spec_duration(check_time, DEFAULT_CHECK_TIME_SECS) is Some
                &&& spec_duration(alert_timeout, DEFAULT_ALERT_TIMEOUT_SECS) is Some
                &&& webhook matches Some(w) && w@.len() > 0
                &&& spec_duration(alert_timeout, DEFAULT_ALERT_TIMEOUT_SECS)->0 + spec_duration(
                    check_time,
                    DEFAULT_CHECK_TIME_SECS,
                )->0 <= u64::MAX
            },
            r matches Ok(c) ==> {
                &&& c.alert_threshold_cents == spec_threshold(alert_price)->0
                &&& c.poll_interval_secs == spec_duration(check_time, DEFAULT_CHECK_TIME_SECS)->0
                &&& c.alert_cooldown_secs == spec_duration(
                    alert_timeout,
                    DEFAULT_ALERT_TIMEOUT_SECS,
                )->0
                &&& webhook matches Some(w) && c.webhook_endpoint == w
                &&& c.wf()
            },
            r matches Err(e) ==> e == (if spec_threshold(alert_price) is None {
                ConfigError::BadAlertPrice
            } else if spec_duration(check_time, DEFAULT_CHECK_TIME_SECS) is None {
                ConfigError::BadCheckTime
            } else if spec_duration(alert_timeout, DEFAULT_ALERT_TIMEOUT_SECS) is None {
                ConfigError::BadAlertTimeout
            } else if webhook is None {
                ConfigError::MissingWebhook
            } else if webhook matches Some(w) && w@.len() == 0 {
                ConfigError::EmptyWebhook
            } else {
                ConfigError::SleepTooLong
            }),
    {
        let threshold: u64 = match alert_price {
            None => DEFAULT_ALERT_PRICE_CENTS,
            Some(s) => match parse_cents(s.as_str()) {
                Some(v) if v > 0 => v,
                _ => {
                    return Err(ConfigError::BadAlertPrice);
                },
            },
        };
        let interval: u64 = match check_time {
            None => DEFAULT_CHECK_TIME_SECS,
            Some(s) => match parse_u64(s.as_str()) {
                Some(v) if v > 0 => v,
                _ => {
                    return Err(ConfigError::BadCheckTime);
                },
            },
        };
        let cooldown: u64 = match alert_timeout {
            None => DEFAULT_ALERT_TIMEOUT_SECS,
            Some(s) => match parse_u64(s.as_str()) {
                Some(v) if v > 0 => v,
                _ => {
                    return Err(ConfigError::BadAlertTimeout);
                },
            },
        };
        let endpoint: String = match webhook {
            None => {
                return Err(ConfigError::MissingWebhook);
            },
            Some(w) => {
                if w.as_str().unicode_len() == 0 {
                    return Err(ConfigError::EmptyWebhook);
                }
                w
            },
        };
        if cooldown > u64::MAX - interval {
            return Err(ConfigError::SleepTooLong);
        }
        Ok(
            Config {
                alert_threshold_cents: threshold,
                poll_interval_secs: interval,
                alert_cooldown_secs: cooldown,
                webhook_endpoint: endpoint,
            },
        )
    }
}

} // verus!
