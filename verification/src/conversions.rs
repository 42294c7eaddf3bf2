//! Conversions of values read from devices: text to numbers, SNMP
//! TimeTicks to an uptime.

use vstd::prelude::*;
use crate::text::{nat_decimal, parse_i64, parse_i64_spec, push_decimal, push_str, trim, trim_spec};

verus! {

/// The number a text holds once trimmed, or 0 when it holds none.
pub open spec fn safe_int_spec(s: Seq<char>) -> i64 {
    match parse_i64_spec(trim_spec(s)) {
        Some(v) => v,
        None => 0,
    }
}

/// The number a text holds once trimmed, or 0 when it holds none.
pub fn safe_int(value: &str) -> (r: i64)
    ensures
        r == safe_int_spec(value@),
{
    let t = trim(value);
    match parse_i64(t.as_str()) {
        Some(v) => v,
        None => 0,
    }
}

/// An uptime split into days, hours, minutes and seconds.
#[derive(Debug, Clone)]
pub struct Uptime {
    pub days: u64,
    pub hours: u64,
    pub minutes: u64,
    pub seconds: u64,
    pub total_seconds: u64,
    /// `{days}d {hours}h {minutes}m {seconds}s`.
    pub human: String,
}

/// The text form of an uptime.
pub open spec fn uptime_human(days: u64, hours: u64, minutes: u64, seconds: u64) -> Seq<char> {
    nat_decimal(days as nat) + "d "@ + nat_decimal(hours as nat) + "h "@ + nat_decimal(minutes as nat) + "m "@
        + nat_decimal(seconds as nat) + "s"@
}

/// An uptime from SNMP TimeTicks (hundredths of a second); the fraction of a
/// second is dropped.
pub fn format_uptime(centiseconds: u64) -> (r: Uptime)
    ensures
        r.total_seconds == centiseconds / 100,
        r.days == r.total_seconds / 86400,
        r.hours == (r.total_seconds % 86400) / 3600,
        r.minutes == (r.total_seconds % 3600) / 60,
        r.seconds == r.total_seconds % 60,
        r.human@ == uptime_human(r.days, r.hours, r.minutes, r.seconds),
{
    let total_seconds = centiseconds / 100;
    let days = total_seconds / 86400;
    let hours = (total_seconds % 86400) / 3600;
    let minutes = (total_seconds % 3600) / 60;
    let seconds = total_seconds % 60;
    let mut human = String::new();
    push_decimal(&mut human, days);
    push_str(&mut human, "d ");
    push_decimal(&mut human, hours);
    push_str(&mut human, "h ");
    push_decimal(&mut human, minutes);
    push_str(&mut human, "m ");
    push_decimal(&mut human, seconds);
    push_str(&mut human, "s");
    assert(human@ =~= uptime_human(days, hours, minutes, seconds));
    Uptime { days, hours, minutes, seconds, total_seconds, human }
}

/// An uptime adds back up to its total.
pub proof fn lemma_uptime_parts(total: u64)
    ensures
        (total / 86400) * 86400 + ((total % 86400) / 3600) * 3600 + ((total % 3600) / 60) * 60 + total % 60
            == total,
{
    assert((total / 86400) * 86400 + ((total % 86400) / 3600) * 3600 + ((total % 3600) / 60) * 60 + total % 60
        == total) by (nonlinear_arith);
}

} // verus!
