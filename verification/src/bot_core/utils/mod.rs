//! Formatting of durations, ages and errors for messages.
pub mod logger;

use crate::text::{concat2, decimal, push_wide_decimal, signed_decimal, push_signed_decimal};
use vstd::prelude::*;

verus! {

/// "s" unless the count is exactly one.
pub open spec fn plural(n: nat) -> Seq<char> {
    if n == 1 {
        seq![]
    } else {
        seq!['s']
    }
}

/// A duration given in nanoseconds, in whole seconds, minutes or hours:
/// under a minute as seconds, under an hour as minutes, else as hours, each
/// with the unit in the singular for exactly one.
pub open spec fn duration_text(nanos: u128) -> Seq<char> {
    let secs = nanos / 1_000_000_000;
    if secs < 60 {
        decimal(secs as nat) + " second"@ + plural(secs as nat)
    } else if secs < 3600 {
        decimal((secs / 60) as nat) + " minute"@ + plural((secs / 60) as nat)
    } else {
        decimal((secs / 3600) as nat) + " hour"@ + plural((secs / 3600) as nat)
    }
}

fn push_unit(out: &mut String, n: u128, unit: &str)
    ensures
        final(out)@ == old(out)@ + decimal(n as nat) + unit@ + plural(n as nat),
{
    push_wide_decimal(out, n);
    out.append(unit);
    if n != 1 {
        out.push('s');
    }
    assert(final(out)@ =~= old(out)@ + decimal(n as nat) + unit@ + plural(n as nat));
}

/// `duration_nanos` as "N second(s)", "N minute(s)" or "N hour(s)". A
/// `u128` of nanoseconds holds every `std::time::Duration` exactly.
pub fn format_duration(duration_nanos: u128) -> (r: String)
    ensures
        r@ == duration_text(duration_nanos),
{
    let secs = duration_nanos / 1_000_000_000;
    let mut r = String::new();
    if secs < 60 {
        push_unit(&mut r, secs, " second");
    } else if secs < 3600 {
        push_unit(&mut r, secs / 60, " minute");
    } else {
        push_unit(&mut r, secs / 3600, " hour");
    }
    assert(r@ =~= duration_text(duration_nanos));
    r
}

/// An error, as shown to users: "Error: " and its message.
pub fn format_error(message: &str) -> (r: String)
    ensures
        r@ == "Error: "@ + message@,
{
    concat2("Error: ", message)
}

/// `a / b` rounded toward zero.
pub open spec fn div_toward_zero(a: int, b: int) -> int {
    if a >= 0 {
        a / b
    } else {
        -((-a) / b)
    }
}

/// How long ago something happened, given the milliseconds since then
/// (negative for the future): in seconds under a minute, then minutes, hours,
/// days, months of 30 days under a year of 365 days, then years. Each count
/// is rounded toward zero.
pub open spec fn time_ago_text(elapsed_ms: int) -> Seq<char> {
    let s = div_toward_zero(elapsed_ms, 1000);
    let m = div_toward_zero(s, 60);
    let h = div_toward_zero(s, 3600);
    let d = div_toward_zero(s, 86400);
    if s < 60 {
        signed_decimal(s) + " seconds ago"@
    } else if m < 60 {
        signed_decimal(m) + " minutes ago"@
    } else if h < 24 {
        signed_decimal(h) + " hours ago"@
    } else if d < 30 {
        signed_decimal(d) + " days ago"@
    } else if d < 365 {
        signed_decimal(d / 30) + " months ago"@
    } else {
        signed_decimal(d / 365) + " years ago"@
    }
}

/// The age of something `elapsed_ms` milliseconds old, as "N seconds ago",
/// "N minutes ago", ... "N years ago".
pub fn format_elapsed(elapsed_ms: i64) -> (r: String)
    ensures
        r@ == time_ago_text(elapsed_ms as int),
{
    let mut r = String::new();
    if elapsed_ms < 0 {
        let s: i64 = if elapsed_ms == i64::MIN {
            -9223372036854775
        } else {
            -((-elapsed_ms) / 1000)
        };
        push_signed_decimal(&mut r, s);
        r.append(" seconds ago");
        assert(r@ =~= time_ago_text(elapsed_ms as int));
        return r;
    }
    let s = elapsed_ms / 1000;
    if s < 60 {
        push_signed_decimal(&mut r, s);
        r.append(" seconds ago");
    } else if s / 60 < 60 {
        push_signed_decimal(&mut r, s / 60);
        r.append(" minutes ago");
    } else if s / 3600 < 24 {
        push_signed_decimal(&mut r, s / 3600);
        r.append(" hours ago");
    } else if s / 86400 < 30 {
        push_signed_decimal(&mut r, s / 86400);
        r.append(" days ago");
    } else if s / 86400 < 365 {
        push_signed_decimal(&mut r, s / 86400 / 30);
        r.append(" months ago");
    } else {
        push_signed_decimal(&mut r, s / 86400 / 365);
        r.append(" years ago");
    }
    assert(r@ =~= time_ago_text(elapsed_ms as int));
    r
}

/// The current time in milliseconds since the Unix epoch, read from the
/// clock through `chrono::Utc::now()` and `timestamp_millis`; nothing is
/// claimed of the value, which depends on the moment of the call.
#[verifier::external_body]
fn now_millis() -> (r: i64) {
    chrono::Utc::now().timestamp_millis()
}

/// How long ago the moment `dt_millis` (milliseconds since the Unix epoch)
/// was, as text; the current time is read from the clock.
pub fn format_time_ago(dt_millis: i64) -> (r: String)
    ensures
        exists|now: i64| r@ == time_ago_text(elapsed_between(dt_millis, now) as int),
{
    let now = now_millis();
    let elapsed = elapsed_millis(dt_millis, now);
    format_elapsed(elapsed)
}

/// `now - then`, kept within the range of `i64`.
pub open spec fn elapsed_between(then: i64, now: i64) -> i64 {
    let d = now - then;
    if d > i64::MAX {
        i64::MAX
    } else if d < i64::MIN {
        i64::MIN
    } else {
        d as i64
    }
}

/// The milliseconds from `then` to `now`, kept within the range of `i64`.
pub fn elapsed_millis(then: i64, now: i64) -> (r: i64)
    ensures
        r == elapsed_between(then, now),
{
    let d = now as i128 - then as i128;
    if d > i64::MAX as i128 {
        i64::MAX
    } else if d < i64::MIN as i128 {
        i64::MIN
    } else {
        d as i64
    }
}

} // verus!
