//! Human-readable durations for progress displays ("30s", "1m 30s", "1h 15m").

use vstd::prelude::*;
use core::time::Duration;
use crate::numeric::{decimal, is_digit, lemma_decimal_digits, push_decimal, chars_of};
use crate::text::{push_all, string_from_chars, seq_ends_with};

verus! {

/// Names what `Duration::as_secs` returns for `d`: the whole seconds it holds.
pub uninterp spec fn whole_seconds(d: Duration) -> u64;

/// Calls `Duration::as_secs`; the result is the named value `whole_seconds(d)`.
#[verifier::external_body]
fn duration_as_secs(d: Duration) -> (r: u64)
    ensures
        r == whole_seconds(d),
{
    d.as_secs()
}

/// The text for a duration of `secs` whole seconds: seconds below a minute,
/// minutes and seconds below an hour, and hours and minutes above; a zero
/// second or minute part is left out.
pub open spec fn duration_text(secs: nat) -> Seq<char> {
    if secs < 60 {
        decimal(secs) + "s"@
    } else if secs < 3600 {
        let minutes = secs / 60;
        let seconds = secs % 60;
        if seconds > 0 {
            decimal(minutes) + "m "@ + decimal(seconds) + "s"@
        } else {
            decimal(minutes) + "m"@
        }
    } else {
        let hours = secs / 3600;
        let minutes = (secs % 3600) / 60;
        if minutes > 0 {
            decimal(hours) + "h "@ + decimal(minutes) + "m"@
        } else {
            decimal(hours) + "h"@
        }
    }
}

fn two_parts(a: u64, unit_a: &str, b: u64, unit_b: &str) -> (r: String)
    ensures
        r@ == decimal(a as nat) + unit_a@ + decimal(b as nat) + unit_b@,
{
    let mut out: Vec<char> = Vec::new();
    push_decimal(&mut out, a);
    push_all(&mut out, &chars_of(unit_a));
    push_decimal(&mut out, b);
    push_all(&mut out, &chars_of(unit_b));
    assert(out@ =~= decimal(a as nat) + unit_a@ + decimal(b as nat) + unit_b@);
    string_from_chars(out)
}

fn one_part(a: u64, unit_a: &str) -> (r: String)
    ensures
        r@ == decimal(a as nat) + unit_a@,
{
    let mut out: Vec<char> = Vec::new();
    push_decimal(&mut out, a);
    push_all(&mut out, &chars_of(unit_a));
    assert(out@ =~= decimal(a as nat) + unit_a@);
    string_from_chars(out)
}

/// The text for a duration of `secs` whole seconds.
pub fn format_duration_secs(secs: u64) -> (r: String)
    ensures
        r@ == duration_text(secs as nat),
{
    if secs < 60 {
        one_part(secs, "s")
    } else if secs < 3600 {
        let minutes = secs / 60;
        let seconds = secs % 60;
        if seconds > 0 {
            two_parts(minutes, "m ", seconds, "s")
        } else {
            one_part(minutes, "m")
        }
    } else {
        let hours = secs / 3600;
        let minutes = (secs % 3600) / 60;
        if minutes > 0 {
            two_parts(hours, "h ", minutes, "m")
        } else {
            one_part(hours, "h")
        }
    }
}

/// The text for `duration`, by its whole seconds.
pub fn format_duration(duration: Duration) -> (r: String)
    ensures
        r@ == duration_text(whole_seconds(duration) as nat),
{
    format_duration_secs(duration_as_secs(duration))
}

/// A duration under a minute is written in seconds: its text ends with `s`.
pub proof fn law_short_duration_in_seconds(secs: nat)
    requires
        secs < 60,
    ensures
        seq_ends_with(duration_text(secs), "s"@),
{
    reveal_strlit("s");
    let t = duration_text(secs);
    assert(t.skip(t.len() - 1) =~= "s"@);
}

/// Two decimal numbers, each followed by a text starting with a non-digit,
/// read the same only when the numbers and the texts are the same.
proof fn lemma_decimal_prefix(a: nat, x: Seq<char>, b: nat, y: Seq<char>)
    requires
        x.len() > 0,
        y.len() > 0,
        !is_digit(x[0]),
        !is_digit(y[0]),
        decimal(a) + x == decimal(b) + y,
    ensures
        a == b,
        x == y,
{
    lemma_decimal_digits(a);
    lemma_decimal_digits(b);
    let da = decimal(a);
    let db = decimal(b);
    let t = da + x;
    if da.len() < db.len() {
        assert(t[da.len() as int] == x[0]);
        assert(t[da.len() as int] == db[da.len() as int]);
        assert(is_digit(db[da.len() as int]));
    } else if db.len() < da.len() {
        assert(t[db.len() as int] == y[0]);
        assert(t[db.len() as int] == da[db.len() as int]);
        assert(is_digit(da[db.len() as int]));
    }
    assert(da =~= t.take(da.len() as int));
    assert(db =~= t.take(da.len() as int));
    assert(x =~= t.skip(da.len() as int));
    assert(y =~= t.skip(da.len() as int));
}

/// Below an hour, no two durations read the same: minutes and seconds are
/// always both shown, a zero second part only being left out.
pub proof fn law_texts_under_an_hour_differ(s1: nat, s2: nat)
    requires
        s1 < 3600,
        s2 < 3600,
        s1 != s2,
    ensures
        duration_text(s1) != duration_text(s2),
{
    reveal_strlit("s");
    reveal_strlit("m ");
    reveal_strlit("m");
    if duration_text(s1) == duration_text(s2) {
        lemma_texts_equal_under_an_hour(s1, s2);
    }
}

proof fn lemma_texts_equal_under_an_hour(s1: nat, s2: nat)
    requires
        s1 < 3600,
        s2 < 3600,
        duration_text(s1) == duration_text(s2),
    ensures
        s1 == s2,
{
    reveal_strlit("s");
    reveal_strlit("m ");
    reveal_strlit("m");
    let (m1, r1, m2, r2) = (s1 / 60, s1 % 60, s2 / 60, s2 % 60);
    let tail1 = if s1 < 60 {
        "s"@
    } else if r1 > 0 {
        "m "@ + decimal(r1) + "s"@
    } else {
        "m"@
    };
    let tail2 = if s2 < 60 {
        "s"@
    } else if r2 > 0 {
        "m "@ + decimal(r2) + "s"@
    } else {
        "m"@
    };
    let n1 = if s1 < 60 { s1 } else { m1 };
    let n2 = if s2 < 60 { s2 } else { m2 };
    assert(duration_text(s1) =~= decimal(n1) + tail1);
    assert(duration_text(s2) =~= decimal(n2) + tail2);
    assert(tail1[0] == 's' || tail1[0] == 'm');
    assert(tail2[0] == 's' || tail2[0] == 'm');
    lemma_decimal_prefix(n1, tail1, n2, tail2);
    if s1 >= 60 && s2 >= 60 && r1 > 0 && r2 > 0 {
        let u1 = decimal(r1) + "s"@;
        let u2 = decimal(r2) + "s"@;
        assert(u1 =~= tail1.skip(2));
        assert(u2 =~= tail2.skip(2));
        lemma_decimal_prefix(r1, "s"@, r2, "s"@);
    } else if s1 >= 60 && s2 >= 60 && r1 > 0 {
        lemma_decimal_digits(r1);
        assert(tail1.len() > 1);
    } else if s1 >= 60 && s2 >= 60 && r2 > 0 {
        lemma_decimal_digits(r2);
        assert(tail2.len() > 1);
    }
}

/// Once hours are shown, seconds are not: a duration of an hour or more
/// reads the same as the same duration without its last partial minute.
pub proof fn law_hours_drop_seconds(secs: nat)
    requires
        secs >= 3600,
    ensures
        duration_text(secs) == duration_text((secs - secs % 60) as nat),
{
    let h = secs / 3600;
    let m = (secs % 3600) / 60;
    let s0 = (secs % 3600) % 60;
    assert(secs == 3600 * h + 60 * m + s0 && m < 60 && s0 < 60) by (nonlinear_arith)
        requires
            h == secs / 3600,
            m == (secs % 3600) / 60,
            s0 == (secs % 3600) % 60,
    ;
    let t = 3600 * h + 60 * m;
    assert(secs % 60 == s0) by (nonlinear_arith)
        requires
            secs == 3600 * h + 60 * m + s0,
            s0 < 60,
            h >= 0,
            m >= 0,
            s0 >= 0,
    ;
    assert(t / 3600 == h && (t % 3600) / 60 == m && t >= 3600) by (nonlinear_arith)
        requires
            t == 3600 * h + 60 * m,
            m < 60,
            h >= 1,
            m >= 0,
    ;
    assert((secs - secs % 60) as nat == t);
}

} // verus!
