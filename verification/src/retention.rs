//! How many backups a prune keeps, from a retention policy such as `30d`,
//! `6m` or `1y` (one backup a day for day counts, one a week otherwise).

use vstd::prelude::*;
use crate::numeric::{
    all_digits, chars_of, decimal, is_digit, lemma_decimal_digits, lemma_decimal_round_trip,
    parse_unsigned, parse_usize, parse_usize_chars, unsigned_digits,
};
use crate::text::str_equal;

verus! {

/// The preset policies and the number of backups each keeps.
pub open spec fn preset_retention(p: Seq<char>) -> Option<nat> {
    if p == "7d"@ {
        Some(7)
    } else if p == "14d"@ {
        Some(14)
    } else if p == "30d"@ {
        Some(30)
    } else if p == "60d"@ {
        Some(60)
    } else if p == "90d"@ {
        Some(90)
    } else if p == "6m"@ {
        Some(26)
    } else if p == "1y"@ {
        Some(52)
    } else if p == "2y"@ {
        Some(104)
    } else if p == "3y"@ {
        Some(156)
    } else if p == "5y"@ {
        Some(260)
    } else {
        None
    }
}

/// The count written before the unit letter `unit` at the end of `p`, if `p`
/// is such a count followed by that letter.
pub open spec fn count_with_unit(p: Seq<char>, unit: char) -> Option<nat> {
    if p.len() > 0 && p.last() == unit {
        parse_unsigned(p.drop_last(), usize::MAX as nat)
    } else {
        None
    }
}

/// The number of backups that the policy `p` keeps: a preset, else a plain
/// number `N` itself, `N` for `Nd`, about four per month for `Nm` (at least
/// one), 52 per year for `Ny`, and 10 for anything else.
pub open spec fn retention_backups(p: Seq<char>) -> nat {
    match preset_retention(p) {
        Some(n) => n,
        None => match parse_unsigned(p, usize::MAX as nat) {
            Some(n) => n,
            None => match count_with_unit(p, 'd') {
                Some(days) => days,
                None => match count_with_unit(p, 'm') {
                    Some(months) => if (months * 30) / 7 >= 1 {
                        (months * 30) / 7
                    } else {
                        1
                    },
                    None => match count_with_unit(p, 'y') {
                        Some(years) => years * 52,
                        None => 10,
                    },
                },
            },
        },
    }
}

/// The month and year counts of `p` are small enough that the number of
/// backups they stand for can be computed in a `usize`.
pub open spec fn retention_in_range(p: Seq<char>) -> bool {
    preset_retention(p) is None ==> {
        &&& (count_with_unit(p, 'm') matches Some(m) ==> m * 30 <= usize::MAX)
        &&& (count_with_unit(p, 'y') matches Some(y) ==> y * 52 <= usize::MAX)
    }
}

fn count_before_unit(p: &Vec<char>, unit: char) -> (r: Option<usize>)
    ensures
        r == (match count_with_unit(p@, unit) {
            Some(v) => Some(v as usize),
            None => None,
        }),
{
    let n = p.len();
    if n == 0 || p[n - 1] != unit {
        return None;
    }
    let mut body: Vec<char> = Vec::new();
    let mut i: usize = 0;
    while i < n - 1
        invariant
            n == p@.len(),
            n > 0,
            i <= n - 1,
            body@ == p@.take(i as int),
        decreases n - 1 - i,
    {
        body.push(p[i]);
        i = i + 1;
        assert(body@ =~= p@.take(i as int));
    }
    assert(body@ =~= p@.drop_last());
    parse_usize_chars(&body)
}

/// Whether the month or year count of `policy`, if it has one, can be turned
/// into a number of backups in a `usize`; when it can, the policy is in range.
pub fn retention_fits(policy: &str) -> (r: bool)
    ensures
        r == ((count_with_unit(policy@, 'm') matches Some(m) ==> m * 30 <= usize::MAX) && (
        count_with_unit(policy@, 'y') matches Some(y) ==> y * 52 <= usize::MAX)),
        r ==> retention_in_range(policy@),
{
    let p = chars_of(policy);
    let months_fit = match count_before_unit(&p, 'm') {
        Some(m) => {
            assert(m <= usize::MAX / 30 <==> m * 30 <= usize::MAX) by (nonlinear_arith);
            m <= usize::MAX / 30
        },
        None => true,
    };
    let years_fit = match count_before_unit(&p, 'y') {
        Some(y) => {
            assert(y <= usize::MAX / 52 <==> y * 52 <= usize::MAX) by (nonlinear_arith);
            y <= usize::MAX / 52
        },
        None => true,
    };
    months_fit && years_fit
}

/// The number of backups that the retention policy `policy` keeps.
pub fn calculate_retention_backups(policy: &str) -> (r: usize)
    requires
        retention_in_range(policy@),
    ensures
        r == retention_backups(policy@),
{
    if str_equal(policy, "7d") {
        7
    } else if str_equal(policy, "14d") {
        14
    } else if str_equal(policy, "30d") {
        30
    } else if str_equal(policy, "60d") {
        60
    } else if str_equal(policy, "90d") {
        90
    } else if str_equal(policy, "6m") {
        26
    } else if str_equal(policy, "1y") {
        52
    } else if str_equal(policy, "2y") {
        104
    } else if str_equal(policy, "3y") {
        156
    } else if str_equal(policy, "5y") {
        260
    } else {
        if let Some(n) = parse_usize(policy) {
            return n;
        }
        let p = chars_of(policy);
        if let Some(days) = count_before_unit(&p, 'd') {
            return days;
        }
        if let Some(months) = count_before_unit(&p, 'm') {
            let weeks = (months * 30) / 7;
            return if weeks >= 1 {
                weeks
            } else {
                1
            };
        }
        if let Some(years) = count_before_unit(&p, 'y') {
            return years * 52;
        }
        10
    }
}

/// The number of backups a prune keeps: `keep_last` when given, else the
/// retention policy (a plain number keeps that many), else 10.
pub open spec fn keep_count(keep_last: Option<usize>, retention: Option<Seq<char>>) -> nat {
    match keep_last {
        Some(n) => n as nat,
        None => match retention {
            Some(p) => match parse_unsigned(p, usize::MAX as nat) {
                Some(n) => n,
                None => retention_backups(p),
            },
            None => 10,
        },
    }
}

/// Decides how many backups a prune keeps from the command's options.
pub fn determine_keep_count(keep_last: Option<usize>, retention: Option<&str>) -> (r: usize)
    requires
        keep_last is None ==> (retention matches Some(p) ==> retention_in_range(p@)),
    ensures
        r == keep_count(
            keep_last,
            match retention {
                Some(p) => Some(p@),
                None => None,
            },
        ),
{
    match keep_last {
        Some(count) => count,
        None => match retention {
            Some(policy) => match parse_usize(policy) {
                Some(num) => num,
                None => calculate_retention_backups(policy),
            },
            None => 10,
        },
    }
}

/// The decimal `n` followed by the unit letter `u` is read as the count `n`
/// with that unit, and not as a plain number.
proof fn lemma_count_with_unit(n: nat, u: char)
    requires
        n <= usize::MAX,
        !is_digit(u),
    ensures
        count_with_unit(decimal(n) + seq![u], u) == Some(n),
        parse_unsigned(decimal(n) + seq![u], usize::MAX as nat) is None,
{
    let p = decimal(n) + seq![u];
    lemma_decimal_digits(n);
    lemma_decimal_round_trip(n, usize::MAX as nat);
    assert(p.drop_last() =~= decimal(n));
    assert(p.last() == u);
    assert(p[0] == decimal(n)[0]);
    let body = if p.len() > 0 && p[0] == '+' { p.drop_first() } else { p };
    assert(body == p);
    assert(!all_digits(body)) by {
        assert(!is_digit(body[body.len() - 1]));
    }
    assert(unsigned_digits(p) is None);
}

/// No decimal number is a preset policy: the presets end with a unit letter.
proof fn lemma_decimal_not_preset(n: nat)
    ensures
        preset_retention(decimal(n)) is None,
{
    lemma_decimal_digits(n);
    reveal_strlit("7d");
    reveal_strlit("14d");
    reveal_strlit("30d");
    reveal_strlit("60d");
    reveal_strlit("90d");
    reveal_strlit("6m");
    reveal_strlit("1y");
    reveal_strlit("2y");
    reveal_strlit("3y");
    reveal_strlit("5y");
    let d = decimal(n);
    assert(is_digit(d[d.len() - 1]));
}

/// A policy that is a plain number keeps that many backups.
pub proof fn law_plain_number_keeps_n(n: nat)
    requires
        n <= usize::MAX,
    ensures
        retention_backups(decimal(n)) == n,
{
    lemma_decimal_not_preset(n);
    lemma_decimal_round_trip(n, usize::MAX as nat);
}

/// A policy of `N` days (`Nd`, not a preset) keeps `N` backups, one a day.
pub proof fn law_days_policy_keeps_n(n: nat)
    requires
        n <= usize::MAX,
        preset_retention(decimal(n) + "d"@) is None,
    ensures
        retention_backups(decimal(n) + "d"@) == n,
{
    reveal_strlit("d");
    assert("d"@ =~= seq!['d']);
    lemma_count_with_unit(n, 'd');
}

/// A policy of `N` months (`Nm`, not a preset) keeps one backup a week:
/// `N * 30 / 7`, and at least one.
pub proof fn law_months_policy_keeps_weeks(n: nat)
    requires
        n <= usize::MAX,
        preset_retention(decimal(n) + "m"@) is None,
    ensures
        retention_backups(decimal(n) + "m"@) == (if n * 30 / 7 >= 1 {
            n * 30 / 7
        } else {
            1
        }),
{
    reveal_strlit("m");
    assert("m"@ =~= seq!['m']);
    lemma_count_with_unit(n, 'm');
}

/// A policy of `N` years (`Ny`, not a preset) keeps 52 backups a year.
pub proof fn law_years_policy_keeps_weeks(n: nat)
    requires
        n <= usize::MAX,
        preset_retention(decimal(n) + "y"@) is None,
    ensures
        retention_backups(decimal(n) + "y"@) == n * 52,
{
    reveal_strlit("y");
    assert("y"@ =~= seq!['y']);
    lemma_count_with_unit(n, 'y');
}

/// A month-based policy always keeps at least one backup.
pub proof fn law_month_policy_keeps_one(p: Seq<char>)
    requires
        preset_retention(p) is None,
        count_with_unit(p, 'm') is Some,
    ensures
        retention_backups(p) >= 1,
{
    reveal_strlit("7d");
    reveal_strlit("14d");
    reveal_strlit("30d");
    reveal_strlit("60d");
    reveal_strlit("90d");
    assert(count_with_unit(p, 'd') is None);
    assert(p.last() == 'm' && !crate::numeric::is_digit(p.last()));
    assert(parse_unsigned(p, usize::MAX as nat) is None);
}

/// An explicit `keep_last` always wins over any retention policy.
pub proof fn law_keep_last_wins(n: usize, retention: Option<Seq<char>>)
    ensures
        keep_count(Some(n), retention) == n,
{
}

} // verus!
