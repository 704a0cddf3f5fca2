//! Save timestamps: the calendar date of a day count and the ISO-8601 text
//! written into save files.

use vstd::prelude::*;
use crate::text::{push_char, push_padded, padded_decimal};

verus! {

/// Calendar date (year, month, day) of the day `days` after 1970-01-01 in the
/// proleptic Gregorian calendar, by the era/day-of-era method.
pub open spec fn spec_civil_from_days(days: int) -> (int, int, int) {
    let z = days + 719_468;
    let era = (if z >= 0 { z } else { z - 146_096 }) / 146_097;
    let doe = z - era * 146_097;
    let yoe = (doe - doe / 1_460 + doe / 36_524 - doe / 146_096) / 365;
    let year = yoe + era * 400;
    let doy = doe - (365 * yoe + yoe / 4 - yoe / 100);
    let mp = (5 * doy + 2) / 153;
    let day = doy - (153 * mp + 2) / 5 + 1;
    let month = mp + if mp < 10 { 3int } else { -9int };
    let year = year + if month <= 2 { 1int } else { 0int };
    (year, month, day)
}

/// Floor division by a positive divisor.
fn div_floor(a: i64, d: i64) -> (q: i64)
    requires
        d > 0,
    ensures
        q == a / d,
{
    if a >= 0 {
        let q: u64 = (a as u64) / (d as u64);
        proof {
            assert(q as int == a as int / d as int);
        }
        q as i64
    } else {
        let n: u64 = (-(a + 1)) as u64;
        let m: u64 = n / (d as u64);
        proof {
            let ai = a as int;
            let di = d as int;
            let mi = m as int;
            assert(n as int == -ai - 1);
            assert(mi == (-ai - 1) / di);
            assert(mi * di <= -ai - 1 < mi * di + di) by (nonlinear_arith)
                requires
                    mi == (-ai - 1) / di,
                    di > 0,
                    -ai - 1 >= 0,
            ;
            assert((-mi - 1) * di <= ai < (-mi - 1) * di + di) by (nonlinear_arith)
                requires
                    mi * di <= -ai - 1 < mi * di + di,
            ;
            vstd::arithmetic::div_mod::lemma_fundamental_div_mod_converse(ai, di, -mi - 1, ai - (-mi - 1) * di);
        }
        -(m as i64) - 1
    }
}

/// Calendar date (year, month, day) of the day `days` after 1970-01-01.
pub fn civil_from_days(days: i64) -> (r: (i64, i64, i64))
    requires
        days <= i64::MAX - 719_468,
    ensures
        (r.0 as int, r.1 as int, r.2 as int) == spec_civil_from_days(days as int),
{
    let z: i64 = days + 719_468;
    let shifted: i64 = if z >= 0 { z } else { z - 146_096 };
    let era: i64 = div_floor(shifted, 146_097);
    proof {
        assert(era * 146_097 <= z) by (nonlinear_arith)
            requires
                era == shifted / 146_097,
                shifted == (if z >= 0 { z as int } else { z - 146_096 }),
        ;
        assert(z - era * 146_097 < 2 * 146_097) by (nonlinear_arith)
            requires
                era == shifted / 146_097,
                shifted == (if z >= 0 { z as int } else { z - 146_096 }),
        ;
    }
    let doe: i64 = z - era * 146_097;
    let yoe: i64 = (doe - doe / 1_460 + doe / 36_524 - doe / 146_096) / 365;
    proof {
        assert(0 <= yoe <= 801) by (nonlinear_arith)
            requires
                0 <= doe < 2 * 146_097,
                yoe == (doe - doe / 1_460 + doe / 36_524 - doe / 146_096) / 365,
        ;
    }
    let year: i64 = yoe + era * 400;
    let doy: i64 = doe - (365 * yoe + yoe / 4 - yoe / 100);
    proof {
        assert(-1000 <= doy <= 1000) by (nonlinear_arith)
            requires
                0 <= doe < 2 * 146_097,
                yoe == (doe - doe / 1_460 + doe / 36_524 - doe / 146_096) / 365,
                doy == doe - (365 * yoe + yoe / 4 - yoe / 100),
        ;
    }
    let mp: i64 = (5 * doy + 2) / 153;
    let day: i64 = doy - (153 * mp + 2) / 5 + 1;
    let month: i64 = mp + if mp < 10 { 3 } else { -9 };
    let year: i64 = year + if month <= 2 { 1 } else { 0 };
    (year, month, day)
}

/// ISO-8601 UTC text of an instant given in whole seconds since 1970-01-01.
pub open spec fn spec_timestamp(seconds: nat) -> Seq<char> {
    let days = seconds / 86_400;
    let today = seconds % 86_400;
    let (year, month, day) = spec_civil_from_days(days as int);
    padded_decimal(year as nat, 4) + seq!['-'] + padded_decimal(month as nat, 2) + seq!['-']
        + padded_decimal(day as nat, 2) + seq!['T'] + padded_decimal(today / 3_600, 2) + seq![':']
        + padded_decimal(today / 60 % 60, 2) + seq![':'] + padded_decimal(today % 60, 2)
        + seq!['Z']
}

/// The save timestamp text for `seconds` since 1970-01-01 (UTC), as
/// `YYYY-MM-DDTHH:MM:SSZ`.
pub fn timestamp_from_seconds(seconds: u64) -> (r: String)
    ensures
        r@ == spec_timestamp(seconds as nat),
{
    let days: u64 = seconds / 86_400;
    let today: u64 = seconds % 86_400;
    let (year, month, day) = civil_from_days(days as i64);
    proof {
        lemma_civil_ranges(days as int);
    }
    let mut s = String::new();
    push_padded(&mut s, year as u64, 4);
    push_char(&mut s, '-');
    push_padded(&mut s, month as u64, 2);
    push_char(&mut s, '-');
    push_padded(&mut s, day as u64, 2);
    push_char(&mut s, 'T');
    push_padded(&mut s, today / 3_600, 2);
    push_char(&mut s, ':');
    push_padded(&mut s, today / 60 % 60, 2);
    push_char(&mut s, ':');
    push_padded(&mut s, today % 60, 2);
    push_char(&mut s, 'Z');
    assert(s@ =~= spec_timestamp(seconds as nat));
    s
}

/// For days on or after 1970-01-01 the date has a positive year, a month in
/// 1..=12 and a day in 1..=31.
pub proof fn lemma_civil_ranges(days: int)
    requires
        days >= 0,
    ensures
        spec_civil_from_days(days).0 >= 1970,
        1 <= spec_civil_from_days(days).1 <= 12,
        1 <= spec_civil_from_days(days).2 <= 31,
{
    let z = days + 719_468;
    let era = z / 146_097;
    assert(era >= 4) by (nonlinear_arith)
        requires
            z >= 719_468,
            era == z / 146_097,
    ;
    let doe = z - era * 146_097;
    assert(0 <= doe < 146_097) by (nonlinear_arith)
        requires
            era == z / 146_097,
            z >= 0,
            doe == z - era * 146_097,
    ;
    let yoe = (doe - doe / 1_460 + doe / 36_524 - doe / 146_096) / 365;
    assert(0 <= yoe <= 399) by (nonlinear_arith)
        requires
            0 <= doe < 146_097,
            yoe == (doe - doe / 1_460 + doe / 36_524 - doe / 146_096) / 365,
    ;
    let doy = doe - (365 * yoe + yoe / 4 - yoe / 100);
    assert(0 <= doy <= 365) by (nonlinear_arith)
        requires
            0 <= doe < 146_097,
            yoe == (doe - doe / 1_460 + doe / 36_524 - doe / 146_096) / 365,
            doy == doe - (365 * yoe + yoe / 4 - yoe / 100),
    ;
    let mp = (5 * doy + 2) / 153;
    assert(0 <= mp <= 11);
    let day = doy - (153 * mp + 2) / 5 + 1;
    assert(1 <= day <= 31) by (nonlinear_arith)
        requires
            0 <= doy <= 365,
            mp == (5 * doy + 2) / 153,
            day == doy - (153 * mp + 2) / 5 + 1,
    ;
    assert(yoe + era * 400 >= 1600) by (nonlinear_arith)
        requires
            era >= 4,
            yoe >= 0,
    ;
    assert(z >= 719_468);
    assert(yoe + era * 400 >= 1969) by (nonlinear_arith)
        requires
            z >= 719_468,
            era == z / 146_097,
            doe == z - era * 146_097,
            0 <= doe < 146_097,
            yoe == (doe - doe / 1_460 + doe / 36_524 - doe / 146_096) / 365,
    ;
}

/// Timestamp recorded for saves written before timestamps existed.
pub fn unknown_save_timestamp() -> (r: String)
    ensures
        r@ == "1970-01-01T00:00:00Z"@,
{
    "1970-01-01T00:00:00Z".to_owned()
}

} // verus!
