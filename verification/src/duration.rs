//! Durations on the command line: a positive whole number followed by one
//! unit letter, `s`, `m`, `h` or `d`.
use vstd::prelude::*;
use vstd::slice::slice_subrange;
use vstd::string::StringSliceAdditionalSpecFns;
use crate::decimal::{decimal, lemma_parse_decimal_roundtrip, parse_u64, parse_u64_spec};

verus! {

pub const SUFFIX_ERROR: &'static str = "duration must end in s, m, h, or d";

pub const NUMBER_ERROR: &'static str = "duration must start with a positive integer";

pub const TOO_LARGE_ERROR: &'static str = "duration is too large";

pub const ZERO_ERROR: &'static str = "duration must be greater than zero";

pub const SECONDS_UNIT: u8 = 115;  // `s`

pub const MINUTES_UNIT: u8 = 109;  // `m`

pub const HOURS_UNIT: u8 = 104;  // `h`

pub const DAYS_UNIT: u8 = 100;  // `d`

/// How many seconds one of a unit stands for, for the one-byte unit strings.
pub open spec fn unit_seconds(unit: Seq<u8>) -> Option<nat> {
    if unit == seq![SECONDS_UNIT] {
        Some(1)
    } else if unit == seq![MINUTES_UNIT] {
        Some(60)
    } else if unit == seq![HOURS_UNIT] {
        Some(3600)
    } else if unit == seq![DAYS_UNIT] {
        Some(86400)
    } else {
        None
    }
}

/// The byte offset where the unit begins: the last byte, or 0 for the empty text.
pub open spec fn unit_offset(len: nat) -> int {
    if len == 0 {
        0
    } else {
        len - 1
    }
}

/// What a duration text means.
pub enum DurationReading {
    /// The text does not end in one of the unit letters.
    BadUnit,
    /// What precedes the unit is not an unsigned integer that fits in a `u64`.
    BadNumber,
    /// The number of seconds does not fit in a `u64`.
    TooLarge,
    /// The duration is zero.
    Zero,
    /// A positive number of seconds.
    Seconds(u64),
}

/// The reading of the UTF-8 bytes of a duration text.
pub open spec fn read_duration(bytes: Seq<u8>) -> DurationReading {
    let k = unit_offset(bytes.len());
    let number = bytes.subrange(0, k);
    let unit = bytes.subrange(k, bytes.len() as int);
    match unit_seconds(unit) {
        None => DurationReading::BadUnit,
        Some(multiplier) => match parse_u64_spec(number) {
            None => DurationReading::BadNumber,
            Some(n) => if n * multiplier > u64::MAX {
                DurationReading::TooLarge
            } else if n * multiplier == 0 {
                DurationReading::Zero
            } else {
                DurationReading::Seconds((n * multiplier) as u64)
            },
        },
    }
}

/// The result that `parse_duration` gives for a reading.
pub open spec fn duration_result_matches(reading: DurationReading, r: Result<u64, String>) -> bool {
    match reading {
        DurationReading::BadUnit => r matches Err(e) && e@ == SUFFIX_ERROR@,
        DurationReading::BadNumber => r matches Err(e) && e@ == NUMBER_ERROR@,
        DurationReading::TooLarge => r matches Err(e) && e@ == TOO_LARGE_ERROR@,
        DurationReading::Zero => r matches Err(e) && e@ == ZERO_ERROR@,
        DurationReading::Seconds(s) => r matches Ok(v) && v == s,
    }
}

/// Text whose unit can be split off without cutting a character: the empty
/// text, or text whose last character is ASCII. (Splitting any other text
/// one byte before its end would cut its last character.)
pub open spec fn splittable_duration(bytes: Seq<u8>) -> bool {
    bytes.len() == 0 || bytes.last() < 128
}

/// Parses a duration such as `30s`, `1m`, `2h` or `1d` into a number of
/// seconds. The last byte is the unit; what precedes it is read as
/// `u64::from_str` reads it.
pub fn parse_duration(value: &str) -> (r: Result<u64, String>)
    requires
        splittable_duration(value.spec_bytes()),
    ensures
        duration_result_matches(read_duration(value.spec_bytes()), r),
{
    let bytes = value.as_bytes();
    let k = bytes.len().saturating_sub(1);
    let ghost k_spec = unit_offset(bytes@.len());
    assert(k == k_spec);
    let unit = slice_subrange(bytes, k, bytes.len());
    let number = slice_subrange(bytes, 0, k);
    let multiplier: u64 = if unit.len() != 1 {
        return Err(SUFFIX_ERROR.to_owned());
    } else if unit[0] == SECONDS_UNIT {
        1
    } else if unit[0] == MINUTES_UNIT {
        60
    } else if unit[0] == HOURS_UNIT {
        60 * 60
    } else if unit[0] == DAYS_UNIT {
        24 * 60 * 60
    } else {
        proof {
            assert(unit@ =~= seq![unit@[0]]);
        }
        return Err(SUFFIX_ERROR.to_owned());
    };
    proof {
        assert(unit@ =~= seq![unit@[0]]);
    }
    let number = match parse_u64(number) {
        Some(n) => n,
        None => {
            return Err(NUMBER_ERROR.to_owned());
        },
    };
    let seconds = match number.checked_mul(multiplier) {
        Some(s) => s,
        None => {
            return Err(TOO_LARGE_ERROR.to_owned());
        },
    };
    if seconds == 0 {
        return Err(ZERO_ERROR.to_owned());
    }
    Ok(seconds)
}

/// Writing a positive whole number of units and reading it back gives that
/// many units in seconds, whenever the seconds fit in a `u64`.
pub proof fn lemma_duration_roundtrip(n: u64, unit: u8, multiplier: nat)
    requires
        unit_seconds(seq![unit]) == Some(multiplier),
        n > 0,
        n * multiplier <= u64::MAX,
    ensures
        read_duration(decimal(n as nat).push(unit)) == DurationReading::Seconds(
            (n * multiplier) as u64,
        ),
{
    let bytes = decimal(n as nat).push(unit);
    lemma_parse_decimal_roundtrip(n);
    assert(bytes.subrange(0, unit_offset(bytes.len())) =~= decimal(n as nat));
    assert(bytes.subrange(unit_offset(bytes.len()), bytes.len() as int) =~= seq![unit]);
    assert(n * multiplier > 0) by (nonlinear_arith)
        requires
            n > 0,
            multiplier > 0,
    ;
}

/// A zero duration is refused in every unit.
pub proof fn lemma_zero_duration_refused(unit: u8)
    requires
        unit_seconds(seq![unit]) is Some,
    ensures
        read_duration(decimal(0).push(unit)) == DurationReading::Zero,
{
    let bytes = decimal(0).push(unit);
    lemma_parse_decimal_roundtrip(0);
    assert(decimal(0) =~= seq![48u8]);
    let multiplier = unit_seconds(seq![unit])->0;
    assert(0 * multiplier == 0);
    assert(bytes.subrange(0, unit_offset(bytes.len())) =~= decimal(0));
    assert(bytes.subrange(unit_offset(bytes.len()), bytes.len() as int) =~= seq![unit]);
}

} // verus!
