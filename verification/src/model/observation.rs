//! The parts of an observation that are text and integers: its period, and
//! the checks on its series id, year and period. The value of an
//! observation is a floating-point number, which the caller keeps.

use vstd::prelude::*;
use crate::text::{byte_len, cat, chars_of, dec, decimal, owned, parse_u32, parse_unsigned, string_from_chars, unsigned_error, unsigned_error_text};

verus! {

/// Whether `c` is an ASCII letter.
pub open spec fn ascii_letter(c: char) -> bool {
    ('a' <= c && c <= 'z') || ('A' <= c && c <= 'Z')
}

/// The kind and number of a period such as "M01": its first character,
/// which must be an ASCII letter, and the unsigned number the rest
/// denotes. An empty period is the error "Empty period"; a first character
/// that is no letter is "Invalid period: " and the period; a rest that is
/// no `u32` is "Invalid period: " and why.
pub open spec fn period_parts(p: Seq<char>) -> Result<(char, u32), Seq<char>> {
    if p.len() == 0 {
        Err("Empty period"@)
    } else if !ascii_letter(p[0]) {
        Err("Invalid period: "@ + p)
    } else {
        match parse_unsigned(p.drop_first(), u32::MAX as nat) {
            Some(n) => Ok((p[0], n as u32)),
            None => Err("Invalid period: "@ + unsigned_error(p.drop_first(), u32::MAX as nat)),
        }
    }
}

/// The kind and number of a period (see `period_parts`).
pub fn parse_period(period: &str) -> (r: Result<(char, u32), String>)
    ensures
        match period_parts(period@) {
            Ok(parts) => r == Ok::<(char, u32), String>(parts),
            Err(m) => r matches Err(e) && e@ == m,
        },
{
    let v = chars_of(period);
    if v.len() == 0 {
        proof {
            reveal_strlit("Empty period");
        }
        return Err(owned("Empty period"));
    }
    let kind = v[0];
    if !(('a' <= kind && kind <= 'z') || ('A' <= kind && kind <= 'Z')) {
        return Err(cat("Invalid period: ", period));
    }
    let mut rest: Vec<char> = Vec::new();
    let mut i: usize = 1;
    while i < v.len()
        invariant
            v@ == period@,
            1 <= i <= v@.len(),
            rest@ == v@.subrange(1, i as int),
        decreases v@.len() - i,
    {
        rest.push(v[i]);
        i = i + 1;
        assert(rest@ =~= v@.subrange(1, i as int));
    }
    let tail = string_from_chars(rest.as_slice());
    assert(tail@ =~= period@.drop_first());
    match parse_u32(tail.as_str()) {
        Some(n) => Ok((kind, n)),
        None => {
            let why = unsigned_error_text(tail.as_str(), u32::MAX as u64);
            Err(cat("Invalid period: ", why.as_str()))
        },
    }
}

/// The checks on an observation's series id, year and period, in that
/// order: an id of 10 to 25 bytes, a year from 1900 to 2100, a period of 3
/// bytes. The first that fails gives "Invalid series ID: ", "Invalid year:
/// " or "Invalid period: " and the value.
pub open spec fn observation_fields_check(id: Seq<char>, year: u32, period: Seq<char>) -> Result<(), Seq<char>> {
    if byte_len(id) < 10 || byte_len(id) > 25 {
        Err("Invalid series ID: "@ + id)
    } else if year < 1900 || year > 2100 {
        Err("Invalid year: "@ + dec(year as nat))
    } else if byte_len(period) != 3 {
        Err("Invalid period: "@ + period)
    } else {
        Ok(())
    }
}

/// The checks on an observation's series id, year and period (see
/// `observation_fields_check`); the caller checks the value after them.
pub fn validate_observation_fields(series_id: &str, year: u32, period: &str) -> (r: Result<(), String>)
    ensures
        match observation_fields_check(series_id@, year, period@) {
            Ok(()) => r is Ok,
            Err(m) => r matches Err(e) && e@ == m,
        },
{
    let n = series_id.len();
    if n < 10 || n > 25 {
        return Err(cat("Invalid series ID: ", series_id));
    }
    if year < 1900 || year > 2100 {
        return Err(cat("Invalid year: ", decimal(year as u64).as_str()));
    }
    if period.len() != 3 {
        return Err(cat("Invalid period: ", period));
    }
    Ok(())
}

} // verus!
