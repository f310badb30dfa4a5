//! Parsing of the configured rate quota: a positive count, a slash, and a
//! time unit (`second`/`sec`, `minute`/`min` or `hour`). The limiter built
//! from the parsed quota delays outbound requests at the edge; it never
//! drops or rejects one.
use vstd::prelude::*;
use vstd::string::StringExecFns;
use crate::numbers::parse_u32_spec;
use crate::text::{chars_vec, push_char, split_on};

verus! {

/// The time unit of a rate quota.
#[derive(Debug, Clone, Copy, PartialEq, Eq, Structural)]
pub enum RateUnit {
    /// So many requests per second.
    PerSecond,
    /// So many requests per minute.
    PerMinute,
    /// So many requests per hour.
    PerHour,
}

/// A parsed rate quota: a positive number of requests per time unit.
#[derive(Debug, Clone, Copy, PartialEq, Eq, Structural)]
pub struct Quota {
    /// How many requests each period allows; always positive.
    pub amount: u32,
    /// The period.
    pub unit: RateUnit,
}

/// Why a quota string was rejected.
#[derive(Debug, Clone, PartialEq, Eq)]
pub enum QuotaError {
    /// Not exactly one `/` separating amount and unit.
    Format,
    /// The amount is not a decimal number in range.
    Amount,
    /// The amount is zero.
    Zero,
    /// The unit is not a known one; holds the offending unit.
    Unit(String),
}

/// Whether `c` is one of the whitespace characters stripped around the
/// quota string.
pub open spec fn is_space(c: char) -> bool {
    c == ' ' || c == '\t' || c == '\n' || c == '\r'
}

/// `s` without leading whitespace.
pub open spec fn trim_start_spec(s: Seq<char>) -> Seq<char>
    decreases s.len(),
{
    if s.len() > 0 && is_space(s[0]) {
        trim_start_spec(s.drop_first())
    } else {
        s
    }
}

/// `s` without trailing whitespace.
pub open spec fn trim_end_spec(s: Seq<char>) -> Seq<char>
    decreases s.len(),
{
    if s.len() > 0 && is_space(s.last()) {
        trim_end_spec(s.drop_last())
    } else {
        s
    }
}

/// `s` without leading and trailing whitespace.
pub open spec fn trim_spec(s: Seq<char>) -> Seq<char> {
    trim_end_spec(trim_start_spec(s))
}

fn is_space_exec(c: char) -> (r: bool)
    ensures
        r == is_space(c),
{
    c == ' ' || c == '\t' || c == '\n' || c == '\r'
}

/// Strips leading and trailing whitespace.
pub fn trim(s: &str) -> (r: String)
    ensures
        r@ == trim_spec(s@),
{
    let cs = chars_vec(s);
    let n = cs.len();
    let mut lo: usize = 0;
    proof {
        assert(s@.subrange(0, n as int) =~= s@);
    }
    while lo < n && is_space_exec(cs[lo])
        invariant
            cs@ == s@,
            n == s@.len(),
            lo <= n,
            trim_start_spec(s@) == trim_start_spec(s@.subrange(lo as int, n as int)),
        decreases n - lo,
    {
        let ghost suffix = s@.subrange(lo as int, n as int);
        lo = lo + 1;
        proof {
            assert(suffix[0] == s@[lo - 1]);
            assert(suffix.drop_first() =~= s@.subrange(lo as int, n as int));
        }
    }
    proof {
        assert(trim_start_spec(s@) =~= s@.subrange(lo as int, n as int));
    }
    let mut hi: usize = n;
    while hi > lo && is_space_exec(cs[hi - 1])
        invariant
            cs@ == s@,
            n == s@.len(),
            lo <= hi <= n,
            trim_start_spec(s@) == s@.subrange(lo as int, n as int),
            trim_end_spec(s@.subrange(lo as int, n as int)) == trim_end_spec(
                s@.subrange(lo as int, hi as int),
            ),
        decreases hi,
    {
        let ghost part = s@.subrange(lo as int, hi as int);
        hi = hi - 1;
        proof {
            assert(part.last() == s@[hi as int]);
            assert(part.drop_last() =~= s@.subrange(lo as int, hi as int));
        }
    }
    proof {
        assert(trim_spec(s@) =~= s@.subrange(lo as int, hi as int));
    }
    let mut out = String::new();
    let mut i: usize = lo;
    while i < hi
        invariant
            cs@ == s@,
            n == s@.len(),
            lo <= i <= hi <= n,
            out@ == s@.subrange(lo as int, i as int),
        decreases hi - i,
    {
        push_char(&mut out, cs[i]);
        i = i + 1;
        proof {
            assert(out@ =~= s@.subrange(lo as int, i as int));
        }
    }
    proof {
        assert(out@ =~= trim_spec(s@));
    }
    out
}

/// The rate unit a token denotes, if any.
pub open spec fn unit_of(s: Seq<char>) -> Option<RateUnit> {
    if s == "second"@ || s == "sec"@ {
        Some(RateUnit::PerSecond)
    } else if s == "minute"@ || s == "min"@ {
        Some(RateUnit::PerMinute)
    } else if s == "hour"@ {
        Some(RateUnit::PerHour)
    } else {
        None
    }
}

/// The quota a configuration string denotes, if any: trimmed, split on `/`
/// into exactly two parts, a positive amount and a known unit.
pub open spec fn quota_of(s: Seq<char>) -> Option<Quota> {
    let parts = split_on(trim_spec(s), '/');
    if parts.len() != 2 {
        None
    } else {
        match parse_u32_spec(parts[0]) {
            Some(n) => if n == 0 {
                None
            } else {
                match unit_of(parts[1]) {
                    Some(u) => Some(Quota { amount: n, unit: u }),
                    None => None,
                }
            },
            None => None,
        }
    }
}

/// Parses the configured rate quota. Succeeds exactly when the trimmed
/// string is `<positive integer>/<unit>` with a known unit; each failure
/// names what was wrong.
pub fn parse_quota(s: &str) -> (r: Result<Quota, QuotaError>)
    ensures
        ({
            let parts = split_on(trim_spec(s@), '/');
            match r {
                Ok(q) => quota_of(s@) == Some(q),
                Err(e) => match e {
                    QuotaError::Format => parts.len() != 2,
                    QuotaError::Amount => parts.len() == 2 && parse_u32_spec(parts[0]) is None,
                    QuotaError::Zero => parts.len() == 2 && parse_u32_spec(parts[0])
                        == Some(0u32),
                    QuotaError::Unit(u) => parts.len() == 2 && (parse_u32_spec(parts[0]) matches
                        Some(n) && n > 0) && unit_of(parts[1]) is None && u@ == parts[1],
                },
            }
        }),
        (r is Ok) <==> (quota_of(s@) is Some),
{
    let trimmed = trim(s);
    let parts = crate::text::split_str(trimmed.as_str(), '/');
    if parts.len() != 2 {
        return Err(QuotaError::Format);
    }
    proof {
        assert(parts.deep_view()[0] == parts@[0]@);
        assert(parts.deep_view()[1] == parts@[1]@);
    }
    let amount_chars = chars_vec(parts[0].as_str());
    let amount = match crate::numbers::parse_u32_chars(&amount_chars) {
        Some(n) => n,
        None => {
            return Err(QuotaError::Amount);
        },
    };
    if amount == 0 {
        return Err(QuotaError::Zero);
    }
    let unit_str = parts[1].as_str();
    if crate::text::str_eq(unit_str, "second") || crate::text::str_eq(unit_str, "sec") {
        Ok(Quota { amount, unit: RateUnit::PerSecond })
    } else if crate::text::str_eq(unit_str, "minute") || crate::text::str_eq(unit_str, "min") {
        Ok(Quota { amount, unit: RateUnit::PerMinute })
    } else if crate::text::str_eq(unit_str, "hour") {
        Ok(Quota { amount, unit: RateUnit::PerHour })
    } else {
        Err(QuotaError::Unit(parts[1].clone()))
    }
}

} // verus!
