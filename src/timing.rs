//! Human-readable durations for the run statistics.
use vstd::prelude::*;
use vstd::string::StringExecFns;

verus! {

/// The character of the decimal digit `d`.
pub open spec fn digit_char(d: nat) -> char {
    (48 + d) as char
}

/// The decimal digits of `n`, most significant first, without leading zeros.
pub open spec fn decimal(n: nat) -> Seq<char>
    decreases n,
{
    if n < 10 {
        seq![digit_char(n)]
    } else {
        decimal(n / 10).push(digit_char(n % 10))
    }
}

/// The unit after `k` divisions by 1000 of a count of nanoseconds.
pub open spec fn time_unit(k: nat) -> Seq<char> {
    if k == 0 {
        "ns"@
    } else if k == 1 {
        "µs"@
    } else if k == 2 {
        "ms"@
    } else if k == 3 {
        "s"@
    } else {
        "m"@
    }
}

/// `d` (in the unit reached after `k` divisions by 1000) written with the
/// largest unit that keeps it below 1000, or in hours past minutes.
pub open spec fn human_time_text(d: nat, k: nat) -> Seq<char>
    decreases 5 - k,
{
    if k >= 5 {
        decimal(d) + " h"@
    } else if d < 1000 {
        decimal(d) + " "@ + time_unit(k)
    } else {
        human_time_text(d / 1000, k + 1)
    }
}

/// Relies on `ToString` for `u128` (its `Display`): the decimal digits of
/// the number, most significant first, with no sign, padding or separators.
#[verifier::external_body]
fn decimal_string(d: u128) -> (r: String)
    ensures
        r@ == decimal(d as nat),
{
    d.to_string()
}

fn unit_name(k: usize) -> (r: &'static str)
    requires
        k < 5,
    ensures
        r@ == time_unit(k as nat),
{
    if k == 0 {
        "ns"
    } else if k == 1 {
        "µs"
    } else if k == 2 {
        "ms"
    } else if k == 3 {
        "s"
    } else {
        "m"
    }
}

/// Writes a duration of `d` nanoseconds as `"<n> <unit>"`, with the unit
/// among ns, µs, ms, s, m that keeps `n` below 1000, or in hours.
pub fn human_time(nanos: u128) -> (r: String)
    ensures
        r@ == human_time_text(nanos as nat, 0),
{
    let mut d = nanos;
    let mut k: usize = 0;
    while k < 5
        invariant
            k <= 5,
            human_time_text(d as nat, k as nat) == human_time_text(nanos as nat, 0),
        decreases 5 - k,
    {
        if d < 1000 {
            let mut s = decimal_string(d);
            s.append(" ");
            s.append(unit_name(k));
            return s;
        }
        d = d / 1000;
        k = k + 1;
    }
    let mut s = decimal_string(d);
    s.append(" h");
    s
}

} // verus!
