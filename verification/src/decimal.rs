//! Whole numbers in decimal notation, as attribute values hold them.

use vstd::prelude::*;
use vstd::string::StringExecFns;

verus! {

/// The digit for a number below ten.
pub open spec fn digit(d: nat) -> Seq<char> {
    if d == 0 {
        "0"@
    } else if d == 1 {
        "1"@
    } else if d == 2 {
        "2"@
    } else if d == 3 {
        "3"@
    } else if d == 4 {
        "4"@
    } else if d == 5 {
        "5"@
    } else if d == 6 {
        "6"@
    } else if d == 7 {
        "7"@
    } else if d == 8 {
        "8"@
    } else {
        "9"@
    }
}

/// The digits of a natural number, most significant first, without leading zeros.
pub open spec fn digits(n: nat) -> Seq<char>
    decreases n,
{
    if n < 10 {
        digit(n)
    } else {
        digits(n / 10) + digit(n % 10)
    }
}

/// The decimal notation of a whole number: a minus sign where it is negative,
/// then the digits of its magnitude.
pub open spec fn decimal(n: int) -> Seq<char> {
    if n < 0 {
        "-"@ + digits((-n) as nat)
    } else {
        digits(n as nat)
    }
}

/// The digit for a number below ten.
fn digit_str(d: u64) -> (s: &'static str)
    requires
        d < 10,
    ensures
        s@ == digit(d as nat),
{
    if d == 0 {
        "0"
    } else if d == 1 {
        "1"
    } else if d == 2 {
        "2"
    } else if d == 3 {
        "3"
    } else if d == 4 {
        "4"
    } else if d == 5 {
        "5"
    } else if d == 6 {
        "6"
    } else if d == 7 {
        "7"
    } else if d == 8 {
        "8"
    } else {
        "9"
    }
}

/// The digits of `n`.
pub fn digits_string(n: u64) -> (s: String)
    ensures
        s@ == digits(n as nat),
    decreases n,
{
    if n < 10 {
        digit_str(n).to_owned()
    } else {
        let mut s = digits_string(n / 10);
        s.append(digit_str(n % 10));
        s
    }
}

/// The decimal notation of `n`.
pub fn decimal_string(n: i64) -> (s: String)
    ensures
        s@ == decimal(n as int),
{
    if n < 0 {
        let magnitude: u64 = if n == i64::MIN {
            9223372036854775808u64
        } else {
            (-n) as u64
        };
        let mut s = "-".to_owned();
        let tail = digits_string(magnitude);
        s.append(tail.as_str());
        s
    } else {
        digits_string(n as u64)
    }
}

} // verus!
