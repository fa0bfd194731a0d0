//! Decimal and hexadecimal renderings of unsigned integers.
use vstd::prelude::*;
use crate::text::push_char;

verus! {

/// The digit character for a value below sixteen (lowercase letters above nine).
pub open spec fn digit_char(d: nat) -> char {
    if d == 0 {
        '0'
    } else if d == 1 {
        '1'
    } else if d == 2 {
        '2'
    } else if d == 3 {
        '3'
    } else if d == 4 {
        '4'
    } else if d == 5 {
        '5'
    } else if d == 6 {
        '6'
    } else if d == 7 {
        '7'
    } else if d == 8 {
        '8'
    } else if d == 9 {
        '9'
    } else if d == 10 {
        'a'
    } else if d == 11 {
        'b'
    } else if d == 12 {
        'c'
    } else if d == 13 {
        'd'
    } else if d == 14 {
        'e'
    } else {
        'f'
    }
}

/// The digits of `n` in base `b`, most significant first, without leading zeros
/// (zero itself is the single digit `0`).
pub open spec fn digits(n: nat, b: nat) -> Seq<char>
    recommends
        2 <= b <= 16,
    decreases n,
{
    if b < 2 || n < b {
        seq![digit_char(n)]
    } else {
        proof {
            assert(n / b < n) by (nonlinear_arith)
                requires
                    b >= 2,
                    n >= b,
            ;
        }
        digits(n / b, b).push(digit_char(n % b))
    }
}

/// The decimal rendering of `n`.
pub open spec fn decimal(n: nat) -> Seq<char> {
    digits(n, 10)
}

/// The lowercase hexadecimal rendering of `n`, without a prefix.
pub open spec fn hex(n: nat) -> Seq<char> {
    digits(n, 16)
}

fn digit(d: u64) -> (c: char)
    requires
        d < 16,
    ensures
        c == digit_char(d as nat),
{
    if d == 0 {
        '0'
    } else if d == 1 {
        '1'
    } else if d == 2 {
        '2'
    } else if d == 3 {
        '3'
    } else if d == 4 {
        '4'
    } else if d == 5 {
        '5'
    } else if d == 6 {
        '6'
    } else if d == 7 {
        '7'
    } else if d == 8 {
        '8'
    } else if d == 9 {
        '9'
    } else if d == 10 {
        'a'
    } else if d == 11 {
        'b'
    } else if d == 12 {
        'c'
    } else if d == 13 {
        'd'
    } else if d == 14 {
        'e'
    } else {
        'f'
    }
}

fn push_digits(s: &mut String, n: u64, b: u64)
    requires
        2 <= b <= 16,
    ensures
        final(s)@ == old(s)@ + digits(n as nat, b as nat),
    decreases n,
{
    if n < b {
        push_char(s, digit(n));
    } else {
        assert(n / b < n) by (nonlinear_arith)
            requires
                b >= 2,
                n >= b,
        ;
        push_digits(s, n / b, b);
        push_char(s, digit(n % b));
    }
}

/// The decimal rendering of `n`, as `format!("{}", n)` writes it.
pub fn decimal_string(n: u64) -> (r: String)
    ensures
        r@ == decimal(n as nat),
{
    let mut r = String::new();
    push_digits(&mut r, n, 10);
    r
}

/// The lowercase hexadecimal rendering of `n`, as `format!("{:x}", n)` writes it.
pub fn hex_string(n: u64) -> (r: String)
    ensures
        r@ == hex(n as nat),
{
    let mut r = String::new();
    push_digits(&mut r, n, 16);
    r
}

} // verus!
