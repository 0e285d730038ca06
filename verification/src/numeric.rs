//! Integer arithmetic the indicators' parameters need.

use vstd::prelude::*;

verus! {

/// True when `root` is the integer square root of `n`: the largest integer whose
/// square does not exceed `n`.
pub open spec fn is_floor_sqrt(n: nat, root: nat) -> bool {
    root * root <= n < (root + 1) * (root + 1)
}

/// The integer square root, `floor(sqrt(n))`.
pub fn floor_sqrt(n: usize) -> (root: usize)
    ensures
        is_floor_sqrt(n as nat, root as nat),
{
    let target: u64 = n as u64;
    let mut low: u64 = 0;
    let mut high: u64 = 4294967296;
    assert(target < 4294967296 * 4294967296) by (nonlinear_arith)
        requires
            target <= u64::MAX,
    ;
    while high - low > 1
        invariant
            low < high <= 4294967296,
            low * low <= target,
            target < high * high,
        decreases high - low,
    {
        let mid: u64 = low + (high - low) / 2;
        assert(mid * mid <= 4294967295 * 4294967295) by (nonlinear_arith)
            requires
                mid <= 4294967295,
        ;
        if mid * mid <= target {
            low = mid;
        } else {
            high = mid;
        }
    }
    assert(low <= n) by (nonlinear_arith)
        requires
            low * low <= n,
    ;
    low as usize
}

/// The sum `1 + 2 + ... + n`.
pub open spec fn triangular(n: nat) -> nat {
    n * (n + 1) / 2
}

/// The sum `1 + 2 + ... + n`, which fits in 128 bits for every `usize`.
pub fn triangular_number(n: usize) -> (sum: u128)
    ensures
        sum == triangular(n as nat),
{
    let wide: u128 = n as u128;
    assert(wide * (wide + 1) <= 18446744073709551615 * 18446744073709551616) by (nonlinear_arith)
        requires
            wide <= 18446744073709551615,
    ;
    wide * (wide + 1) / 2
}

/// The character of a decimal digit.
pub open spec fn digit_char(digit: nat) -> char {
    if digit == 0 {
        '0'
    } else if digit == 1 {
        '1'
    } else if digit == 2 {
        '2'
    } else if digit == 3 {
        '3'
    } else if digit == 4 {
        '4'
    } else if digit == 5 {
        '5'
    } else if digit == 6 {
        '6'
    } else if digit == 7 {
        '7'
    } else if digit == 8 {
        '8'
    } else {
        '9'
    }
}

/// The decimal numeral of `n`, most significant digit first, without leading zeros.
pub open spec fn decimal_digits(n: nat) -> Seq<char>
    decreases n,
{
    if n < 10 {
        seq![digit_char(n)]
    } else {
        decimal_digits(n / 10).push(digit_char(n % 10))
    }
}

/// The one-character text of a decimal digit.
fn digit_text(digit: usize) -> (text: &'static str)
    requires
        digit < 10,
    ensures
        text@ == seq![digit_char(digit as nat)],
{
    proof {
        reveal_strlit("0");
        reveal_strlit("1");
        reveal_strlit("2");
        reveal_strlit("3");
        reveal_strlit("4");
        reveal_strlit("5");
        reveal_strlit("6");
        reveal_strlit("7");
        reveal_strlit("8");
        reveal_strlit("9");
    }
    let text = if digit == 0 {
        "0"
    } else if digit == 1 {
        "1"
    } else if digit == 2 {
        "2"
    } else if digit == 3 {
        "3"
    } else if digit == 4 {
        "4"
    } else if digit == 5 {
        "5"
    } else if digit == 6 {
        "6"
    } else if digit == 7 {
        "7"
    } else if digit == 8 {
        "8"
    } else {
        "9"
    };
    assert(text@ =~= seq![digit_char(digit as nat)]);
    text
}

/// Appends the decimal numeral of `n` to `text`.
pub fn append_decimal(text: &mut String, n: usize)
    ensures
        final(text)@ == old(text)@ + decimal_digits(n as nat),
    decreases n,
{
    if n >= 10 {
        append_decimal(text, n / 10);
    }
    text.append(digit_text(n % 10));
    proof {
        if n >= 10 {
            assert(old(text)@ + decimal_digits(n as nat / 10).push(digit_char(n as nat % 10))
                =~= old(text)@ + decimal_digits(n as nat / 10) + seq![digit_char(n as nat % 10)]);
        }
    }
}

} // verus!
