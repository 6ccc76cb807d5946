//! Decimal numerals as sequences of characters, and the executable code that
//! appends them to a `String`.

use vstd::prelude::*;

verus! {

/// The character that stands for the decimal digit `d`.
pub open spec fn digit_char(d: int) -> char
    recommends
        0 <= d < 10,
{
    (48 + d) as char
}

/// The decimal numeral of `n`: most significant digit first, no sign, no
/// padding, and the single digit `0` for zero.
pub open spec fn decimal(n: nat) -> Seq<char>
    decreases n,
{
    if n < 10 {
        seq![digit_char(n as int)]
    } else {
        decimal(n / 10).push(digit_char((n % 10) as int))
    }
}

/// `String::push` appends the given character to the end of the string and
/// leaves the characters before it as they were.
pub assume_specification[ String::push ](s: &mut String, c: char)
    ensures
        final(s)@ == old(s)@.push(c),
;

/// A numeral has at least one digit, and one digit more than the numeral of
/// a tenth of the number once the number has two digits.
pub proof fn lemma_decimal_len(n: nat)
    ensures
        decimal(n).len() >= 1,
        n < 10 ==> decimal(n).len() == 1,
        n >= 10 ==> decimal(n).len() == decimal(n / 10).len() + 1,
    decreases n,
{
    if n >= 10 {
        lemma_decimal_len(n / 10);
    }
}

/// Every character of a numeral is one of the ten digits.
pub proof fn lemma_decimal_digits(n: nat, i: int)
    requires
        0 <= i < decimal(n).len(),
    ensures
        '0' <= decimal(n)[i] <= '9',
    decreases n,
{
    if n >= 10 {
        lemma_decimal_len(n);
        if i < decimal(n / 10).len() {
            lemma_decimal_digits(n / 10, i);
        }
    }
}

/// The character for one decimal digit.
pub fn digit_to_char(d: u8) -> (c: char)
    requires
        d < 10,
    ensures
        c == digit_char(d as int),
{
    (48u8 + d) as char
}

/// Appends the decimal numeral of `n` to `s`.
pub fn push_decimal(s: &mut String, n: u128)
    ensures
        final(s)@ == old(s)@ + decimal(n as nat),
    decreases n,
{
    if n >= 10 {
        push_decimal(s, n / 10);
    }
    s.push(digit_to_char((n % 10) as u8));
    proof {
        let last = digit_char((n % 10) as int);
        if n >= 10 {
            assert((old(s)@ + decimal((n / 10) as nat)).push(last) =~= old(s)@ + decimal(
                n as nat,
            ));
        } else {
            assert(old(s)@.push(last) =~= old(s)@ + decimal(n as nat));
        }
    }
}

/// Ten to the power `k`.
pub open spec fn pow10(k: nat) -> nat
    decreases k,
{
    if k == 0 {
        1
    } else {
        10 * pow10((k - 1) as nat)
    }
}

/// A number below ten to the power `k` has a numeral of at most `k` digits.
pub proof fn lemma_decimal_len_bound(n: nat, k: nat)
    requires
        k >= 1,
        n < pow10(k),
    ensures
        decimal(n).len() <= k,
    decreases n,
{
    if n >= 10 {
        assert(pow10(1) == 10) by {
            reveal_with_fuel(pow10, 2);
        }
        assert(k >= 2);
        lemma_decimal_len_bound(n / 10, (k - 1) as nat);
    }
}

/// The numeral of a 128-bit number has at most 39 digits, and that of a
/// 64-bit number at most 20.
pub proof fn lemma_decimal_len_machine(n: nat)
    ensures
        n <= u128::MAX ==> decimal(n).len() <= 39,
        n <= u64::MAX ==> decimal(n).len() <= 20,
{
    reveal_with_fuel(pow10, 40);
    if n <= u128::MAX {
        lemma_decimal_len_bound(n, 39);
    }
    if n <= u64::MAX {
        lemma_decimal_len_bound(n, 20);
    }
}

/// The number of digits in the decimal numeral of `n`.
pub fn decimal_len(n: u128) -> (len: usize)
    ensures
        len == decimal(n as nat).len(),
        1 <= len <= 39,
{
    let mut len: usize = 1;
    let mut rest: u128 = n;
    proof {
        lemma_decimal_len_machine(n as nat);
        lemma_decimal_len(n as nat);
    }
    while rest >= 10
        invariant
            len >= 1,
            decimal(n as nat).len() <= 39,
            len + decimal(rest as nat).len() == decimal(n as nat).len() + 1,
        decreases rest,
    {
        proof {
            lemma_decimal_len(rest as nat);
            lemma_decimal_len((rest / 10) as nat);
        }
        rest = rest / 10;
        len = len + 1;
    }
    proof {
        lemma_decimal_len(rest as nat);
    }
    len
}

} // verus!
