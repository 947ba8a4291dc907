//! Rendering of numbers into the characters of a display line.

use vstd::prelude::*;

verus! {

/// The sixteen hexadecimal digits, upper case, in order of value.
pub open spec fn hex_digits() -> Seq<char> {
    seq!['0', '1', '2', '3', '4', '5', '6', '7', '8', '9', 'A', 'B', 'C', 'D', 'E', 'F']
}

/// The ten decimal digits in order of value.
pub open spec fn decimal_digits() -> Seq<char> {
    seq!['0', '1', '2', '3', '4', '5', '6', '7', '8', '9']
}

/// The value of the `i`-th hexadecimal digit of `v`, counted from the most
/// significant of sixteen.
pub open spec fn nibble(v: u64, i: int) -> int {
    (v as int / pow16((15 - i) as nat)) % 16
}

/// Sixteen to the power `e`.
pub open spec fn pow16(e: nat) -> int
    decreases e,
{
    if e == 0 {
        1
    } else {
        16 * pow16((e - 1) as nat)
    }
}

/// `v` written as exactly sixteen upper-case hexadecimal digits, most
/// significant first, zero-padded.
pub open spec fn hex16(v: u64) -> Seq<char> {
    Seq::new(16, |i: int| hex_digits()[nibble(v, i)])
}

/// `n` written in decimal without leading zeros (`0` as a single digit).
pub open spec fn decimal(n: nat) -> Seq<char>
    decreases n,
{
    if n < 10 {
        seq![decimal_digits()[n as int]]
    } else {
        decimal(n / 10).push(decimal_digits()[(n % 10) as int])
    }
}

/// The code of the character `0`.
const ASCII_ZERO: u8 = 0x30;

/// The code of the character `A`.
const ASCII_UPPER_A: u8 = 0x41;

/// `String::push` of std: appends one character to the end of the string.
#[verifier::external_body]
fn push_char(out: &mut String, c: char)
    ensures
        final(out)@ == old(out)@.push(c),
{
    out.push(c)
}

/// The character of a hexadecimal digit value.
fn hex_digit(d: u8) -> (c: char)
    requires
        d < 16,
    ensures
        c == hex_digits()[d as int],
{
    if d < 10 {
        (ASCII_ZERO + d) as char
    } else {
        (ASCII_UPPER_A + (d - 10)) as char
    }
}

/// The character of a decimal digit value.
fn decimal_digit(d: u8) -> (c: char)
    requires
        d < 10,
    ensures
        c == decimal_digits()[d as int],
{
    (ASCII_ZERO + d) as char
}

/// `s` read from its last character to its first.
pub open spec fn reversed(s: Seq<char>) -> Seq<char> {
    Seq::new(s.len(), |i: int| s[s.len() - 1 - i])
}

proof fn lemma_reversed_push(s: Seq<char>, c: char)
    ensures
        reversed(s.push(c)) == seq![c] + reversed(s),
{
    assert(reversed(s.push(c)) =~= seq![c] + reversed(s));
}

proof fn lemma_pow16_positive(e: nat)
    ensures
        pow16(e) > 0,
    decreases e,
{
    if e > 0 {
        lemma_pow16_positive((e - 1) as nat);
    }
}

/// Appends to `out` the characters of `digits`, last first.
fn push_reversed(out: &mut String, digits: &Vec<char>)
    ensures
        final(out)@ == old(out)@ + reversed(digits@),
{
    let n: usize = digits.len();
    let mut i: usize = 0;
    while i < n
        invariant
            n == digits@.len(),
            i <= n,
            out@ == old(out)@ + reversed(digits@).take(i as int),
        decreases n - i,
    {
        let c: char = digits[n - 1 - i];
        push_char(out, c);
        i = i + 1;
        assert(reversed(digits@).take(i as int) =~= reversed(digits@).take(i - 1).push(c));
        assert(out@ =~= old(out)@ + reversed(digits@).take(i as int));
    }
    assert(reversed(digits@).take(n as int) =~= reversed(digits@));
}

/// Appends `v` to `out` as sixteen upper-case hexadecimal digits.
pub fn push_hex16(out: &mut String, v: u64)
    ensures
        final(out)@ == old(out)@ + hex16(v),
{
    let mut low_first: Vec<char> = Vec::new();
    let mut rest: u64 = v;
    let mut k: usize = 0;
    while k < 16
        invariant
            k <= 16,
            low_first@.len() == k,
            rest as int == v as int / pow16(k as nat),
            forall|j: int| 0 <= j < k ==> low_first@[j] == hex_digits()[nibble(v, 15 - j)],
        decreases 16 - k,
    {
        let d: u8 = (rest % 16) as u8;
        low_first.push(hex_digit(d));
        proof {
            lemma_pow16_positive(k as nat);
            vstd::arithmetic::div_mod::lemma_div_denominator(v as int, pow16(k as nat), 16);
            assert(pow16((k + 1) as nat) == 16 * pow16(k as nat));
            assert(pow16(k as nat) * 16 == 16 * pow16(k as nat));
        }
        rest = rest / 16;
        k = k + 1;
    }
    push_reversed(out, &low_first);
    assert(reversed(low_first@) =~= hex16(v));
}

/// Appends `n` to `out` in decimal.
pub fn push_decimal(out: &mut String, n: u64)
    ensures
        final(out)@ == old(out)@ + decimal(n as nat),
{
    let mut low_first: Vec<char> = Vec::new();
    let mut rest: u64 = n;
    while rest >= 10
        invariant
            decimal(n as nat) == decimal(rest as nat) + reversed(low_first@),
        decreases rest,
    {
        let c: char = decimal_digit((rest % 10) as u8);
        proof {
            lemma_reversed_push(low_first@, c);
            assert(decimal(rest as nat) == decimal(rest as nat / 10).push(c));
            assert(decimal(rest as nat / 10).push(c) + reversed(low_first@) =~= decimal(
                rest as nat / 10,
            ) + (seq![c] + reversed(low_first@)));
        }
        low_first.push(c);
        rest = rest / 10;
    }
    let c: char = decimal_digit(rest as u8);
    proof {
        lemma_reversed_push(low_first@, c);
        assert(decimal(rest as nat) =~= seq![c]);
    }
    low_first.push(c);
    push_reversed(out, &low_first);
}

} // verus!
