//! Rendering integers as text: signed decimal, and fixed-width lower-case
//! hexadecimal with a `0x` prefix.

use vstd::prelude::*;
use vstd::string::StrSliceExecFns;

verus! {

/// The character of digit `d` in base 16, lower case (`0`-`9`, `a`-`f`).
pub open spec fn digit_char(d: int) -> char
    recommends
        0 <= d < 16,
{
    if d < 10 {
        (48 + d) as char
    } else {
        (87 + d) as char
    }
}

/// The decimal digits of `n`, most significant first, without leading zeros
/// (`0` is the single digit `0`).
pub open spec fn decimal_digits(n: nat) -> Seq<char>
    decreases n,
{
    if n < 10 {
        seq![digit_char(n as int)]
    } else {
        decimal_digits(n / 10).push(digit_char((n % 10) as int))
    }
}

/// The decimal text of `v`, with a leading `-` when it is negative.
pub open spec fn decimal(v: int) -> Seq<char> {
    if v < 0 {
        seq!['-'] + decimal_digits((-v) as nat)
    } else {
        decimal_digits(v as nat)
    }
}

/// The last `width` hexadecimal digits of `n`, most significant first,
/// padded with zeros.
pub open spec fn hex_digits(n: nat, width: nat) -> Seq<char>
    decreases width,
{
    if width == 0 {
        Seq::empty()
    } else {
        hex_digits(n / 16, (width - 1) as nat).push(digit_char((n % 16) as int))
    }
}

/// The hexadecimal digits of `n`, most significant first, without leading
/// zeros (`0` is the single digit `0`).
pub open spec fn hex_min_digits(n: nat) -> Seq<char>
    decreases n,
{
    if n < 16 {
        seq![digit_char(n as int)]
    } else {
        hex_min_digits(n / 16).push(digit_char((n % 16) as int))
    }
}

/// `v` as `0x` followed by exactly sixteen lower-case hexadecimal digits.
pub open spec fn hex_u64(v: u64) -> Seq<char> {
    seq!['0', 'x'] + hex_digits(v as nat, 16)
}

/// The value of a decimal or lower-case hexadecimal digit character, or `-1`
/// for any other character.
pub open spec fn digit_value(c: char) -> int {
    if 48 <= c as int <= 57 {
        c as int - 48
    } else if 97 <= c as int <= 102 {
        c as int - 87
    } else {
        -1
    }
}

/// Whether every character of `s` is a digit below `base`.
pub open spec fn all_digits_below(s: Seq<char>, base: int) -> bool {
    forall|i: int| 0 <= i < s.len() ==> 0 <= #[trigger] digit_value(s[i]) < base
}

/// The number that the digits `s` write in `base`, most significant first.
pub open spec fn value_in_base(s: Seq<char>, base: int) -> int
    decreases s.len(),
{
    if s.len() == 0 {
        0
    } else {
        value_in_base(s.drop_last(), base) * base + digit_value(s.last())
    }
}

/// Each digit character is read back as the digit it was written for, and
/// the hexadecimal digits above nine are the lower-case letters.
pub proof fn lemma_digit_reads_back(d: int)
    requires
        0 <= d < 16,
    ensures
        digit_value(digit_char(d)) == d,
        d < 10 ==> 48 <= digit_char(d) as int <= 57,
        d >= 10 ==> 97 <= digit_char(d) as int <= 102,
{
}

/// The decimal text of `n` reads back as `n`: it is made of decimal digits
/// only, their value in base ten is `n`, and it starts with a zero only when
/// `n` is zero.
pub proof fn lemma_decimal_reads_back(n: nat)
    ensures
        decimal_digits(n).len() >= 1,
        all_digits_below(decimal_digits(n), 10),
        value_in_base(decimal_digits(n), 10) == n,
        decimal_digits(n)[0] == '0' ==> n == 0,
    decreases n,
{
    lemma_digit_reads_back((n % 10) as int);
    if n >= 10 {
        lemma_decimal_reads_back(n / 10);
        let s = decimal_digits(n);
        assert(s.drop_last() =~= decimal_digits(n / 10));
        assert(s[0] == decimal_digits(n / 10)[0]);
        assert(s.last() == digit_char((n % 10) as int));
        vstd::arithmetic::div_mod::lemma_fundamental_div_mod(n as int, 10);
        assert(value_in_base(s, 10) == value_in_base(s.drop_last(), 10) * 10 + digit_value(s.last()));
    } else {
        lemma_digit_reads_back(n as int);
        let s = decimal_digits(n);
        assert(s.drop_last() =~= Seq::<char>::empty());
        assert(value_in_base(s, 10) == value_in_base(s.drop_last(), 10) * 10 + digit_value(s.last()));
    }
}

/// The signed decimal text of `v` is its digits, with a leading `-` exactly
/// when `v` is negative, and those digits read back as `|v|`.
pub proof fn lemma_signed_decimal_reads_back(v: int)
    ensures
        v < 0 ==> decimal(v)[0] == '-' && decimal(v).drop_first() == decimal_digits((-v) as nat)
            && value_in_base(decimal(v).drop_first(), 10) == -v,
        v >= 0 ==> decimal(v) == decimal_digits(v as nat) && value_in_base(decimal(v), 10) == v,
{
    if v < 0 {
        lemma_decimal_reads_back((-v) as nat);
        assert(decimal(v).drop_first() =~= decimal_digits((-v) as nat));
    } else {
        lemma_decimal_reads_back(v as nat);
    }
}

/// The fixed-width hexadecimal text of `n` has exactly `width` lower-case
/// hexadecimal digits, and they read back as `n` modulo `16^width`.
pub proof fn lemma_hex_reads_back(n: nat, width: nat)
    ensures
        hex_digits(n, width).len() == width,
        all_digits_below(hex_digits(n, width), 16),
        value_in_base(hex_digits(n, width), 16) == (n as int) % vstd::arithmetic::power::pow(16, width),
    decreases width,
{
    vstd::arithmetic::power::lemma_pow0(16);
    if width > 0 {
        lemma_hex_reads_back(n / 16, (width - 1) as nat);
        lemma_digit_reads_back((n % 16) as int);
        let s = hex_digits(n, width);
        assert(s.drop_last() =~= hex_digits(n / 16, (width - 1) as nat));
        let p = vstd::arithmetic::power::pow(16, (width - 1) as nat);
        vstd::arithmetic::power::lemma_pow_positive(16, (width - 1) as nat);
        vstd::arithmetic::power::lemma_pow_adds(16, (width - 1) as nat, 1);
        vstd::arithmetic::power::lemma_pow1(16);
        assert(vstd::arithmetic::power::pow(16, width) == p * 16);
        lemma_mod_split(n as int, p);
    } else {
        assert(n % 1 == 0);
    }
}

/// `(n / 16) % p * 16 + n % 16 == n % (16 * p)`.
proof fn lemma_mod_split(n: int, p: int)
    requires
        n >= 0,
        p > 0,
    ensures
        ((n / 16) % p) * 16 + n % 16 == n % (p * 16),
{
    let q = n / 16;
    let r = n % 16;
    vstd::arithmetic::div_mod::lemma_fundamental_div_mod(n, 16);
    vstd::arithmetic::div_mod::lemma_fundamental_div_mod(q, p);
    let a = q / p;
    let b = q % p;
    assert(n == 16 * q + r);
    assert(q == p * a + b);
    assert(n == a * (p * 16) + (b * 16 + r)) by (nonlinear_arith)
        requires
            n == 16 * q + r,
            q == p * a + b,
    ;
    assert(0 <= b * 16 + r < p * 16) by (nonlinear_arith)
        requires
            0 <= b < p,
            0 <= r < 16,
    ;
    vstd::arithmetic::div_mod::lemma_fundamental_div_mod_converse(n, p * 16, a, b * 16 + r);
}

/// `0x` and sixteen digits read back as the 64-bit value itself.
pub proof fn lemma_hex_u64_reads_back(v: u64)
    ensures
        hex_u64(v).len() == 18,
        hex_u64(v)[0] == '0' && hex_u64(v)[1] == 'x',
        hex_u64(v).subrange(2, 18) == hex_digits(v as nat, 16),
        value_in_base(hex_u64(v).subrange(2, 18), 16) == v,
{
    lemma_hex_reads_back(v as nat, 16);
    assert(hex_u64(v).subrange(2, 18) =~= hex_digits(v as nat, 16));
    vstd::arithmetic::power2::lemma2_to64_rest();
    vstd::arithmetic::power::lemma_pow_adds(16, 8, 8);
    lemma_pow16_16();
}

/// `16^16 == 2^64`.
proof fn lemma_pow16_16()
    ensures
        vstd::arithmetic::power::pow(16, 16) == 0x1_0000_0000_0000_0000,
{
    reveal_with_fuel(vstd::arithmetic::power::pow, 17);
}

/// The shortest hexadecimal text of `n` reads back as `n` and starts with a
/// zero only when `n` is zero.
pub proof fn lemma_hex_min_reads_back(n: nat)
    ensures
        hex_min_digits(n).len() >= 1,
        all_digits_below(hex_min_digits(n), 16),
        value_in_base(hex_min_digits(n), 16) == n,
        hex_min_digits(n)[0] == '0' ==> n == 0,
    decreases n,
{
    lemma_digit_reads_back((n % 16) as int);
    if n >= 16 {
        lemma_hex_min_reads_back(n / 16);
        let s = hex_min_digits(n);
        assert(s.drop_last() =~= hex_min_digits(n / 16));
        assert(s[0] == hex_min_digits(n / 16)[0]);
        assert(s.last() == digit_char((n % 16) as int));
        vstd::arithmetic::div_mod::lemma_fundamental_div_mod(n as int, 16);
        assert(value_in_base(s, 16) == value_in_base(s.drop_last(), 16) * 16 + digit_value(s.last()));
    } else {
        let s = hex_min_digits(n);
        assert(s.drop_last() =~= Seq::<char>::empty());
        assert(value_in_base(s, 16) == value_in_base(s.drop_last(), 16) * 16 + digit_value(s.last()));
    }
}

/// The one-character text of digit `d`.
fn digit_str(d: u64) -> (r: &'static str)
    requires
        d < 16,
    ensures
        r@ == seq![digit_char(d as int)],
{
    match d {
        0 => {
            proof { reveal_strlit("0"); }
            "0"
        },
        1 => {
            proof { reveal_strlit("1"); }
            "1"
        },
        2 => {
            proof { reveal_strlit("2"); }
            "2"
        },
        3 => {
            proof { reveal_strlit("3"); }
            "3"
        },
        4 => {
            proof { reveal_strlit("4"); }
            "4"
        },
        5 => {
            proof { reveal_strlit("5"); }
            "5"
        },
        6 => {
            proof { reveal_strlit("6"); }
            "6"
        },
        7 => {
            proof { reveal_strlit("7"); }
            "7"
        },
        8 => {
            proof { reveal_strlit("8"); }
            "8"
        },
        9 => {
            proof { reveal_strlit("9"); }
            "9"
        },
        10 => {
            proof { reveal_strlit("a"); }
            "a"
        },
        11 => {
            proof { reveal_strlit("b"); }
            "b"
        },
        12 => {
            proof { reveal_strlit("c"); }
            "c"
        },
        13 => {
            proof { reveal_strlit("d"); }
            "d"
        },
        14 => {
            proof { reveal_strlit("e"); }
            "e"
        },
        _ => {
            proof { reveal_strlit("f"); }
            "f"
        },
    }
}

/// Append the decimal digits of `n` to `out`.
fn push_decimal_digits(out: &mut String, n: u64)
    ensures
        final(out)@ == old(out)@ + decimal_digits(n as nat),
    decreases n,
{
    if n >= 10 {
        push_decimal_digits(out, n / 10);
    }
    out.append(digit_str(n % 10));
}

/// Append the decimal text of `v` to `out`.
pub(crate) fn push_decimal(out: &mut String, v: i64)
    ensures
        final(out)@ == old(out)@ + decimal(v as int),
{
    if v < 0 {
        proof { reveal_strlit("-"); }
        out.append("-");
        let magnitude: u64 = if v == i64::MIN {
            9_223_372_036_854_775_808u64
        } else {
            (-v) as u64
        };
        push_decimal_digits(out, magnitude);
    } else {
        push_decimal_digits(out, v as u64);
    }
}

/// Append the last `width` hexadecimal digits of `n`, zero padded.
fn push_hex_digits(out: &mut String, n: u64, width: u64)
    ensures
        final(out)@ == old(out)@ + hex_digits(n as nat, width as nat),
    decreases width,
{
    if width > 0 {
        push_hex_digits(out, n / 16, width - 1);
        out.append(digit_str(n % 16));
    }
}

/// Append the lower-case hexadecimal digits of `n`, without leading zeros.
pub(crate) fn push_hex_min(out: &mut String, n: u64)
    ensures
        final(out)@ == old(out)@ + hex_min_digits(n as nat),
    decreases n,
{
    if n >= 16 {
        push_hex_min(out, n / 16);
    }
    out.append(digit_str(n % 16));
}

/// Append `v` as `0x` and sixteen lower-case hexadecimal digits.
pub(crate) fn push_hex_u64(out: &mut String, v: u64)
    ensures
        final(out)@ == old(out)@ + hex_u64(v),
{
    proof { reveal_strlit("0x"); }
    out.append("0x");
    push_hex_digits(out, v, 16);
}

/// Whether two texts hold the same characters.
pub(crate) fn same_text(a: &str, b: &str) -> (r: bool)
    ensures
        r == (a@ == b@),
{
    let n = a.unicode_len();
    if n != b.unicode_len() {
        return false;
    }
    let mut i: usize = 0;
    while i < n
        invariant
            n == a@.len(),
            n == b@.len(),
            i <= n,
            forall|j: int| 0 <= j < i ==> a@[j] == b@[j],
        decreases n - i,
    {
        if a.get_char(i) != b.get_char(i) {
            return false;
        }
        i = i + 1;
    }
    assert(a@ =~= b@);
    true
}

} // verus!
