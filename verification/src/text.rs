//! Decimal and hexadecimal rendering of integers, with the character
//! sequences they produce stated as spec functions.

use vstd::prelude::*;

verus! {

/// The character that stands for digit `d` (lower-case above nine).
pub open spec fn digit_char(d: int) -> char {
    if d == 0 {
        '0'
    } else if d == 1 {
        '1'
    } else if d == 2 {
        '2'
    } else if d == 3 {
        '3'
    } else if d == 4 {
        '4'
    } else if d == 5 {
        '5'
    } else if d == 6 {
        '6'
    } else if d == 7 {
        '7'
    } else if d == 8 {
        '8'
    } else if d == 9 {
        '9'
    } else if d == 10 {
        'a'
    } else if d == 11 {
        'b'
    } else if d == 12 {
        'c'
    } else if d == 13 {
        'd'
    } else if d == 14 {
        'e'
    } else {
        'f'
    }
}

/// The digits of `n` written in `base`, most significant first, with no
/// leading zeros (zero itself is the single digit `0`).
pub open spec fn digits(n: nat, base: nat) -> Seq<char>
    recommends
        2 <= base <= 16,
    decreases n,
{
    if n < base || base < 2 {
        seq![digit_char(n as int)]
    } else {
        proof {
            assert(n / base < n) by (nonlinear_arith)
                requires
                    n >= base,
                    base >= 2,
            ;
        }
        digits(n / base, base).push(digit_char((n % base) as int))
    }
}

/// Decimal rendering of a natural number.
pub open spec fn dec(n: nat) -> Seq<char> {
    digits(n, 10)
}

/// Lower-case hexadecimal rendering of a natural number, without prefix.
pub open spec fn hex(n: nat) -> Seq<char> {
    digits(n, 16)
}

/// Decimal rendering of a signed integer: a minus sign before negative values.
pub open spec fn dec_int(n: int) -> Seq<char> {
    if n < 0 {
        seq!['-'] + dec((-n) as nat)
    } else {
        dec(n as nat)
    }
}

/// A value held in tenths, rendered with one decimal place (`8.0`, `-0.5`).
pub open spec fn fixed1(tenths: int) -> Seq<char> {
    let a = if tenths < 0 { -tenths } else { tenths };
    let sign = if tenths < 0 { seq!['-'] } else { Seq::<char>::empty() };
    sign + dec((a / 10) as nat) + seq!['.', digit_char(a % 10)]
}

/// A value held in hundredths, rendered with two decimal places (`0.05`).
pub open spec fn fixed2(hundredths: int) -> Seq<char> {
    let a = if hundredths < 0 { -hundredths } else { hundredths };
    let sign = if hundredths < 0 { seq!['-'] } else { Seq::<char>::empty() };
    sign + dec((a / 100) as nat) + seq!['.', digit_char((a % 100) / 10), digit_char(a % 10)]
}

/// A one-character string holding digit `d`.
pub fn digit_str(d: u64) -> (res: &'static str)
    requires
        d < 16,
    ensures
        res@ == seq![digit_char(d as int)],
{
    proof {
        reveal_strlit("0");
        reveal_strlit("1");
        reveal_strlit("2");
        reveal_strlit("3");
        reveal_strlit("4");
        reveal_strlit("5");
        reveal_strlit("6");
        reveal_strlit("7");
        reveal_strlit("8");
        reveal_strlit("9");
        reveal_strlit("a");
        reveal_strlit("b");
        reveal_strlit("c");
        reveal_strlit("d");
        reveal_strlit("e");
        reveal_strlit("f");
    }
    if d == 0 {
        "0"
    } else if d == 1 {
        "1"
    } else if d == 2 {
        "2"
    } else if d == 3 {
        "3"
    } else if d == 4 {
        "4"
    } else if d == 5 {
        "5"
    } else if d == 6 {
        "6"
    } else if d == 7 {
        "7"
    } else if d == 8 {
        "8"
    } else if d == 9 {
        "9"
    } else if d == 10 {
        "a"
    } else if d == 11 {
        "b"
    } else if d == 12 {
        "c"
    } else if d == 13 {
        "d"
    } else if d == 14 {
        "e"
    } else {
        "f"
    }
}

/// Appends the digits of `n` in `base` (10 or 16) to `s`.
pub fn push_digits(s: &mut String, n: u64, base: u64)
    requires
        base == 10 || base == 16,
    ensures
        final(s)@ == old(s)@ + digits(n as nat, base as nat),
    decreases n,
{
    if n >= base {
        push_digits(s, n / base, base);
        s.append(digit_str(n % base));
        assert(digits(n as nat, base as nat) == digits((n / base) as nat, base as nat).push(
            digit_char((n % base) as int),
        ));
        assert(final(s)@ =~= old(s)@ + digits(n as nat, base as nat));
    } else {
        s.append(digit_str(n));
        assert(final(s)@ =~= old(s)@ + digits(n as nat, base as nat));
    }
}

/// Appends the decimal rendering of `n`.
pub fn push_dec(s: &mut String, n: u64)
    ensures
        final(s)@ == old(s)@ + dec(n as nat),
{
    push_digits(s, n, 10);
}

/// Appends the lower-case hexadecimal rendering of `n`.
pub fn push_hex(s: &mut String, n: u64)
    ensures
        final(s)@ == old(s)@ + hex(n as nat),
{
    push_digits(s, n, 16);
}

/// Appends the decimal rendering of a signed value.
pub fn push_i32(s: &mut String, n: i32)
    ensures
        final(s)@ == old(s)@ + dec_int(n as int),
{
    if n < 0 {
        proof {
            reveal_strlit("-");
        }
        s.append("-");
        let a: i64 = -(n as i64);
        push_dec(s, a as u64);
        assert(final(s)@ =~= old(s)@ + dec_int(n as int));
    } else {
        push_dec(s, n as u64);
    }
}

/// Appends a value held in tenths with one decimal place.
pub fn push_fixed1(s: &mut String, tenths: i32)
    ensures
        final(s)@ == old(s)@ + fixed1(tenths as int),
{
    proof {
        reveal_strlit("-");
        reveal_strlit(".");
    }
    let a: i64 = if tenths < 0 { -(tenths as i64) } else { tenths as i64 };
    if tenths < 0 {
        s.append("-");
    }
    push_dec(s, (a / 10) as u64);
    s.append(".");
    s.append(digit_str((a % 10) as u64));
    assert(final(s)@ =~= old(s)@ + fixed1(tenths as int));
}

/// Appends a value held in hundredths with two decimal places.
pub fn push_fixed2(s: &mut String, hundredths: i32)
    ensures
        final(s)@ == old(s)@ + fixed2(hundredths as int),
{
    proof {
        reveal_strlit("-");
        reveal_strlit(".");
    }
    let a: i64 = if hundredths < 0 { -(hundredths as i64) } else { hundredths as i64 };
    if hundredths < 0 {
        s.append("-");
    }
    push_dec(s, (a / 100) as u64);
    s.append(".");
    s.append(digit_str(((a % 100) / 10) as u64));
    s.append(digit_str((a % 10) as u64));
    assert(final(s)@ =~= old(s)@ + fixed2(hundredths as int));
}

/// The decimal rendering of a signed value as a new string.
pub fn i32_to_string(n: i32) -> (res: String)
    ensures
        res@ == dec_int(n as int),
{
    let mut s = String::new();
    push_i32(&mut s, n);
    assert(s@ =~= dec_int(n as int));
    s
}

/// The value of a digit character (lower-case above nine).
pub open spec fn digit_value(c: char) -> int {
    if c == '0' {
        0
    } else if c == '1' {
        1
    } else if c == '2' {
        2
    } else if c == '3' {
        3
    } else if c == '4' {
        4
    } else if c == '5' {
        5
    } else if c == '6' {
        6
    } else if c == '7' {
        7
    } else if c == '8' {
        8
    } else if c == '9' {
        9
    } else if c == 'a' {
        10
    } else if c == 'b' {
        11
    } else if c == 'c' {
        12
    } else if c == 'd' {
        13
    } else if c == 'e' {
        14
    } else {
        15
    }
}

/// The number a digit string stands for in `base`.
pub open spec fn value_of(s: Seq<char>, base: int) -> int
    decreases s.len(),
{
    if s.len() == 0 {
        0
    } else {
        value_of(s.drop_last(), base) * base + digit_value(s.last())
    }
}

/// Reading a rendering back gives the number rendered: the digits are the
/// usual positional notation in the base.
pub proof fn law_digits_read_back(n: nat, base: nat)
    requires
        2 <= base <= 16,
    ensures
        value_of(digits(n, base), base as int) == n,
    decreases n,
{
    if n < base {
        let d = digits(n, base);
        assert(d =~= seq![digit_char(n as int)]);
        assert(d.drop_last() =~= Seq::<char>::empty());
        assert(value_of(d.drop_last(), base as int) == 0);
        assert(digit_value(d.last()) == n);
        assert(value_of(d, base as int) == 0 * base + n);
    } else {
        assert(n / base < n) by (nonlinear_arith)
            requires
                n >= base,
                base >= 2,
        ;
        law_digits_read_back(n / base, base);
        let d = digits(n, base);
        assert(d.drop_last() =~= digits(n / base, base));
        assert(0 <= n % base < base) by (nonlinear_arith)
            requires
                base >= 2,
        ;
        vstd::arithmetic::div_mod::lemma_fundamental_div_mod(n as int, base as int);
        assert(value_of(d, base as int) == (n / base) * base + n % base) by (nonlinear_arith)
            requires
                value_of(d, base as int) == value_of(d.drop_last(), base as int) * base
                    + digit_value(d.last()),
                value_of(d.drop_last(), base as int) == n / base,
                digit_value(d.last()) == n % base,
        ;
        assert((n / base) * base + n % base == n) by (nonlinear_arith)
            requires
                n == base * (n / base) + n % base,
        ;
    }
}

} // verus!
