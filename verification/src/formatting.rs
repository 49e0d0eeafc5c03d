//! Rendering of byte counts with binary unit prefixes.
//!
//! A count is scaled down by factors of 1024 until it is below 1024 (or the
//! largest supported prefix is reached) and printed with one digit after the
//! decimal point, except for the unscaled "bytes" unit, which is printed as a
//! plain integer.

use vstd::prelude::*;
use vstd::string::StringExecFns;

verus! {

/// The scale factor of the binary unit prefix with index `i`: 1024^i.
pub open spec fn pow1024(i: nat) -> nat
    decreases i,
{
    if i == 0 {
        1
    } else {
        1024 * pow1024((i - 1) as nat)
    }
}

/// The index of the binary unit prefix under which `b` bytes are rendered:
/// the number of times `b` can be divided by 1024 before dropping below 1024.
pub open spec fn unit_index(b: nat) -> nat
    decreases b,
{
    if b < 1024 {
        0
    } else {
        1 + unit_index(b / 1024)
    }
}

/// The name of the binary unit with index `i` (meaningful for `i <= 6`;
/// the largest 64-bit count scales down to EiB).
pub open spec fn unit_name(i: nat) -> Seq<char> {
    if i == 0 {
        "bytes"@
    } else if i == 1 {
        "KiB"@
    } else if i == 2 {
        "MiB"@
    } else if i == 3 {
        "GiB"@
    } else if i == 4 {
        "TiB"@
    } else if i == 5 {
        "PiB"@
    } else {
        "EiB"@
    }
}

/// The character for the decimal digit `d` (meaningful for `d < 10`).
pub open spec fn digit_char(d: nat) -> char {
    if d == 0 {
        '0'
    } else if d == 1 {
        '1'
    } else if d == 2 {
        '2'
    } else if d == 3 {
        '3'
    } else if d == 4 {
        '4'
    } else if d == 5 {
        '5'
    } else if d == 6 {
        '6'
    } else if d == 7 {
        '7'
    } else if d == 8 {
        '8'
    } else {
        '9'
    }
}

/// The decimal digits of `n`, most significant first, without leading zeros
/// (except for `n == 0`, which is the single digit "0").
pub open spec fn decimal_digits(n: nat) -> Seq<char>
    decreases n,
{
    if n < 10 {
        seq![digit_char(n)]
    } else {
        decimal_digits(n / 10) + seq![digit_char(n % 10)]
    }
}

/// `b / 1024^i`, rounded to one decimal place with ties going to the even
/// digit, expressed in tenths.
pub open spec fn scaled_tenths(b: nat, i: nat) -> nat {
    let d = pow1024(i);
    let q = (10 * b) / d;
    let r = (10 * b) % d;
    if 2 * r > d || (2 * r == d && q % 2 == 1) {
        q + 1
    } else {
        q
    }
}

/// The rendering of `b` bytes: the plain digits and " bytes" when `b < 1024`,
/// otherwise the scaled value with one decimal digit and the unit name.
pub open spec fn format_bytes_spec(b: u64) -> Seq<char> {
    let i = unit_index(b as nat);
    if i == 0 {
        decimal_digits(b as nat) + " bytes"@
    } else {
        let t = scaled_tenths(b as nat, i);
        decimal_digits(t / 10) + "."@ + decimal_digits(t % 10) + " "@ + unit_name(i)
    }
}

proof fn lemma_pow1024_values()
    ensures
        pow1024(0) == 1,
        pow1024(1) == 1024,
        pow1024(2) == 0x100000,
        pow1024(3) == 0x40000000,
        pow1024(4) == 0x10000000000,
        pow1024(5) == 0x4000000000000,
        pow1024(6) == 0x1000000000000000,
{
    assert(pow1024(0) == 1);
    assert(pow1024(1) == 1024);
    assert(pow1024(2) == 0x100000);
    assert(pow1024(3) == 0x40000000);
    assert(pow1024(4) == 0x10000000000);
    assert(pow1024(5) == 0x4000000000000);
    assert(pow1024(6) == 0x1000000000000000);
}

proof fn lemma_pow1024_pos(i: nat)
    ensures
        pow1024(i) >= 1,
    decreases i,
{
    if i > 0 {
        lemma_pow1024_pos((i - 1) as nat);
    }
}

proof fn lemma_pow1024_monotone(i: nat, j: nat)
    requires
        i <= j,
    ensures
        pow1024(i) <= pow1024(j),
        pow1024(i) >= 1,
    decreases j,
{
    lemma_pow1024_pos(i);
    if i < j {
        lemma_pow1024_monotone(i, (j - 1) as nat);
        lemma_pow1024_pos((j - 1) as nat);
    }
}

/// One character of `"0123456789"`, as a string slice.
fn digit_str(d: u64) -> (r: &'static str)
    requires
        d < 10,
    ensures
        r@ == seq![digit_char(d as nat)],
{
    proof {
        reveal_strlit("0");
        reveal_strlit("1");
        reveal_strlit("2");
        reveal_strlit("3");
        reveal_strlit("4");
        reveal_strlit("5");
        reveal_strlit("6");
        reveal_strlit("7");
        reveal_strlit("8");
        reveal_strlit("9");
    }
    let r: &'static str = if d == 0 {
        "0"
    } else if d == 1 {
        "1"
    } else if d == 2 {
        "2"
    } else if d == 3 {
        "3"
    } else if d == 4 {
        "4"
    } else if d == 5 {
        "5"
    } else if d == 6 {
        "6"
    } else if d == 7 {
        "7"
    } else if d == 8 {
        "8"
    } else {
        "9"
    };
    proof {
        assert(r@ =~= seq![digit_char(d as nat)]);
    }
    r
}

/// Appends the decimal digits of `n` to `s`.
fn push_decimal(s: &mut String, n: u64)
    ensures
        final(s)@ == old(s)@ + decimal_digits(n as nat),
    decreases n,
{
    if n >= 10 {
        push_decimal(s, n / 10);
    }
    let d: u64 = n % 10;
    s.append(digit_str(d));
    proof {
        if n >= 10 {
            assert(final(s)@ =~= old(s)@ + decimal_digits(n as nat));
        } else {
            assert(decimal_digits(n as nat) == seq![digit_char(n as nat)]);
            assert(final(s)@ =~= old(s)@ + decimal_digits(n as nat));
        }
    }
}

/// The name of the binary unit with index `i`.
fn unit_str(i: usize) -> (r: &'static str)
    requires
        1 <= i <= 6,
    ensures
        r@ == unit_name(i as nat),
{
    if i == 1 {
        "KiB"
    } else if i == 2 {
        "MiB"
    } else if i == 3 {
        "GiB"
    } else if i == 4 {
        "TiB"
    } else if i == 5 {
        "PiB"
    } else {
        "EiB"
    }
}

/// Renders a byte count scaled down to the fitting binary unit prefix with
/// one digit after the decimal point; counts below 1024 are rendered as a
/// plain integer with the unscaled "bytes" unit. For example, 1130 gives
/// "1.1 KiB".
pub fn format_bytes_written(bytes: u64) -> (r: String)
    ensures
        r@ == format_bytes_spec(bytes),
{
    let mut scaled: u64 = bytes;
    let mut divisor: u64 = 1;
    let mut i: usize = 0;
    while scaled >= 1024 && i < 6
        invariant
            i <= 6,
            divisor == pow1024(i as nat),
            scaled as nat == bytes as nat / pow1024(i as nat),
            unit_index(bytes as nat) == i + unit_index(scaled as nat),
        decreases scaled,
    {
        proof {
            lemma_pow1024_monotone(i as nat, 5);
            lemma_pow1024_values();
            assert(pow1024(i as nat + 1) == 1024 * pow1024(i as nat)) by {
                assert(pow1024((i + 1) as nat) == 1024 * pow1024(((i + 1) - 1) as nat));
            }
            vstd::arithmetic::div_mod::lemma_div_denominator(
                bytes as int,
                pow1024(i as nat) as int,
                1024,
            );
            assert(unit_index(scaled as nat) == 1 + unit_index(scaled as nat / 1024));
        }
        scaled = scaled / 1024;
        divisor = divisor * 1024;
        i = i + 1;
    }
    proof {
        lemma_pow1024_values();
        if i == 6 {
            // Even the largest 64-bit count scales down to under 16 EiB.
            vstd::arithmetic::div_mod::lemma_multiply_divide_lt(
                bytes as int,
                pow1024(6) as int,
                16,
            );
        }
        assert(scaled < 1024);
        assert(unit_index(scaled as nat) == 0);
        assert(unit_index(bytes as nat) == i as nat);
    }
    let mut s = String::new();
    if i == 0 {
        push_decimal(&mut s, bytes);
        s.append(" bytes");
        proof {
            assert(s@ =~= format_bytes_spec(bytes));
        }
    } else {
        let prod: u128 = (bytes as u128) * 10;
        let d128: u128 = divisor as u128;
        let q: u128 = prod / d128;
        let rem: u128 = prod % d128;
        let round_up: bool = 2 * rem > d128 || (2 * rem == d128 && q % 2 == 1);
        let t128: u128 = if round_up {
            q + 1
        } else {
            q
        };
        proof {
            assert(d128 >= 1024);
            assert(q < 0x8000000000000000) by {
                assert(prod < d128 * 0x8000000000000000) by (nonlinear_arith)
                    requires
                        d128 >= 1024,
                        prod < 0xA0000000000000000,
                ;
                vstd::arithmetic::div_mod::lemma_multiply_divide_lt(
                    prod as int,
                    d128 as int,
                    0x8000000000000000,
                );
            }
            assert(t128 as nat == scaled_tenths(bytes as nat, i as nat));
        }
        let t: u64 = t128 as u64;
        push_decimal(&mut s, t / 10);
        s.append(".");
        push_decimal(&mut s, t % 10);
        s.append(" ");
        s.append(unit_str(i));
        proof {
            assert(s@ =~= format_bytes_spec(bytes));
        }
    }
    s
}

} // verus!
