//! Rendering of amounts held in billionths (nano-units) as decimal text.

use vstd::prelude::*;
use crate::text::{dec, digit_char, push_char, push_dec, push_dec_u128};

verus! {

/// One unit in billionths.
pub const NANOS: u64 = 1_000_000_000;

/// `10` to the power `w`.
pub open spec fn pow10(w: nat) -> nat
    decreases w,
{
    if w == 0 {
        1
    } else {
        10 * pow10((w - 1) as nat)
    }
}

/// The last `width` decimal digits of `n`, zero-padded.
pub open spec fn pad_digits(n: nat, width: nat) -> Seq<char>
    decreases width,
{
    if width == 0 {
        Seq::empty()
    } else {
        pad_digits(n / 10, (width - 1) as nat).push(digit_char(n % 10))
    }
}

/// `s` without its trailing `'0'` characters.
pub open spec fn trim_zeros(s: Seq<char>) -> Seq<char>
    decreases s.len(),
{
    if s.len() > 0 && s.last() == '0' {
        trim_zeros(s.drop_last())
    } else {
        s
    }
}

/// The shortest plain decimal text of `x` billionths: the whole part, then the
/// fractional digits without trailing zeros (none for a whole number).
pub open spec fn plain_nanos(x: int) -> Seq<char> {
    let a: nat = if x < 0 {
        (-x) as nat
    } else {
        x as nat
    };
    let sign = if x < 0 {
        seq!['-']
    } else {
        Seq::empty()
    };
    let frac: nat = a % 1_000_000_000;
    sign + dec(a / 1_000_000_000) + if frac == 0 {
        Seq::<char>::empty()
    } else {
        seq!['.'] + trim_zeros(pad_digits(frac, 9))
    }
}

/// `x` divided by `unit`, rounded to the nearest whole number, an exact tie going to
/// the even neighbour (as `format!` rounds an exactly representable tie).
pub open spec fn round_even(x: nat, unit: nat) -> nat {
    let q: nat = x / unit;
    let r: nat = x % unit;
    if 2 * r > unit || (2 * r == unit && q % 2 == 1) {
        q + 1
    } else {
        q
    }
}

/// `x` divided by `unit`, rounded half to even.
fn round_even_u128(x: u128, unit: u128) -> (r: u128)
    requires
        unit >= 2,
    ensures
        r == round_even(x as nat, unit as nat),
{
    let q = x / unit;
    let m = x % unit;
    assert(q < u128::MAX) by (nonlinear_arith)
        requires
            unit >= 2,
            q == x / unit,
            x <= u128::MAX,
    ;
    if m > unit - m || (m == unit - m && q % 2 == 1) {
        q + 1
    } else {
        q
    }
}

/// `x` billionths rounded (half to even) to one decimal place, as text.
pub open spec fn one_decimal(x: nat) -> Seq<char> {
    let t: nat = round_even(x, 100_000_000);
    dec(t / 10) + seq!['.', digit_char(t % 10)]
}

/// `x` billionths rounded (half to even) to a whole number, as text.
pub open spec fn whole_rounded(x: nat) -> Seq<char> {
    dec(round_even(x, 1_000_000_000))
}

fn push_pad_digits(s: &mut String, n: u64, width: u64)
    ensures
        final(s)@ == old(s)@ + pad_digits(n as nat, width as nat),
    decreases width,
{
    if width == 0 {
        assert(old(s)@ + Seq::<char>::empty() =~= old(s)@);
    } else {
        push_pad_digits(s, n / 10, width - 1);
        let d = n % 10;
        let c = if d == 0 {
            '0'
        } else if d == 1 {
            '1'
        } else if d == 2 {
            '2'
        } else if d == 3 {
            '3'
        } else if d == 4 {
            '4'
        } else if d == 5 {
            '5'
        } else if d == 6 {
            '6'
        } else if d == 7 {
            '7'
        } else if d == 8 {
            '8'
        } else {
            '9'
        };
        push_char(s, c);
        assert(old(s)@ + pad_digits((n / 10) as nat, (width - 1) as nat) + seq![c] =~= old(s)@
            + pad_digits(n as nat, width as nat));
    }
}

proof fn lemma_digit_zero(d: nat)
    requires
        d < 10,
    ensures
        (digit_char(d) == '0') == (d == 0),
{
}

proof fn lemma_trim_step(n: nat, width: nat)
    requires
        width > 0,
        n % 10 == 0,
    ensures
        trim_zeros(pad_digits(n, width)) == trim_zeros(pad_digits(n / 10, (width - 1) as nat)),
{
    let p = pad_digits(n, width);
    assert(p.last() == '0');
    assert(p.drop_last() =~= pad_digits(n / 10, (width - 1) as nat));
}

proof fn lemma_trim_stop(n: nat, width: nat)
    requires
        width > 0,
        n % 10 != 0,
    ensures
        trim_zeros(pad_digits(n, width)) == pad_digits(n, width),
{
    lemma_digit_zero(n % 10);
}

/// Appends the plain decimal text of `x` billionths.
pub fn push_plain_nanos(s: &mut String, x: i128)
    ensures
        final(s)@ == old(s)@ + plain_nanos(x as int),
{
    let a: u128 = if x < 0 {
        ((-(x + 1)) as u128) + 1
    } else {
        x as u128
    };
    if x < 0 {
        push_char(s, '-');
    }
    let ghost after_sign = s@;
    let whole: u128 = a / 1_000_000_000;
    push_dec_u128(s, whole);
    let mut frac: u64 = (a % 1_000_000_000) as u64;
    if frac != 0 {
        push_char(s, '.');
        let mut width: u64 = 9;
        let ghost f0 = frac;
        assert(pow10(9) == 1_000_000_000) by {
            reveal_with_fuel(pow10, 10);
        }
        while frac % 10 == 0
            invariant
                0 < frac,
                1 <= width <= 9,
                trim_zeros(pad_digits(f0 as nat, 9)) == trim_zeros(
                    pad_digits(frac as nat, width as nat),
                ),
                frac < 1_000_000_000,
                frac < pow10(width as nat),
                f0 != 0,
            decreases width,
        {
            proof {
                lemma_trim_step(frac as nat, width as nat);
                if width == 1 {
                    assert(pad_digits(frac as nat, 1) =~= seq![digit_char(frac as nat % 10)]);
                    assert(frac / 10 > 0);
                }
            }
            assert(width > 1) by {
                if width == 1 {
                    assert(pow10(0) == 1);
                    assert(pow10(1) == 10);
                }
            }
            let ghost p = pow10((width - 1) as nat);
            assert(frac / 10 < p) by (nonlinear_arith)
                requires
                    frac < 10 * p,
            ;
            frac = frac / 10;
            width = width - 1;
        }
        proof {
            lemma_trim_stop(frac as nat, width as nat);
        }
        push_pad_digits(s, frac, width);
    }
    proof {
        let sign = if x < 0 {
            seq!['-']
        } else {
            Seq::<char>::empty()
        };
        assert(after_sign == old(s)@ + sign);
        assert(final(s)@ =~= old(s)@ + plain_nanos(x as int));
    }
}

/// Appends `x` billionths rounded to one decimal place.
pub fn push_one_decimal(s: &mut String, x: u128)
    ensures
        final(s)@ == old(s)@ + one_decimal(x as nat),
{
    let t: u128 = round_even_u128(x, 100_000_000);
    push_dec_u128(s, t / 10);
    push_char(s, '.');
    let d = (t % 10) as u64;
    let ghost before = s@;
    push_dec(s, d);
    assert(dec(d as nat) =~= seq![digit_char(d as nat)]);
    assert(final(s)@ =~= old(s)@ + one_decimal(x as nat));
}

/// Appends `x` billionths rounded to a whole number.
pub fn push_whole_rounded(s: &mut String, x: u64)
    ensures
        final(s)@ == old(s)@ + whole_rounded(x as nat),
{
    let w: u128 = round_even_u128(x as u128, 1_000_000_000);
    assert(w <= u64::MAX) by (nonlinear_arith)
        requires
            w <= x / 1_000_000_000 + 1,
            x <= u64::MAX,
    ;
    push_dec(s, w as u64);
}

/// `x` billionths rounded (half to even) to two decimal places, as text.
pub open spec fn two_decimals(x: nat) -> Seq<char> {
    let c: nat = round_even(x, 10_000_000);
    dec(c / 100) + seq!['.'] + pad_digits(c % 100, 2)
}

/// Appends `x` billionths rounded to two decimal places.
pub fn push_two_decimals(s: &mut String, x: u64)
    ensures
        final(s)@ == old(s)@ + two_decimals(x as nat),
{
    let c: u128 = round_even_u128(x as u128, 10_000_000);
    push_dec_u128(s, c / 100);
    push_char(s, '.');
    push_pad_digits(s, (c % 100) as u64, 2);
    assert(final(s)@ =~= old(s)@ + two_decimals(x as nat));
}


/// Amounts in dollars and cents: an amount of whole cents is written exactly, with two
/// decimals; a part of a cent rounds to the nearest cent, an exact half cent to the
/// even one.
pub proof fn law_money_to_cents(cents: nat, part: nat)
    requires
        part < 10_000_000,
    ensures
        two_decimals(cents * 10_000_000 + part) == dec(round_cents(cents, part) / 100) + seq!['.']
            + pad_digits(round_cents(cents, part) % 100, 2),
        part == 0 ==> round_cents(cents, part) == cents,
        part < 5_000_000 ==> round_cents(cents, part) == cents,
        part > 5_000_000 ==> round_cents(cents, part) == cents + 1,
        part == 5_000_000 ==> round_cents(cents, part) % 2 == 0,
{
    assert((cents * 10_000_000 + part) / 10_000_000 == cents) by (nonlinear_arith)
        requires
            part < 10_000_000,
    ;
    assert((cents * 10_000_000 + part) % 10_000_000 == part) by (nonlinear_arith)
        requires
            part < 10_000_000,
    ;
}

/// The number of cents an amount of `cents` cents and `part` billionths of a dollar
/// rounds to: half to even.
pub open spec fn round_cents(cents: nat, part: nat) -> nat {
    if part * 2 > 10_000_000 || (part * 2 == 10_000_000 && cents % 2 == 1) {
        cents + 1
    } else {
        cents
    }
}


/// Whole and tenth amounts round the same way: to the nearest whole (or tenth), an exact
/// half to the even neighbour.
pub proof fn law_whole_and_tenths_rounding(whole: nat, part: nat, tenths: nat, rest: nat)
    requires
        part < 1_000_000_000,
        rest < 100_000_000,
    ensures
        whole_rounded(whole * 1_000_000_000 + part) == dec(
            if part * 2 > 1_000_000_000 || (part * 2 == 1_000_000_000 && whole % 2 == 1) {
                whole + 1
            } else {
                whole
            },
        ),
        one_decimal(tenths * 100_000_000 + rest) == ({
            let t = if rest * 2 > 100_000_000 || (rest * 2 == 100_000_000 && tenths % 2 == 1) {
                tenths + 1
            } else {
                tenths
            };
            dec(t / 10) + seq!['.', digit_char(t % 10)]
        }),
{
    assert((whole * 1_000_000_000 + part) / 1_000_000_000 == whole) by (nonlinear_arith)
        requires
            part < 1_000_000_000,
    ;
    assert((whole * 1_000_000_000 + part) % 1_000_000_000 == part) by (nonlinear_arith)
        requires
            part < 1_000_000_000,
    ;
    assert((tenths * 100_000_000 + rest) / 100_000_000 == tenths) by (nonlinear_arith)
        requires
            rest < 100_000_000,
    ;
    assert((tenths * 100_000_000 + rest) % 100_000_000 == rest) by (nonlinear_arith)
        requires
            rest < 100_000_000,
    ;
}

} // verus!
