//! Text rendering used by the failure messages: decimal numbers, lamport
//! amounts in SOL, and comma-separated lists.

use vstd::prelude::*;

verus! {

/// Lamports in one SOL.
pub const LAMPORTS_PER_SOL: u64 = 1_000_000_000;

/// The character for a decimal digit.
pub open spec fn digit_char(d: int) -> char {
    if d == 0 {
        '0'
    } else if d == 1 {
        '1'
    } else if d == 2 {
        '2'
    } else if d == 3 {
        '3'
    } else if d == 4 {
        '4'
    } else if d == 5 {
        '5'
    } else if d == 6 {
        '6'
    } else if d == 7 {
        '7'
    } else if d == 8 {
        '8'
    } else {
        '9'
    }
}

/// The decimal digits of `n`, most significant first, without leading zeros.
pub open spec fn decimal_digits(n: nat) -> Seq<char>
    decreases n,
{
    if n < 10 {
        seq![digit_char(n as int)]
    } else {
        decimal_digits(n / 10).push(digit_char((n % 10) as int))
    }
}

/// The digits after the decimal point of `rest / (10 * unit)`, most
/// significant first, ending with the last digit that is not zero. `unit` is
/// the weight of the first digit, a power of ten.
pub open spec fn fraction_digits(rest: nat, unit: nat) -> Seq<char>
    decreases unit,
{
    if rest == 0 || unit == 0 {
        Seq::<char>::empty()
    } else {
        seq![digit_char((rest / unit) as int)] + fraction_digits(rest % unit, unit / 10)
    }
}

/// Whether `unit` is the weight of one of the nine digits of the fraction of
/// a SOL.
pub open spec fn is_fraction_unit(unit: nat) -> bool {
    unit == 1 || unit == 10 || unit == 100 || unit == 1_000 || unit == 10_000 || unit == 100_000
        || unit == 1_000_000 || unit == 10_000_000 || unit == 100_000_000
}

/// A lamport amount written in SOL, exact to the lamport: the whole part in
/// decimal, then, unless the amount is a whole number of SOL, a point and the
/// fraction without trailing zeros. Half a SOL is `0.5`, one lamport is
/// `0.000000001`, no lamports are `0`.
pub open spec fn sol_digits(lamports: nat) -> Seq<char> {
    let whole = lamports / 1_000_000_000;
    let rest = lamports % 1_000_000_000;
    if rest == 0 {
        decimal_digits(whole)
    } else {
        decimal_digits(whole) + seq!['.'] + fraction_digits(rest, 100_000_000)
    }
}

/// The parts in order, with a comma between each two neighbours.
pub open spec fn comma_joined(parts: Seq<Seq<char>>) -> Seq<char>
    decreases parts.len(),
{
    if parts.len() == 0 {
        Seq::<char>::empty()
    } else if parts.len() == 1 {
        parts[0]
    } else {
        comma_joined(parts.drop_last()) + seq![','] + parts.last()
    }
}

/// The texts that a sequence of strings holds.
pub open spec fn texts_of(strings: Seq<String>) -> Seq<Seq<char>> {
    strings.map_values(|s: String| s@)
}

fn digit_text(d: u64) -> (text: &'static str)
    requires
        d < 10,
    ensures
        text@ == seq![digit_char(d as int)],
{
    proof {
        reveal_strlit("0");
        reveal_strlit("1");
        reveal_strlit("2");
        reveal_strlit("3");
        reveal_strlit("4");
        reveal_strlit("5");
        reveal_strlit("6");
        reveal_strlit("7");
        reveal_strlit("8");
        reveal_strlit("9");
    }
    let text = if d == 0 {
        "0"
    } else if d == 1 {
        "1"
    } else if d == 2 {
        "2"
    } else if d == 3 {
        "3"
    } else if d == 4 {
        "4"
    } else if d == 5 {
        "5"
    } else if d == 6 {
        "6"
    } else if d == 7 {
        "7"
    } else if d == 8 {
        "8"
    } else {
        "9"
    };
    text
}

/// Appends the decimal digits of `n` to `out`.
pub fn push_decimal(out: &mut String, n: u64)
    ensures
        final(out)@ == old(out)@ + decimal_digits(n as nat),
    decreases n,
{
    if n >= 10 {
        push_decimal(out, n / 10);
    }
    out.append(digit_text(n % 10));
}

/// `n` in decimal.
pub fn decimal_text(n: u64) -> (text: String)
    ensures
        text@ == decimal_digits(n as nat),
{
    let mut text = String::new();
    push_decimal(&mut text, n);
    text
}

/// Appends `lamports`, written in SOL, to `out`.
pub fn push_sol(out: &mut String, lamports: u64)
    ensures
        final(out)@ == old(out)@ + sol_digits(lamports as nat),
{
    let whole: u64 = lamports / LAMPORTS_PER_SOL;
    let mut rest: u64 = lamports % LAMPORTS_PER_SOL;
    push_decimal(out, whole);
    if rest != 0 {
        proof {
            reveal_strlit(".");
        }
        out.append(".");
        let ghost head = out@;
        let ghost first_rest = rest as nat;
        let mut unit: u64 = 100_000_000;
        while rest != 0 && unit != 0
            invariant
                unit == 0 || is_fraction_unit(unit as nat),
                rest < 10 * unit || (unit == 0 && rest == 0),
                out@ + fraction_digits(rest as nat, unit as nat) == head + fraction_digits(
                    first_rest,
                    100_000_000,
                ),
            decreases unit,
        {
            let digit: u64 = rest / unit;
            assert(digit < 10) by (nonlinear_arith)
                requires
                    digit == rest / unit,
                    rest < 10 * unit,
                    unit > 0,
            ;
            out.append(digit_text(digit));
            rest = rest % unit;
            unit = unit / 10;
        }
    }
}

/// `lamports` written in SOL.
pub fn sol_text(lamports: u64) -> (text: String)
    ensures
        text@ == sol_digits(lamports as nat),
{
    let mut text = String::new();
    push_sol(&mut text, lamports);
    text
}

/// Joins the parts with commas.
pub fn join_with_commas(parts: &Vec<String>) -> (joined: String)
    ensures
        joined@ == comma_joined(texts_of(parts@)),
{
    let mut joined = String::new();
    let mut i: usize = 0;
    while i < parts.len()
        invariant
            i <= parts.len(),
            joined@ == comma_joined(texts_of(parts@.take(i as int))),
        decreases parts.len() - i,
    {
        assert(texts_of(parts@.take(i + 1)).drop_last() =~= texts_of(parts@.take(i as int)));
        if i > 0 {
            proof {
                reveal_strlit(",");
            }
            joined.append(",");
        }
        joined.append(parts[i].as_str());
        i += 1;
    }
    assert(parts@.take(parts.len() as int) =~= parts@);
    joined
}

} // verus!
