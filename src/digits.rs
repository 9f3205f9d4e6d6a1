//! Decimal rendering of the number that ends a name.
use vstd::prelude::*;

verus! {

/// Ten to the power `d`.
pub open spec fn pow10(d: nat) -> nat
    decreases d,
{
    if d == 0 {
        1
    } else {
        10 * pow10((d - 1) as nat)
    }
}

/// The character of a decimal digit below ten.
pub open spec fn digit_char(d: nat) -> char {
    seq!['0', '1', '2', '3', '4', '5', '6', '7', '8', '9'][d as int]
}

/// Whether a character is one of `'0'` to `'9'`.
pub open spec fn is_digit(c: char) -> bool {
    '0' <= c && c <= '9'
}

/// The decimal digits of `n`, without leading zeros (`"0"` for zero).
pub open spec fn decimal(n: nat) -> Seq<char>
    decreases n,
{
    if n < 10 {
        seq![digit_char(n)]
    } else {
        decimal(n / 10).push(digit_char(n % 10))
    }
}

/// `s` with zeros put in front until it is `width` characters long.
pub open spec fn zero_padded(s: Seq<char>, width: nat) -> Seq<char> {
    if s.len() >= width {
        s
    } else {
        Seq::new((width - s.len()) as nat, |_i: int| '0') + s
    }
}

pub proof fn lemma_pow10_positive(d: nat)
    ensures
        pow10(d) >= 1,
    decreases d,
{
    if d > 0 {
        lemma_pow10_positive((d - 1) as nat);
    }
}

/// Every character of a decimal rendering is a digit.
pub proof fn lemma_decimal_digits(n: nat)
    ensures
        decimal(n).len() >= 1,
        forall|i: int| 0 <= i < decimal(n).len() ==> is_digit(#[trigger] decimal(n)[i]),
    decreases n,
{
    if n >= 10 {
        lemma_decimal_digits(n / 10);
    }
}

/// A number of `d` digits renders to exactly `d` characters, the first of
/// which is not `'0'`.
pub proof fn lemma_decimal_width(n: nat, d: nat)
    requires
        d >= 1,
        pow10((d - 1) as nat) <= n < pow10(d),
    ensures
        decimal(n).len() == d,
        decimal(n)[0] != '0',
    decreases d,
{
    lemma_pow10_positive((d - 1) as nat);
    if d == 1 {
        assert(n < 10);
        assert(n >= 1);
    } else {
        let p = pow10((d - 2) as nat);
        assert(pow10((d - 1) as nat) == 10 * p);
        assert(pow10(d) == 10 * pow10((d - 1) as nat));
        assert(p <= n / 10 < 10 * p) by (nonlinear_arith)
            requires
                10 * p <= n < 100 * p,
        {}
        lemma_decimal_width(n / 10, (d - 1) as nat);
        assert(decimal(n)[0] == decimal(n / 10)[0]);
    }
}

/// A number below `10^d`, zero-padded to `d`, is exactly `d` digits.
pub proof fn lemma_zero_padded_width(n: nat, d: nat)
    requires
        d >= 1,
        n < pow10(d),
    ensures
        zero_padded(decimal(n), d).len() == d,
        forall|i: int| 0 <= i < d ==> is_digit(#[trigger] zero_padded(decimal(n), d)[i]),
{
    lemma_decimal_digits(n);
    lemma_decimal_at_most(n, d);
    let s = decimal(n);
    let z = zero_padded(s, d);
    assert forall|i: int| 0 <= i < d implies is_digit(#[trigger] z[i]) by {
        if i >= d - s.len() {
            assert(z[i] == s[i - (d - s.len())]);
        }
    }
}

/// A number below `10^d` takes at most `d` characters.
pub proof fn lemma_decimal_at_most(n: nat, d: nat)
    requires
        d >= 1,
        n < pow10(d),
    ensures
        decimal(n).len() <= d,
    decreases d,
{
    if n >= 10 && d > 1 {
        let p = pow10((d - 1) as nat);
        assert(n / 10 < p) by (nonlinear_arith)
            requires
                n < 10 * p,
        {}
        lemma_decimal_at_most(n / 10, (d - 1) as nat);
    } else if n >= 10 {
        reveal_with_fuel(pow10, 2);
    }
}

/// The text of one digit.
fn digit_text(d: u64) -> (r: &'static str)
    requires
        d < 10,
    ensures
        r@ == seq![digit_char(d as nat)],
{
    proof {
        reveal_strlit("0");
        reveal_strlit("1");
        reveal_strlit("2");
        reveal_strlit("3");
        reveal_strlit("4");
        reveal_strlit("5");
        reveal_strlit("6");
        reveal_strlit("7");
        reveal_strlit("8");
        reveal_strlit("9");
    }
    match d {
        0 => "0",
        1 => "1",
        2 => "2",
        3 => "3",
        4 => "4",
        5 => "5",
        6 => "6",
        7 => "7",
        8 => "8",
        _ => "9",
    }
}

/// Renders `n` in decimal.
pub fn decimal_text(n: u64) -> (r: String)
    ensures
        r@ == decimal(n as nat),
    decreases n,
{
    if n < 10 {
        String::from_str(digit_text(n))
    } else {
        let mut s = decimal_text(n / 10);
        s.append(digit_text(n % 10));
        s
    }
}

/// Renders `n` in decimal, zero-padded to at least `width` characters.
pub fn zero_padded_text(n: u64, width: usize) -> (r: String)
    ensures
        r@ == zero_padded(decimal(n as nat), width as nat),
{
    let digits = decimal_text(n);
    let len = digits.as_str().unicode_len();
    if len >= width {
        return digits;
    }
    let mut out = String::new();
    let mut i: usize = 0;
    while i < width - len
        invariant
            len < width,
            i <= width - len,
            out@ == Seq::new(i as nat, |_j: int| '0'),
        decreases width - len - i,
    {
        proof {
            reveal_strlit("0");
        }
        out.append("0");
        assert(out@ =~= Seq::new((i + 1) as nat, |_j: int| '0'));
        i = i + 1;
    }
    out.concat(digits.as_str())
}

} // verus!
