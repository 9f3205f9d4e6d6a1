//! The number that may end a name, and the length policy applied last.
use vstd::prelude::*;

use rand::rngs::StdRng;

use crate::digits::{decimal, decimal_text, pow10, zero_padded, zero_padded_text};
use crate::rng::draw_between;
use crate::separator::NumberSeperator;

verus! {

/// The largest digit count whose numbers fit in a `u64`.
pub const MAX_DIGITS: usize = 19;

/// A naming strategy: whether and how a number ends the name.
#[derive(Clone, Debug, PartialEq, Eq, PartialOrd, Ord, Hash)]
pub enum Name {
    /// `"ADJECTIVE-NOUN"`
    Plain,
    /// `"ADJECTIVE-NOUN{seperator}NUMBER"`, the number having the given
    /// count of digits and no leading zero
    Numbered(usize, NumberSeperator),
    /// As `Numbered`, the number written zero-padded to the given width
    ZeroPaddedNumbered(usize, NumberSeperator),
}

impl Name {
    /// Whether the digit count, if any, is one that numbers can be drawn for.
    pub open spec fn digits_ok(&self) -> bool {
        match self {
            Name::Plain => true,
            Name::Numbered(d, _) | Name::ZeroPaddedNumbered(d, _) => 1 <= *d <= MAX_DIGITS,
        }
    }

    /// Whether `k` is a number this strategy may draw: `0` (none is drawn)
    /// for a plain name, else a number of exactly the given count of digits.
    pub open spec fn number_in_range(&self, k: nat) -> bool {
        match self {
            Name::Plain => k == 0,
            Name::Numbered(d, _) | Name::ZeroPaddedNumbered(d, _) => {
                pow10((*d - 1) as nat) <= k < pow10(*d as nat)
            },
        }
    }

    /// The name made from `base` and the number `k`.
    pub open spec fn suffixed(&self, base: Seq<char>, k: nat) -> Seq<char> {
        match self {
            Name::Plain => base,
            Name::Numbered(_, s) => base + s.text() + decimal(k),
            Name::ZeroPaddedNumbered(d, s) => base + s.text() + zero_padded(decimal(k), *d as nat),
        }
    }

    /// The strategy of the command line: a zero-padded number of the given
    /// width after a dash when a width is given, else a plain name.
    pub fn for_number(number: Option<usize>) -> (r: Name)
        ensures
            number matches Some(d) ==> r == Name::ZeroPaddedNumbered(d, NumberSeperator::Dash),
            number is None ==> r is Plain,
    {
        match number {
            Some(d) => Name::ZeroPaddedNumbered(d, NumberSeperator::Dash),
            None => Name::Plain,
        }
    }

    /// Appends the number `k` to `base` as this strategy asks.
    pub fn suffix(&self, base: String, k: u64) -> (r: String)
        ensures
            r@ == self.suffixed(base@, k as nat),
    {
        match self {
            Name::Plain => base,
            Name::Numbered(_, s) => {
                let sep = s.to_string();
                let digits = decimal_text(k);
                base.concat(sep.as_str()).concat(digits.as_str())
            },
            Name::ZeroPaddedNumbered(d, s) => {
                let sep = s.to_string();
                let digits = zero_padded_text(k, *d);
                base.concat(sep.as_str()).concat(digits.as_str())
            },
        }
    }

    /// Draws the number for this strategy; `0` for a plain name, which
    /// draws nothing.
    pub(crate) fn draw(&self, rng: &mut StdRng) -> (k: u64)
        requires
            self.digits_ok(),
        ensures
            self.number_in_range(k as nat),
        no_unwind
    {
        match self {
            Name::Plain => 0,
            Name::Numbered(d, _) | Name::ZeroPaddedNumbered(d, _) => {
                generate_number_with_x_digits(*d, rng)
            },
        }
    }
}

impl Default for Name {
    fn default() -> (r: Name)
        ensures
            r is Plain,
    {
        Name::Plain
    }
}

proof fn lemma_pow10_monotone(a: nat, b: nat)
    requires
        a <= b,
    ensures
        pow10(a) <= pow10(b),
    decreases b,
{
    if a < b {
        lemma_pow10_monotone(a, (b - 1) as nat);
    }
}

/// Ten to the power `e`, for the exponents whose power fits in a `u64`.
fn pow10_u64(e: usize) -> (r: u64)
    requires
        e <= MAX_DIGITS,
    ensures
        r == pow10(e as nat),
    no_unwind
{
    proof {
        reveal_with_fuel(pow10, 20);
        assert(pow10(19) == 10_000_000_000_000_000_000nat);
    }
    let mut p: u64 = 1;
    let mut i: usize = 0;
    while i < e
        invariant
            i <= e <= MAX_DIGITS,
            p == pow10(i as nat),
            pow10(19) == 10_000_000_000_000_000_000nat,
        decreases e - i,
    {
        proof {
            lemma_pow10_monotone((i + 1) as nat, 19);
        }
        p = p * 10;
        i = i + 1;
    }
    p
}

/// Draws a number of exactly `x` digits, with no leading zero.
fn generate_number_with_x_digits(x: usize, rng: &mut StdRng) -> (r: u64)
    requires
        1 <= x <= MAX_DIGITS,
    ensures
        pow10((x - 1) as nat) <= r < pow10(x as nat),
    no_unwind
{
    proof {
        crate::digits::lemma_pow10_positive(x as nat);
        lemma_pow10_monotone((x - 1) as nat, x as nat);
        assert(pow10(x as nat) == 10 * pow10((x - 1) as nat));
        crate::digits::lemma_pow10_positive((x - 1) as nat);
    }
    let lower_bound = pow10_u64(x - 1);
    let upper_bound = pow10_u64(x) - 1;
    draw_between(rng, lower_bound, upper_bound)
}

/// A length policy, applied to the finished name.
#[derive(Clone, Copy, Debug, PartialEq, Eq, PartialOrd, Ord, Hash)]
pub enum Length {
    /// Cut the name to at most this many characters
    Truncate(usize),
    /// Draw new names until one has exactly this many characters
    Reroll(usize),
    /// Keep the name as it is
    Unlimited,
}

/// The first `n` characters of `s`, or all of `s` when it is shorter.
pub open spec fn truncated(s: Seq<char>, n: nat) -> Seq<char> {
    if s.len() <= n {
        s
    } else {
        s.take(n as int)
    }
}

impl Length {
    /// What the policy makes of a drawn name: `None` where it asks for
    /// another draw.
    pub open spec fn settled(&self, s: Seq<char>) -> Option<Seq<char>> {
        match self {
            Length::Truncate(n) => Some(truncated(s, *n as nat)),
            Length::Reroll(n) => if s.len() == *n {
                Some(s)
            } else {
                None
            },
            Length::Unlimited => Some(s),
        }
    }

    /// Applies the policy to a drawn name: the name to give out, or `None`
    /// where the policy asks for another draw.
    pub fn settle(&self, name: String) -> (r: Option<String>)
        ensures
            r is Some <==> self.settled(name@) is Some,
            r matches Some(s) ==> self.settled(name@) == Some(s@),
    {
        match self {
            Length::Truncate(n) => {
                let len = name.as_str().unicode_len();
                if len <= *n {
                    Some(name)
                } else {
                    let cut = name.as_str().substring_char(0, *n);
                    assert(name@.subrange(0, *n as int) =~= name@.take(*n as int));
                    Some(String::from_str(cut))
                }
            },
            Length::Reroll(n) => {
                if name.as_str().unicode_len() == *n {
                    Some(name)
                } else {
                    None
                }
            },
            Length::Unlimited => Some(name),
        }
    }
}

/// Truncating to `n` gives the first `n` characters of a text at least
/// that long, and leaves a shorter text unchanged.
pub proof fn lemma_truncate_policy(n: usize, s: Seq<char>)
    ensures
        s.len() >= n ==> Length::Truncate(n).settled(s) == Some(s.take(n as int)) && s.take(
            n as int,
        ).len() == n,
        s.len() < n ==> Length::Truncate(n).settled(s) == Some(s),
{
}

/// Rerolling to `n` accepts a text exactly when it has `n` characters, and
/// then leaves it unchanged.
pub proof fn lemma_reroll_policy(n: usize, s: Seq<char>)
    ensures
        Length::Reroll(n).settled(s) is Some <==> s.len() == n,
        s.len() == n ==> Length::Reroll(n).settled(s) == Some(s),
{
}

impl Default for Length {
    fn default() -> (r: Length)
        ensures
            r is Unlimited,
    {
        Length::Unlimited
    }
}

} // verus!
