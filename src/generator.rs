//! The generator: a configuration and a random source, drawing one name
//! per call.
use vstd::prelude::*;

use rand::rngs::StdRng;

use crate::casing::Casing;
use crate::digits::{
    decimal, is_digit, lemma_decimal_digits, lemma_decimal_width, lemma_zero_padded_width,
    zero_padded,
};
use crate::error::Error;
use crate::naming::{truncated, Length, Name};
use crate::rng::{choose_word, entropy_rng};
use crate::separator::NumberSeperator;
use crate::words::{adjectives, builtin_adjectives, builtin_nouns, nouns, views_of};

verus! {

/// How many names a [`Length::Reroll`] policy draws at most in one call;
/// when none of them has the asked length, the last one is given out.
pub const MAX_REROLLS: usize = 10_000;

/// Everything that describes a generator but its random source.
#[derive(Clone, Debug)]
pub struct GeneratorConfig {
    /// The adjectives, one of which starts each name
    pub adjectives: Vec<String>,
    /// The nouns, one of which follows the adjective
    pub nouns: Vec<String>,
    /// Whether and how a number ends each name
    pub naming: Name,
    /// How the two words are cased and joined
    pub casing: Casing,
    /// The length policy applied to each name
    pub length: Length,
}

impl GeneratorConfig {
    /// Both word lists hold a word, and the naming strategy asks for a
    /// digit count that numbers can be drawn for.
    pub open spec fn wf(&self) -> bool {
        &&& self.adjectives@.len() > 0
        &&& self.nouns@.len() > 0
        &&& self.naming.digits_ok()
    }

    /// The name made of the two words and the number `k`, before the
    /// length policy.
    pub open spec fn candidate(&self, adjective: Seq<char>, noun: Seq<char>, k: nat) -> Seq<char> {
        self.naming.suffixed(self.casing.cased(seq![adjective, noun]), k)
    }

    /// Whether `s` is made of one of the adjectives, one of the nouns and
    /// a number that the naming strategy may draw.
    pub open spec fn is_candidate(&self, s: Seq<char>) -> bool {
        exists|i: int, j: int, k: nat|
            0 <= i < self.adjectives@.len() && 0 <= j < self.nouns@.len()
                && self.naming.number_in_range(k) && s == #[trigger] self.candidate(
                self.adjectives@[i]@,
                self.nouns@[j]@,
                k,
            )
    }

    /// Whether a generator of this configuration may give out `s`: a
    /// candidate cut to the limit under [`Length::Truncate`], else a
    /// candidate (under [`Length::Reroll`], one of the asked length unless
    /// [`MAX_REROLLS`] draws found none).
    pub open spec fn produces(&self, s: Seq<char>) -> bool {
        match self.length {
            Length::Truncate(n) => exists|c: Seq<char>|
                self.is_candidate(c) && s == #[trigger] truncated(c, n as nat),
            _ => self.is_candidate(s),
        }
    }

    /// Checks the configuration: the first rule it breaks, if any.
    pub fn check(&self) -> (r: Result<(), Error>)
        ensures
            r is Ok <==> self.wf(),
            self.adjectives@.len() == 0 ==> r matches Err(Error::AdjectivesEmpty),
            self.adjectives@.len() > 0 && self.nouns@.len() == 0 ==> r matches Err(
                Error::NounsEmpty,
            ),
            self.adjectives@.len() > 0 && self.nouns@.len() > 0 && !self.naming.digits_ok()
                ==> r matches Err(Error::ValidationError(_)),
    {
        if self.adjectives.len() == 0 {
            return Err(Error::AdjectivesEmpty);
        }
        if self.nouns.len() == 0 {
            return Err(Error::NounsEmpty);
        }
        match &self.naming {
            Name::Plain => Ok(()),
            Name::Numbered(d, _) | Name::ZeroPaddedNumbered(d, _) => {
                if 1 <= *d && *d <= crate::naming::MAX_DIGITS {
                    Ok(())
                } else {
                    proof {
                        reveal_strlit("the number must have between 1 and 19 digits");
                    }
                    Err(
                        Error::ValidationError(
                            String::from_str("the number must have between 1 and 19 digits"),
                        ),
                    )
                }
            },
        }
    }
}

impl Default for GeneratorConfig {
    fn default() -> (r: GeneratorConfig)
        ensures
            views_of(r.adjectives@) == builtin_adjectives(),
            views_of(r.nouns@) == builtin_nouns(),
            r.naming is Plain,
            r.casing == Casing::Lowercase(NumberSeperator::Dash),
            r.length is Unlimited,
    {
        GeneratorConfig {
            adjectives: adjectives(),
            nouns: nouns(),
            naming: Name::Plain,
            casing: Casing::Lowercase(NumberSeperator::Dash),
            length: Length::Unlimited,
        }
    }
}

/// A random name generator which combines an adjective, a noun, and an
/// optional number.
#[derive(Debug)]
pub struct Generator {
    config: GeneratorConfig,
    rng: StdRng,
}

impl View for Generator {
    type V = GeneratorConfig;

    closed spec fn view(&self) -> GeneratorConfig {
        self.config
    }
}

impl Generator {
    #[verifier::type_invariant]
    spec fn inv(&self) -> bool {
        self.config.wf()
    }

    /// A generator of the given configuration and random source; the
    /// configuration's first broken rule, as [`GeneratorConfig::check`]
    /// finds it, where it breaks one.
    pub fn from_config(config: GeneratorConfig, rng: StdRng) -> (r: Result<Generator, Error>)
        ensures
            r is Ok <==> config.wf(),
            r matches Ok(g) ==> g@ == config,
            config.adjectives@.len() == 0 ==> r matches Err(Error::AdjectivesEmpty),
            config.adjectives@.len() > 0 && config.nouns@.len() == 0 ==> r matches Err(
                Error::NounsEmpty,
            ),
            config.adjectives@.len() > 0 && config.nouns@.len() > 0 && !config.naming.digits_ok()
                ==> r matches Err(Error::ValidationError(_)),
    {
        match config.check() {
            Ok(()) => Ok(Generator { config, rng }),
            Err(e) => Err(e),
        }
    }

    /// The configuration of the generator.
    pub fn config(&self) -> (r: &GeneratorConfig)
        ensures
            *r == self@,
    {
        &self.config
    }

    /// The configuration of the generator, which it gives up.
    pub fn into_config(self) -> (r: GeneratorConfig)
        ensures
            r == self@,
    {
        self.config
    }

    /// The adjectives.
    pub fn adjectives(&self) -> (r: &Vec<String>)
        ensures
            *r == self@.adjectives,
    {
        &self.config.adjectives
    }

    /// The nouns.
    pub fn nouns(&self) -> (r: &Vec<String>)
        ensures
            *r == self@.nouns,
    {
        &self.config.nouns
    }

    /// The naming strategy.
    pub fn naming(&self) -> (r: &Name)
        ensures
            *r == self@.naming,
    {
        &self.config.naming
    }

    /// The casing.
    pub fn casing(&self) -> (r: &Casing)
        ensures
            *r == self@.casing,
    {
        &self.config.casing
    }

    /// The length policy.
    pub fn length(&self) -> (r: Length)
        ensures
            r == self@.length,
    {
        self.config.length
    }

    /// The name made of the given words and number, before the length
    /// policy.
    pub fn compose(&self, adjective: &str, noun: &str, number: u64) -> (r: String)
        ensures
            r@ == self@.candidate(adjective@, noun@, number as nat),
    {
        let mut words: Vec<&str> = Vec::new();
        words.push(adjective);
        words.push(noun);
        assert(words@.map_values(|w: &str| w@) =~= seq![adjective@, noun@]);
        let base = self.config.casing.apply(words);
        self.config.naming.suffix(base, number)
    }

    /// Draws two words and a number, and composes them.
    fn roll(&mut self) -> (r: String)
        ensures
            final(self)@ == old(self)@,
            old(self)@.is_candidate(r@),
    {
        proof {
            use_type_invariant(&*self);
        }
        let adjective = choose_word(&self.config.adjectives, &mut self.rng).unwrap();
        let noun = choose_word(&self.config.nouns, &mut self.rng).unwrap();
        let k = self.config.naming.draw(&mut self.rng);
        let r = self.compose(adjective.as_str(), noun.as_str(), k);
        proof {
            let c = self@;
            let i = choose|i: int| 0 <= i < c.adjectives@.len() && c.adjectives@[i] == *adjective;
            let j = choose|j: int| 0 <= j < c.nouns@.len() && c.nouns@[j] == *noun;
            assert(r@ == c.candidate(c.adjectives@[i]@, c.nouns@[j]@, k as nat));
        }
        r
    }

    /// Draws the next name: one adjective and one noun, uniformly and
    /// with replacement, cased and joined, followed by a number as the
    /// naming strategy asks, and finally put under the length policy.
    pub fn next(&mut self) -> (r: Option<String>)
        ensures
            final(self)@ == old(self)@,
            r matches Some(s) && old(self)@.produces(s@),
    {
        let mut tries: usize = 1;
        let mut name = self.roll();
        loop
            invariant
                self@ == old(self)@,
                self@.is_candidate(name@),
                1 <= tries <= MAX_REROLLS,
            decreases MAX_REROLLS - tries,
        {
            let settled = self.config.length.settle(name.clone());
            if let Some(s) = settled {
                return Some(s);
            }
            if tries >= MAX_REROLLS {
                return Some(name);
            }
            name = self.roll();
            tries = tries + 1;
        }
    }
}

/// Whether `s` ends with `sep` followed by exactly `d` digits.
pub open spec fn ends_with_digits(s: Seq<char>, sep: Seq<char>, d: nat) -> bool {
    &&& s.len() >= sep.len() + d
    &&& s.subrange(s.len() - d - sep.len(), s.len() - d) == sep
    &&& forall|i: int| s.len() - d <= i < s.len() ==> is_digit(#[trigger] s[i])
}

/// Under `Name::Numbered(d, sep)` and a length policy that does not cut,
/// every name ends with the separator and exactly `d` digits, the first of
/// which is not `'0'`.
pub proof fn lemma_numbered_suffix(g: GeneratorConfig, s: Seq<char>, d: usize, sep: NumberSeperator)
    requires
        g.wf(),
        g.naming == Name::Numbered(d, sep),
        !(g.length is Truncate),
        g.produces(s),
    ensures
        ends_with_digits(s, sep.text(), d as nat),
        s[s.len() - d] != '0',
{
    let (i, j, k) = choose|i: int, j: int, k: nat|
        0 <= i < g.adjectives@.len() && 0 <= j < g.nouns@.len() && g.naming.number_in_range(k)
            && s == #[trigger] g.candidate(g.adjectives@[i]@, g.nouns@[j]@, k);
    let base = g.casing.cased(seq![g.adjectives@[i]@, g.nouns@[j]@]);
    let digits = decimal(k);
    lemma_decimal_width(k, d as nat);
    lemma_decimal_digits(k);
    assert(s == base + sep.text() + digits);
    assert(s.subrange(s.len() - d - sep.text().len(), s.len() - d) =~= sep.text());
    assert forall|x: int| s.len() - d <= x < s.len() implies is_digit(#[trigger] s[x]) by {
        assert(s[x] == digits[x - (s.len() - d)]);
    }
}

/// Under `Name::ZeroPaddedNumbered(d, sep)` and a length policy that does
/// not cut, every name ends with the separator and exactly `d` digits.
pub proof fn lemma_zero_padded_suffix(
    g: GeneratorConfig,
    s: Seq<char>,
    d: usize,
    sep: NumberSeperator,
)
    requires
        g.wf(),
        g.naming == Name::ZeroPaddedNumbered(d, sep),
        !(g.length is Truncate),
        g.produces(s),
    ensures
        ends_with_digits(s, sep.text(), d as nat),
{
    let (i, j, k) = choose|i: int, j: int, k: nat|
        0 <= i < g.adjectives@.len() && 0 <= j < g.nouns@.len() && g.naming.number_in_range(k)
            && s == #[trigger] g.candidate(g.adjectives@[i]@, g.nouns@[j]@, k);
    let base = g.casing.cased(seq![g.adjectives@[i]@, g.nouns@[j]@]);
    let digits = zero_padded(decimal(k), d as nat);
    lemma_zero_padded_width(k, d as nat);
    assert(s == base + sep.text() + digits);
    assert(s.subrange(s.len() - d - sep.text().len(), s.len() - d) =~= sep.text());
    assert forall|x: int| s.len() - d <= x < s.len() implies is_digit(#[trigger] s[x]) by {
        assert(s[x] == digits[x - (s.len() - d)]);
    }
}

/// Under `Length::Reroll(n)`, where every candidate of the configuration
/// has `n` characters, every name given out has `n` characters.
pub proof fn lemma_reroll_exact(g: GeneratorConfig, s: Seq<char>, n: usize)
    requires
        g.length == Length::Reroll(n),
        forall|c: Seq<char>| g.is_candidate(c) ==> c.len() == n,
        g.produces(s),
    ensures
        s.len() == n,
{
}

impl Default for Generator {
    fn default() -> (r: Generator)
        ensures
            views_of(r@.adjectives@) == builtin_adjectives(),
            views_of(r@.nouns@) == builtin_nouns(),
            r@.naming is Plain,
            r@.casing == Casing::Lowercase(NumberSeperator::Dash),
            r@.length is Unlimited,
    {
        let config = GeneratorConfig::default();
        proof {
            assert(views_of(config.adjectives@).len() == builtin_adjectives().len());
            assert(views_of(config.nouns@).len() == builtin_nouns().len());
        }
        Generator { config, rng: entropy_rng() }
    }
}

} // verus!
