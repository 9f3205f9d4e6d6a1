//! Builds a [`Generator`] from optional settings, with defaults for the
//! ones left out.
use vstd::prelude::*;

use rand::rngs::StdRng;

use crate::casing::Casing;
use crate::error::Error;
use crate::generator::{Generator, GeneratorConfig};
use crate::naming::{Length, Name};
use crate::rng::entropy_rng;
use crate::separator::NumberSeperator;
use crate::words::{adjectives, builtin_adjectives, builtin_nouns, nouns, views_of};

verus! {

/// The settings of a [`Generator`] to be built; each one left unset takes
/// its default.
pub struct GeneratorBuilder {
    /// The adjectives; the built-in list by default
    pub adjectives: Option<Vec<String>>,
    /// The nouns; the built-in list by default
    pub nouns: Option<Vec<String>>,
    /// The naming strategy; a plain name by default
    pub naming: Option<Name>,
    /// The casing; lowercase words joined by a dash by default
    pub casing: Option<Casing>,
    /// The length policy; none by default
    pub length: Option<Length>,
    /// The random source; one seeded from the operating system by default
    pub rng: Option<StdRng>,
}

impl GeneratorBuilder {
    /// The texts of the adjectives that the generator will have.
    pub open spec fn adjectives_view(&self) -> Seq<Seq<char>> {
        match self.adjectives {
            Some(a) => views_of(a@),
            None => builtin_adjectives(),
        }
    }

    /// The texts of the nouns that the generator will have.
    pub open spec fn nouns_view(&self) -> Seq<Seq<char>> {
        match self.nouns {
            Some(n) => views_of(n@),
            None => builtin_nouns(),
        }
    }

    /// The naming strategy that the generator will have.
    pub open spec fn naming_view(&self) -> Name {
        match self.naming {
            Some(n) => n,
            None => Name::Plain,
        }
    }

    /// The casing that the generator will have.
    pub open spec fn casing_view(&self) -> Casing {
        match self.casing {
            Some(c) => c,
            None => Casing::Lowercase(NumberSeperator::Dash),
        }
    }

    /// The length policy that the generator will have.
    pub open spec fn length_view(&self) -> Length {
        match self.length {
            Some(l) => l,
            None => Length::Unlimited,
        }
    }

    /// Sets the adjectives.
    pub fn adjectives(self, value: Vec<String>) -> (r: GeneratorBuilder)
        ensures
            r == (GeneratorBuilder { adjectives: Some(value), ..self }),
    {
        GeneratorBuilder { adjectives: Some(value), ..self }
    }

    /// Sets the nouns.
    pub fn nouns(self, value: Vec<String>) -> (r: GeneratorBuilder)
        ensures
            r == (GeneratorBuilder { nouns: Some(value), ..self }),
    {
        GeneratorBuilder { nouns: Some(value), ..self }
    }

    /// Sets the naming strategy.
    pub fn naming(self, value: Name) -> (r: GeneratorBuilder)
        ensures
            r == (GeneratorBuilder { naming: Some(value), ..self }),
    {
        GeneratorBuilder { naming: Some(value), ..self }
    }

    /// Sets the casing.
    pub fn casing(self, value: Casing) -> (r: GeneratorBuilder)
        ensures
            r == (GeneratorBuilder { casing: Some(value), ..self }),
    {
        GeneratorBuilder { casing: Some(value), ..self }
    }

    /// Sets the length policy.
    pub fn length(self, value: Length) -> (r: GeneratorBuilder)
        ensures
            r == (GeneratorBuilder { length: Some(value), ..self }),
    {
        GeneratorBuilder { length: Some(value), ..self }
    }

    /// Sets the random source.
    pub fn rng(self, value: StdRng) -> (r: GeneratorBuilder)
        ensures
            r == (GeneratorBuilder { rng: Some(value), ..self }),
    {
        GeneratorBuilder { rng: Some(value), ..self }
    }

    /// Builds the generator, or gives the first rule that the settings
    /// break: an empty adjective list, then an empty noun list, then a
    /// digit count that numbers cannot be drawn for.
    pub fn build(self) -> (r: Result<Generator, Error>)
        ensures
            r is Ok <==> (self.adjectives_view().len() > 0 && self.nouns_view().len() > 0
                && self.naming_view().digits_ok()),
            self.adjectives_view().len() == 0 ==> r matches Err(Error::AdjectivesEmpty),
            self.adjectives_view().len() > 0 && self.nouns_view().len() == 0 ==> r matches Err(
                Error::NounsEmpty,
            ),
            self.adjectives_view().len() > 0 && self.nouns_view().len() > 0
                && !self.naming_view().digits_ok() ==> r matches Err(Error::ValidationError(_)),
            r matches Ok(g) ==> {
                &&& views_of(g@.adjectives@) == self.adjectives_view()
                &&& views_of(g@.nouns@) == self.nouns_view()
                &&& g@.naming == self.naming_view()
                &&& g@.casing == self.casing_view()
                &&& g@.length == self.length_view()
            },
    {
        let adjectives = match self.adjectives {
            Some(a) => a,
            None => adjectives(),
        };
        let nouns = match self.nouns {
            Some(n) => n,
            None => nouns(),
        };
        let naming = match self.naming {
            Some(n) => n,
            None => Name::Plain,
        };
        let casing = match self.casing {
            Some(c) => c,
            None => Casing::Lowercase(NumberSeperator::Dash),
        };
        let length = match self.length {
            Some(l) => l,
            None => Length::Unlimited,
        };
        let rng = match self.rng {
            Some(r) => r,
            None => entropy_rng(),
        };
        proof {
            assert(adjectives@.len() == views_of(adjectives@).len());
            assert(nouns@.len() == views_of(nouns@).len());
        }
        Generator::from_config(GeneratorConfig { adjectives, nouns, naming, casing, length }, rng)
    }
}

impl Default for GeneratorBuilder {
    fn default() -> (r: GeneratorBuilder)
        ensures
            r.adjectives is None,
            r.nouns is None,
            r.naming is None,
            r.casing is None,
            r.length is None,
            r.rng is None,
    {
        GeneratorBuilder {
            adjectives: None,
            nouns: None,
            naming: None,
            casing: None,
            length: None,
            rng: None,
        }
    }
}

} // verus!
