//! How the chosen words are joined and letter-cased.
use vstd::prelude::*;

use crate::case_text::{capitalize, capitalized, lower_of, lowercase, upper_of, uppercase};
use crate::separator::NumberSeperator;

verus! {

/// A casing style: the letter case of each word and the text between them.
#[derive(Clone, Debug, PartialEq, Eq, PartialOrd, Ord, Hash)]
pub enum Casing {
    /// `"adjective-noun"`: every word lower-cased
    Lowercase(NumberSeperator),
    /// `"ADJECTIVE-NOUN"`: every word upper-cased
    Uppercase(NumberSeperator),
    /// `"Adjective-Noun"`: every word capitalized
    Capitalize(NumberSeperator),
    /// `"Adjective-noun"`: the first word capitalized, the others lower-cased
    CapitalizeFirst(NumberSeperator),
    /// `"adjective-Noun"`: the last word capitalized, the others lower-cased
    CapitalizeLast(NumberSeperator),
    /// `"adjective_noun"`
    SnakeCase,
    /// `"ADJECTIVE_NOUN"`
    ScreamingSnakeCase,
    /// `"adjectiveNoun"`: the first word lower-cased, the others capitalized
    CamelCase,
    /// `"AdjectiveNoun"`: every word capitalized
    PascalCase,
    /// `"adjective-noun"`
    KebabCase,
    /// `"ADJECTIVE-NOUN"`
    ScreamingKebabCase,
}

/// Joins the parts with `sep` between each two neighbours.
pub open spec fn joined(parts: Seq<Seq<char>>, sep: Seq<char>) -> Seq<char>
    decreases parts.len(),
{
    if parts.len() == 0 {
        Seq::empty()
    } else if parts.len() == 1 {
        parts[0]
    } else {
        joined(parts.drop_last(), sep) + sep + parts.last()
    }
}

impl Casing {
    /// The text placed between the words.
    pub open spec fn separator_text(&self) -> Seq<char> {
        match self {
            Casing::Lowercase(s) => s.text(),
            Casing::Uppercase(s) => s.text(),
            Casing::Capitalize(s) => s.text(),
            Casing::CapitalizeFirst(s) => s.text(),
            Casing::CapitalizeLast(s) => s.text(),
            Casing::SnakeCase | Casing::ScreamingSnakeCase => seq!['_'],
            Casing::CamelCase | Casing::PascalCase => Seq::empty(),
            Casing::KebabCase | Casing::ScreamingKebabCase => seq!['-'],
        }
    }

    /// The word at position `i` of `n` words, in this casing.
    pub open spec fn styled(&self, i: int, n: int, w: Seq<char>) -> Seq<char> {
        match self {
            Casing::Lowercase(_) | Casing::SnakeCase | Casing::KebabCase => lower_of(w),
            Casing::Uppercase(_) | Casing::ScreamingSnakeCase | Casing::ScreamingKebabCase => {
                upper_of(w)
            },
            Casing::Capitalize(_) | Casing::PascalCase => capitalized(w),
            Casing::CapitalizeFirst(_) => if i == 0 {
                capitalized(w)
            } else {
                lower_of(w)
            },
            Casing::CapitalizeLast(_) => if i == n - 1 {
                capitalized(w)
            } else {
                lower_of(w)
            },
            Casing::CamelCase => if i == 0 {
                lower_of(w)
            } else {
                capitalized(w)
            },
        }
    }

    /// Every word in this casing.
    pub open spec fn styled_words(&self, words: Seq<Seq<char>>) -> Seq<Seq<char>> {
        Seq::new(words.len(), |i: int| self.styled(i, words.len() as int, words[i]))
    }

    /// The words in this casing, joined by its separator.
    pub open spec fn cased(&self, words: Seq<Seq<char>>) -> Seq<char> {
        joined(self.styled_words(words), self.separator_text())
    }

    /// Returns the separator of the casing style.
    pub fn seperator(&self) -> (r: String)
        ensures
            r@ == self.separator_text(),
    {
        match self {
            Casing::Lowercase(s) => s.to_string(),
            Casing::Uppercase(s) => s.to_string(),
            Casing::Capitalize(s) => s.to_string(),
            Casing::CapitalizeFirst(s) => s.to_string(),
            Casing::CapitalizeLast(s) => s.to_string(),
            Casing::SnakeCase | Casing::ScreamingSnakeCase => {
                proof {
                    reveal_strlit("_");
                }
                String::from_str("_")
            },
            Casing::CamelCase | Casing::PascalCase => String::new(),
            Casing::KebabCase | Casing::ScreamingKebabCase => {
                proof {
                    reveal_strlit("-");
                }
                String::from_str("-")
            },
        }
    }

    /// The word at position `i` of `n` words, in this casing.
    fn style(&self, i: usize, n: usize, w: &str) -> (r: String)
        ensures
            r@ == self.styled(i as int, n as int, w@),
    {
        match self {
            Casing::Lowercase(_) | Casing::SnakeCase | Casing::KebabCase => lowercase(w),
            Casing::Uppercase(_) | Casing::ScreamingSnakeCase | Casing::ScreamingKebabCase => {
                uppercase(w)
            },
            Casing::Capitalize(_) | Casing::PascalCase => capitalize(w),
            Casing::CapitalizeFirst(_) => if i == 0 {
                capitalize(w)
            } else {
                lowercase(w)
            },
            Casing::CapitalizeLast(_) => if n >= 1 && i == n - 1 {
                capitalize(w)
            } else {
                lowercase(w)
            },
            Casing::CamelCase => if i == 0 {
                lowercase(w)
            } else {
                capitalize(w)
            },
        }
    }

    /// Applies the casing style to the given words.
    pub fn apply(&self, words: Vec<&str>) -> (r: String)
        ensures
            r@ == self.cased(words@.map_values(|w: &str| w@)),
    {
        let ghost ws = words@.map_values(|w: &str| w@);
        let ghost parts = self.styled_words(ws);
        let sep = self.seperator();
        let n = words.len();
        let mut out = String::new();
        let mut i: usize = 0;
        while i < n
            invariant
                n == words@.len(),
                ws == words@.map_values(|w: &str| w@),
                parts == self.styled_words(ws),
                sep@ == self.separator_text(),
                i <= n,
                out@ == joined(parts.take(i as int), sep@),
            decreases n - i,
        {
            let word = self.style(i, n, words[i]);
            proof {
                let next = parts.take(i as int + 1);
                assert(next.drop_last() =~= parts.take(i as int));
                assert(next.last() == word@);
            }
            if i > 0 {
                out.append(sep.as_str());
            } else {
                assert(parts.take(1) =~= seq![word@]);
            }
            out.append(word.as_str());
            i = i + 1;
        }
        assert(parts.take(n as int) =~= parts);
        out
    }
}

impl Default for Casing {
    fn default() -> (r: Casing)
        ensures
            r == Casing::Lowercase(NumberSeperator::Dash),
    {
        Casing::Lowercase(NumberSeperator::Dash)
    }
}

} // verus!
