//! The text placed between the parts of a name.
use vstd::prelude::*;

verus! {

/// A separator placed before a trailing number, or between the words of
/// the casings that take one.
#[derive(Clone, Debug, PartialEq, Eq, PartialOrd, Ord, Hash)]
pub enum NumberSeperator {
    /// `"-"`, as in `"adjective-noun"`
    Dash,
    /// `"_"`, as in `"adjective_noun"`
    Underscore,
    /// Any other text
    Custom(String),
    /// No separator, as in `"adjectivenoun"`
    Empty,
}

impl NumberSeperator {
    /// The characters that this separator renders to.
    pub open spec fn text(&self) -> Seq<char> {
        match self {
            NumberSeperator::Dash => seq!['-'],
            NumberSeperator::Underscore => seq!['_'],
            NumberSeperator::Custom(s) => s@,
            NumberSeperator::Empty => Seq::empty(),
        }
    }

    /// Whether this is the form that [`NumberSeperator::parse`] gives for
    /// its text: a custom separator never spells `"-"`, `"_"` or nothing.
    pub open spec fn is_canonical(&self) -> bool {
        match self {
            NumberSeperator::Custom(s) => s@ != seq!['-'] && s@ != seq!['_'] && s@.len() != 0,
            _ => true,
        }
    }

    /// Reads a separator from its text: `"-"` is a dash, `"_"` an
    /// underscore, the empty string none, and anything else custom.
    pub fn parse(s: &str) -> (r: NumberSeperator)
        ensures
            r.text() == s@,
            r.is_canonical(),
            s@ == seq!['-'] ==> r is Dash,
            s@ == seq!['_'] ==> r is Underscore,
            s@.len() == 0 ==> r is Empty,
            s@ != seq!['-'] && s@ != seq!['_'] && s@.len() != 0 ==> r is Custom,
    {
        let n = s.unicode_len();
        proof {
            assert(seq!['-'].len() == 1 && seq!['_'].len() == 1);
            assert(seq!['-'] != seq!['_']) by {
                assert(seq!['-'][0] != seq!['_'][0]);
            }
        }
        if n == 0 {
            NumberSeperator::Empty
        } else if n == 1 && s.get_char(0) == '-' {
            NumberSeperator::Dash
        } else if n == 1 && s.get_char(0) == '_' {
            NumberSeperator::Underscore
        } else {
            NumberSeperator::Custom(s.to_owned())
        }
    }

    /// Renders the separator as text.
    pub fn to_string(&self) -> (r: String)
        ensures
            r@ == self.text(),
    {
        match self {
            NumberSeperator::Dash => {
                proof {
                    reveal_strlit("-");
                }
                String::from_str("-")
            },
            NumberSeperator::Underscore => {
                proof {
                    reveal_strlit("_");
                }
                String::from_str("_")
            },
            NumberSeperator::Custom(s) => s.clone(),
            NumberSeperator::Empty => String::new(),
        }
    }
}

/// Two separators in the form that [`NumberSeperator::parse`] gives, with
/// the same text, are the same separator: reading back the text of such a
/// separator gives the separator again.
pub proof fn lemma_separator_text_unique(a: NumberSeperator, b: NumberSeperator)
    requires
        a.is_canonical(),
        b.is_canonical(),
        a.text() == b.text(),
    ensures
        a is Dash <==> b is Dash,
        a is Underscore <==> b is Underscore,
        a is Empty <==> b is Empty,
        a is Custom <==> b is Custom,
{
    assert(seq!['-'].len() == 1 && seq!['_'].len() == 1);
    assert(seq!['-'] != seq!['_']) by {
        assert(seq!['-'][0] != seq!['_'][0]);
    }
}

impl core::str::FromStr for NumberSeperator {
    type Err = core::convert::Infallible;

    fn from_str(s: &str) -> Result<NumberSeperator, core::convert::Infallible> {
        Ok(NumberSeperator::parse(s))
    }
}

impl Default for NumberSeperator {
    fn default() -> (r: NumberSeperator)
        ensures
            r is Dash,
    {
        NumberSeperator::Dash
    }
}

} // verus!
