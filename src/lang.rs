//! The languages of the ontology, named by their two-letter codes.
use vstd::prelude::*;
use crate::text::str_eq;

verus! {

/// Enumerates all language supported for the general purpose ontology.
#[derive(Copy, Clone, Debug, PartialEq, Eq, Structural)]
pub enum Lang {
    /// English
    EN,
    /// French
    FR,
    /// Spanish
    ES,
}

/// What `str::to_lowercase` makes of a string.
pub uninterp spec fn lower_of(s: Seq<char>) -> Seq<char>;

/// Relies on `str::to_lowercase`: its result depends on the characters alone.
#[verifier::external_body]
fn lowercase(s: &str) -> (r: String)
    ensures
        r@ == lower_of(s@),
{
    s.to_lowercase()
}

/// The language whose code is exactly `name`.
pub open spec fn lang_named(name: Seq<char>) -> Option<Lang> {
    if name == "en"@ {
        Some(Lang::EN)
    } else if name == "fr"@ {
        Some(Lang::FR)
    } else if name == "es"@ {
        Some(Lang::ES)
    } else {
        None
    }
}

impl Lang {
    /// The two-letter code of the language.
    pub open spec fn code(self) -> Seq<char> {
        match self {
            Lang::EN => "en"@,
            Lang::FR => "fr"@,
            Lang::ES => "es"@,
        }
    }

    /// The language of a code already in lower case.
    pub fn from_lowercase_code(name: &str) -> (r: Option<Lang>)
        ensures
            r == lang_named(name@),
    {
        if str_eq(name, "en") {
            Some(Lang::EN)
        } else if str_eq(name, "fr") {
            Some(Lang::FR)
        } else if str_eq(name, "es") {
            Some(Lang::ES)
        } else {
            None
        }
    }

    /// The language of a code in any case; an unknown code gives the message
    /// `Unknown language <code>`.
    pub fn parse_code(it: &str) -> (r: Result<Lang, String>)
        ensures
            r matches Ok(l) ==> lang_named(lower_of(it@)) == Some(l),
            r matches Err(e) ==> lang_named(lower_of(it@)) is None
                && e@ == "Unknown language "@ + it@,
    {
        let lowered = lowercase(it);
        match Lang::from_lowercase_code(lowered.as_str()) {
            Some(l) => Ok(l),
            None => {
                let msg = String::from_str("Unknown language ");
                Err(msg.concat(it))
            },
        }
    }

    /// The two-letter code of the language.
    pub fn to_string(&self) -> (r: String)
        ensures
            r@ == self.code(),
    {
        match self {
            Lang::EN => String::from_str("en"),
            Lang::FR => String::from_str("fr"),
            Lang::ES => String::from_str("es"),
        }
    }
}

/// Each language's code names that language and no other.
pub proof fn lemma_code_names_lang(l: Lang)
    ensures
        lang_named(l.code()) == Some(l),
{
    reveal_strlit("en");
    reveal_strlit("fr");
    reveal_strlit("es");
    assert("en"@[0] != "fr"@[0]);
    assert("en"@[1] != "es"@[1]);
    assert("fr"@[0] != "es"@[0]);
}

impl std::str::FromStr for Lang {
    type Err = String;

    fn from_str(it: &str) -> Result<Lang, String> {
        Lang::parse_code(it)
    }
}

} // verus!
