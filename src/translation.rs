//! The translations of the corpus.

use vstd::prelude::*;

use crate::strings::{abbrev, abbreviate, chars_of, eq_lit, to_upper_all, upper_seq};

verus! {

/// The translations that the corpus comes in.
#[derive(Clone, Copy, Debug, PartialEq, Eq, Structural)]
pub enum Translation {
    /// King James Version
    Kjv,
    /// American Standard Version
    Asv,
}

/// Text that names no translation.
#[derive(Clone, Debug)]
pub struct ParseTranslationError {
    /// The text, cut short for messages.
    pub text: String,
}

impl ParseTranslationError {
    pub fn new(text: &str) -> (r: ParseTranslationError)
        ensures
            r.text@ == abbrev(text@, 7),
    {
        let c = chars_of(text);
        ParseTranslationError { text: abbreviate(&c, 7) }
    }
}

/// The translation that `s` names, in any case.
pub open spec fn translation_named(s: Seq<char>) -> Option<Translation> {
    if upper_seq(s) == "KJV"@ {
        Some(Translation::Kjv)
    } else if upper_seq(s) == "ASV"@ {
        Some(Translation::Asv)
    } else {
        None
    }
}

impl Translation {
    pub open spec fn spec_name(self) -> Seq<char> {
        match self {
            Translation::Kjv => "KJV"@,
            Translation::Asv => "ASV"@,
        }
    }

    /// The translation's short name.
    pub fn name(self) -> (r: &'static str)
        ensures
            r@ == self.spec_name(),
    {
        match self {
            Translation::Kjv => "KJV",
            Translation::Asv => "ASV",
        }
    }

    /// The translation chosen by two flags: ASV where asked for, else KJV.
    pub fn from_flags(kjv: bool, asv: bool) -> (r: Translation)
        ensures
            r == if asv { Translation::Asv } else { Translation::Kjv },
    {
        if asv {
            Translation::Asv
        } else {
            Translation::Kjv
        }
    }

    /// The path that scopes a query to this translation: `/` and its name.
    pub fn facet_path(self) -> (r: String)
        ensures
            r@ == seq!['/'] + self.spec_name(),
    {
        match self {
            Translation::Kjv => {
                let r = String::from_str("/KJV");
                proof {
                    reveal_strlit("/KJV");
                    reveal_strlit("KJV");
                    assert(r@ =~= seq!['/'] + self.spec_name());
                }
                r
            },
            Translation::Asv => {
                let r = String::from_str("/ASV");
                proof {
                    reveal_strlit("/ASV");
                    reveal_strlit("ASV");
                    assert(r@ =~= seq!['/'] + self.spec_name());
                }
                r
            },
        }
    }

    /// Reads a translation's short name, in any case.
    pub fn parse(s: &str) -> (r: Result<Translation, ParseTranslationError>)
        ensures
            match translation_named(s@) {
                Some(t) => r == Ok::<Translation, ParseTranslationError>(t),
                None => r is Err && r->Err_0.text@ == abbrev(s@, 7),
            },
    {
        let c = chars_of(s);
        let u = to_upper_all(&c);
        if eq_lit(&u, "KJV") {
            Ok(Translation::Kjv)
        } else if eq_lit(&u, "ASV") {
            Ok(Translation::Asv)
        } else {
            Err(ParseTranslationError::new(s))
        }
    }
}

} // verus!
