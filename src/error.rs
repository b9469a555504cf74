//! Lookup errors and short forms of text for messages.

use vstd::prelude::*;

use crate::book::Book;
use crate::location::{location_text, PartialLocation};
use crate::strings::{abbrev, abbreviate, append_str, chars_of, string_of};

verus! {

/// What a lookup did not find.
#[derive(Clone, Copy, Debug, PartialEq, Eq, Structural)]
pub enum Entity {
    Book,
    Chapter,
    Verse,
}

impl Entity {
    /// The entity's name in messages.
    pub fn name(self) -> (r: &'static str)
        ensures
            r@ == self.spec_name(),
    {
        match self {
            Entity::Book => "book",
            Entity::Chapter => "chapter",
            Entity::Verse => "verse",
        }
    }
}

/// A well-formed address that the corpus does not hold.
#[derive(Clone, Copy, Debug, PartialEq, Eq, Structural)]
pub struct NotFound {
    pub entity: Entity,
    pub book: Book,
    pub location: Option<PartialLocation>,
}

/// The library's errors at run time.
#[derive(Clone, Copy, Debug, PartialEq, Eq, Structural)]
pub enum Error {
    NotFound(NotFound),
}

impl Entity {
    pub open spec fn spec_name(self) -> Seq<char> {
        match self {
            Entity::Book => "book"@,
            Entity::Chapter => "chapter"@,
            Entity::Verse => "verse"@,
        }
    }
}

impl NotFound {
    /// The message for this error: `chapter not found: Psalms [150]`.
    pub fn message(&self) -> (r: String)
        ensures
            r@ == self.message_spec(),
    {
        let mut r: Vec<char> = Vec::new();
        append_str(&mut r, self.entity.name());
        append_str(&mut r, " not found: ");
        append_str(&mut r, self.book.name());
        if let Some(l) = self.location {
            r.push(' ');
            let t = l.display();
            append_str(&mut r, t.as_str());
        }
        proof {
            assert(r@ =~= self.message_spec());
        }
        string_of(&r)
    }
}

impl Error {
    /// The message for this error.
    pub fn message(&self) -> (r: String)
        ensures
            match self {
                Error::NotFound(n) => r@ == n.message_spec(),
            },
    {
        match self {
            Error::NotFound(n) => n.message(),
        }
    }
}

impl NotFound {
    /// The message: the entity, "not found", the book, and the location if any.
    pub open spec fn message_spec(self) -> Seq<char> {
        self.entity.spec_name() + " not found: "@ + self.book.spec_name() + match self.location {
            Some(l) => seq![' '] + location_text(l),
            None => Seq::empty(),
        }
    }
}

/// Text that can be cut short for messages.
pub trait AbbrevStr: View<V = Seq<char>> + Sized {
    /// At most `limit` characters of the text, and "..." after them where
    /// some were left out.
    fn get(self, limit: usize) -> (r: String)
        ensures
            r@ == abbrev(self@, limit as nat),
    ;
}

impl<'a> AbbrevStr for &'a str {
    fn get(self, limit: usize) -> String {
        let c = chars_of(self);
        abbreviate(&c, limit)
    }
}

impl AbbrevStr for String {
    fn get(self, limit: usize) -> String {
        let c = chars_of(self.as_str());
        abbreviate(&c, limit)
    }
}

} // verus!
