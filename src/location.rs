//! Chapter and verse locations, verse spans, and full references.

use vstd::prelude::*;

use crate::book::{parse_book, Book, ParseBookError};
use crate::strings::{
    abbrev, abbreviate, append_chars, chars_of, decimal, decimal_string, parse_u16, parse_uint,
    split_once, split_once_at, string_of, IntError,
};

verus! {

/// A single verse, or an inclusive span of verses, within one chapter.
#[derive(Clone, Copy, Debug, PartialEq, Eq, Structural)]
pub struct Verse {
    /// The first verse; never zero.
    pub start: u16,
    /// The last verse of a span, at least `start`; `None` for a single verse.
    pub end: Option<u16>,
}

impl Verse {
    pub open spec fn wf(self) -> bool {
        self.start > 0 && match self.end {
            Some(e) => e >= self.start,
            None => true,
        }
    }

    pub open spec fn spec_contains(self, verse: u16) -> bool {
        verse != 0 && match self.end {
            Some(e) => self.start <= verse <= e,
            None => verse == self.start,
        }
    }

    /// Whether `verse` is this verse, or lies in this span.
    pub fn contains(&self, verse: u16) -> (r: bool)
        ensures
            r == self.spec_contains(verse),
    {
        if verse == 0 {
            return false;
        }
        match self.end {
            Some(end) => verse >= self.start && verse <= end,
            None => verse == self.start,
        }
    }

    /// Reads a verse, `16`, or a span, `4-5`.
    pub fn parse(s: &str) -> (r: Result<Verse, ParseLocationError>)
        ensures
            match verse_from(s@) {
                Ok(v) => r == Ok::<Verse, ParseLocationError>(v),
                Err(e) => r is Err && r->Err_0@ == LocationFault::Verse(abbrev(s@, 10), e),
            },
            r is Ok ==> r->Ok_0.wf(),
    {
        let c = chars_of(s);
        match verse_of(&c) {
            Ok(v) => Ok(v),
            Err(e) => Err(ParseLocationError::verse_chars(&c, e)),
        }
    }
}

/// A single verse holds itself; a span holds exactly the verses from its
/// start to its end; no verse or span holds verse zero.
pub proof fn law_verse_contains(v: Verse, x: u16)
    requires
        v.wf(),
    ensures
        v.end is None ==> v.spec_contains(v.start),
        v.end == Some(v.start) ==> v.spec_contains(v.start),
        v.end matches Some(e) ==> (v.spec_contains(x) <==> v.start <= x <= e),
        !v.spec_contains(0),
{
}

/// How reading `s` as a verse number turns out: zero is refused.
pub open spec fn parse_nonzero(s: Seq<char>) -> Result<nat, IntError> {
    match parse_uint(s, 0xffff) {
        Ok(v) => if v == 0 { Err(IntError::Zero) } else { Ok(v) },
        Err(e) => Err(e),
    }
}

/// The verse or span that `s` writes, as `16` or `4-5`.
pub open spec fn verse_from(s: Seq<char>) -> Result<Verse, IntError> {
    match split_once(s, '-') {
        Some(p) => match parse_nonzero(p.0) {
            Ok(a) => match parse_nonzero(p.1) {
                Ok(b) => if b >= a {
                    Ok(Verse { start: a as u16, end: Some(b as u16) })
                } else {
                    Err(IntError::Reversed)
                },
                Err(e) => Err(e),
            },
            Err(e) => Err(e),
        },
        None => match parse_nonzero(s) {
            Ok(a) => Ok(Verse { start: a as u16, end: None }),
            Err(e) => Err(e),
        },
    }
}

fn parse_nonzero_u16(s: &[char]) -> (r: Result<u16, IntError>)
    ensures
        match parse_nonzero(s@) {
            Ok(v) => r == Ok::<u16, IntError>(v as u16) && v <= 0xffff,
            Err(e) => r == Err::<u16, IntError>(e),
        },
{
    match parse_u16(s) {
        Ok(v) => {
            if v == 0 {
                Err(IntError::Zero)
            } else {
                Ok(v)
            }
        },
        Err(e) => Err(e),
    }
}

fn verse_of(s: &[char]) -> (r: Result<Verse, IntError>)
    ensures
        match verse_from(s@) {
            Ok(v) => r == Ok::<Verse, IntError>(v) && v.wf(),
            Err(e) => r == Err::<Verse, IntError>(e),
        },
{
    match split_once_at(s, '-') {
        Some((a, b)) => {
            let start = parse_nonzero_u16(&a)?;
            let end = parse_nonzero_u16(&b)?;
            if end >= start {
                Ok(Verse { start, end: Some(end) })
            } else {
                Err(IntError::Reversed)
            }
        },
        None => {
            let start = parse_nonzero_u16(s)?;
            Ok(Verse { start, end: None })
        },
    }
}

/// A chapter of some book, and optionally a verse or span in it.
#[derive(Clone, Copy, Debug, PartialEq, Eq, Structural)]
pub struct PartialLocation {
    pub chapter: u16,
    pub verse: Option<Verse>,
}

/// The location that `s` writes, `3`, `3:16` or `127:4-5`, or the error.
pub open spec fn partial_location_from(s: Seq<char>) -> Result<PartialLocation, LocationFault> {
    let chapter = match split_once(s, ':') {
        Some(p) => p.0,
        None => s,
    };
    let verse = match split_once(s, ':') {
        Some(p) => p.1,
        None => Seq::empty(),
    };
    match parse_uint(chapter, 0xffff) {
        Err(e) => Err(LocationFault::Chapter(abbrev(chapter, 10), e)),
        Ok(c) => if verse.len() == 0 {
            Ok(PartialLocation { chapter: c as u16, verse: None })
        } else {
            match verse_from(verse) {
                Ok(v) => Ok(PartialLocation { chapter: c as u16, verse: Some(v) }),
                Err(e) => Err(LocationFault::Verse(abbrev(verse, 10), e)),
            }
        },
    }
}

impl PartialLocation {
    /// Reads a chapter, with an optional verse or span after a colon.
    pub fn parse(s: &str) -> (r: Result<PartialLocation, ParseLocationError>)
        ensures
            match partial_location_from(s@) {
                Ok(l) => r == Ok::<PartialLocation, ParseLocationError>(l),
                Err(f) => r is Err && r->Err_0@ == f,
            },
    {
        let c = chars_of(s);
        let (chapter, verse) = match split_once_at(&c, ':') {
            Some((a, b)) => (a, b),
            None => (c, Vec::new()),
        };
        proof {
            assert(chapter@ == match split_once(s@, ':') { Some(p) => p.0, None => s@ });
        }
        let chapter_number = match parse_u16(&chapter) {
            Ok(n) => n,
            Err(e) => {
                return Err(ParseLocationError::chapter_chars(&chapter, e));
            },
        };
        if verse.len() == 0 {
            return Ok(PartialLocation { chapter: chapter_number, verse: None });
        }
        match verse_of(&verse) {
            Ok(v) => Ok(PartialLocation { chapter: chapter_number, verse: Some(v) }),
            Err(e) => Err(ParseLocationError::verse_chars(&verse, e)),
        }
    }
}

/// A chapter or verse field that could not be read.
#[derive(Clone, Debug)]
pub enum ParseLocationError {
    Chapter { text: String, cause: IntError },
    Verse { text: String, cause: IntError },
}

/// What a `ParseLocationError` says: the field, its text cut short, and why.
pub enum LocationFault {
    Chapter(Seq<char>, IntError),
    Verse(Seq<char>, IntError),
}

impl View for ParseLocationError {
    type V = LocationFault;

    open spec fn view(&self) -> LocationFault {
        match self {
            ParseLocationError::Chapter { text, cause } => LocationFault::Chapter(text@, *cause),
            ParseLocationError::Verse { text, cause } => LocationFault::Verse(text@, *cause),
        }
    }
}

impl ParseLocationError {
    /// The error for chapter field `text`.
    pub fn chapter(text: &str, cause: IntError) -> (r: ParseLocationError)
        ensures
            r@ == LocationFault::Chapter(abbrev(text@, 10), cause),
    {
        let c = chars_of(text);
        ParseLocationError::chapter_chars(&c, cause)
    }

    /// The error for verse field `text`.
    pub fn verse(text: &str, cause: IntError) -> (r: ParseLocationError)
        ensures
            r@ == LocationFault::Verse(abbrev(text@, 10), cause),
    {
        let c = chars_of(text);
        ParseLocationError::verse_chars(&c, cause)
    }

    fn chapter_chars(text: &[char], cause: IntError) -> (r: ParseLocationError)
        ensures
            r@ == LocationFault::Chapter(abbrev(text@, 10), cause),
    {
        ParseLocationError::Chapter { text: abbreviate(text, 10), cause }
    }

    fn verse_chars(text: &[char], cause: IntError) -> (r: ParseLocationError)
        ensures
            r@ == LocationFault::Verse(abbrev(text@, 10), cause),
    {
        ParseLocationError::Verse { text: abbreviate(text, 10), cause }
    }
}

/// Book, chapter and verse: the place of one verse.
#[derive(Clone, Copy, Debug, PartialEq, Eq, Structural)]
pub struct Location {
    pub book: Book,
    pub chapter: u16,
    pub verse: u16,
}

impl Location {
    /// The location that a numeric id `BBCCCVVV` stands for: book, then three
    /// digits of chapter, then three of verse.
    pub fn from_id(id: u64) -> (r: Location)
        requires
            1 <= id / 1_000_000 <= 66,
        ensures
            r.book.ordinal() == id / 1_000_000,
            r.chapter == (id % 1_000_000 / 1000) as u16,
            r.verse == (id % 1000) as u16,
    {
        Location {
            book: Book::from_u8((id / 1_000_000) as u8),
            chapter: (id % 1_000_000 / 1000) as u16,
            verse: (id % 1000) as u16,
        }
    }
}

} // verus!

verus! {

/// A full reference that could not be read.
#[derive(Clone, Debug)]
pub enum ParseReferenceError {
    /// The `.` after the book or the `:` after the chapter is missing.
    Format,
    Book(ParseBookError),
    Location(ParseLocationError),
}

/// How reading a full reference `<book>.<chapter>:<verse>` turns out:
/// `Err(0)` for a missing separator, `Err(1)` for the book, `Err(2)` for the
/// chapter, `Err(3)` for the verse.
pub open spec fn reference_from(s: Seq<char>) -> Result<(Book, u16, u16), int> {
    match split_once(s, '.') {
        None => Err(0),
        Some(p) => match split_once(p.1, ':') {
            None => Err(0),
            Some(q) => match parse_book(p.0) {
                None => Err(1),
                Some(b) => match parse_uint(q.0, 0xffff) {
                    Err(_) => Err(2),
                    Ok(c) => match parse_nonzero(q.1) {
                        Err(_) => Err(3),
                        Ok(v) => Ok((b, c as u16, v as u16)),
                    },
                },
            },
        },
    }
}

impl Location {
    /// Reads a full reference, such as `john.3:16`.
    pub fn parse(s: &str) -> (r: Result<Location, ParseReferenceError>)
        ensures
            match reference_from(s@) {
                Ok(f) => r == Ok::<Location, ParseReferenceError>(
                    Location { book: f.0, chapter: f.1, verse: f.2 },
                ),
                Err(k) => match r {
                    Err(ParseReferenceError::Format) => k == 0,
                    Err(ParseReferenceError::Book(_)) => k == 1,
                    Err(ParseReferenceError::Location(e)) => (k == 2 && e@ is Chapter) || (k == 3
                        && e@ is Verse),
                    Ok(_) => false,
                },
            },
    {
        let c = chars_of(s);
        let (book_part, rest) = match split_once_at(&c, '.') {
            Some(p) => p,
            None => {
                return Err(ParseReferenceError::Format);
            },
        };
        let (chapter_part, verse_part) = match split_once_at(&rest, ':') {
            Some(p) => p,
            None => {
                return Err(ParseReferenceError::Format);
            },
        };
        let book_text = string_of(&book_part);
        let book = match Book::parse(book_text.as_str()) {
            Ok(b) => b,
            Err(e) => {
                return Err(ParseReferenceError::Book(e));
            },
        };
        let chapter = match parse_u16(&chapter_part) {
            Ok(n) => n,
            Err(e) => {
                return Err(
                    ParseReferenceError::Location(ParseLocationError::chapter_chars(&chapter_part, e)),
                );
            },
        };
        let verse = match parse_nonzero_u16(&verse_part) {
            Ok(n) => n,
            Err(e) => {
                return Err(
                    ParseReferenceError::Location(ParseLocationError::verse_chars(&verse_part, e)),
                );
            },
        };
        Ok(Location { book, chapter, verse })
    }
}

} // verus!

verus! {

/// A verse as written: `16`, or a span `4-5`.
pub open spec fn verse_text(v: Verse) -> Seq<char> {
    match v.end {
        Some(e) => decimal(v.start as nat) + seq!['-'] + decimal(e as nat),
        None => decimal(v.start as nat),
    }
}

/// A location as written in messages: `[3:16]`, `[127:4-5]` or `[23]`.
pub open spec fn location_text(l: PartialLocation) -> Seq<char> {
    match l.verse {
        Some(v) => seq!['['] + decimal(l.chapter as nat) + seq![':'] + verse_text(v) + seq![']'],
        None => seq!['['] + decimal(l.chapter as nat) + seq![']'],
    }
}

fn verse_chars(v: &Verse) -> (r: Vec<char>)
    ensures
        r@ == verse_text(*v),
{
    let mut r = decimal_string(v.start as u64);
    if let Some(e) = v.end {
        r.push('-');
        append_chars(&mut r, &decimal_string(e as u64));
    }
    r
}

impl Verse {
    /// The verse as written.
    pub fn display(&self) -> (r: String)
        ensures
            r@ == verse_text(*self),
    {
        string_of(&verse_chars(self))
    }
}

impl PartialLocation {
    /// The location as written in messages.
    pub fn display(&self) -> (r: String)
        ensures
            r@ == location_text(*self),
    {
        let mut r: Vec<char> = Vec::new();
        r.push('[');
        append_chars(&mut r, &decimal_string(self.chapter as u64));
        if let Some(v) = self.verse {
            r.push(':');
            append_chars(&mut r, &verse_chars(&v));
        }
        r.push(']');
        proof {
            assert(r@ =~= location_text(*self));
        }
        string_of(&r)
    }
}

} // verus!
