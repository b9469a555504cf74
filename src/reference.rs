//! Web addresses of verses on reference sites.

use vstd::prelude::*;

use crate::book::Book;
use crate::codec::{Chapter, Text};
use crate::location::Location;
use crate::strings::{append_chars, append_str, decimal, decimal_string, string_of};
use crate::translation::Translation;

verus! {

/// Something that points at a place: a book, a chapter, and perhaps a verse.
pub trait ReferenceLocator {
    fn book(&self) -> Book;

    fn chapter(&self) -> u16;

    fn verse(&self) -> Option<u16>;
}

impl ReferenceLocator for Location {
    fn book(&self) -> Book {
        self.book
    }

    fn chapter(&self) -> u16 {
        self.chapter
    }

    fn verse(&self) -> Option<u16> {
        Some(self.verse)
    }
}

impl ReferenceLocator for Chapter {
    fn book(&self) -> Book {
        self.book
    }

    fn chapter(&self) -> u16 {
        self.chapter
    }

    fn verse(&self) -> Option<u16> {
        None
    }
}

impl ReferenceLocator for Text {
    fn book(&self) -> Book {
        self.book
    }

    fn chapter(&self) -> u16 {
        self.chapter
    }

    fn verse(&self) -> Option<u16> {
        Some(self.verse)
    }
}

/// A site that shows a verse at a web address.
pub trait Reference {
    fn url(&self, location: &Location, translation: Translation) -> String;
}

/// The sites that references can point to.
#[derive(Clone, Copy, Debug, PartialEq, Eq, Structural)]
pub enum ReferenceProvider {
    Biblia,
}

impl ReferenceProvider {
    /// The provider used when none is chosen.
    pub fn default_provider() -> (r: ReferenceProvider)
        ensures
            r == ReferenceProvider::Biblia,
    {
        ReferenceProvider::Biblia
    }

    /// The provider's short name.
    pub fn short_name(&self) -> (r: &'static str)
        ensures
            r@ == "biblia"@,
    {
        match self {
            ReferenceProvider::Biblia => "biblia",
        }
    }

    /// The provider's address builder.
    pub fn get(&self) -> (r: Biblia) {
        match self {
            ReferenceProvider::Biblia => Biblia,
        }
    }
}

/// Addresses on biblia.com.
#[derive(Clone, Copy, Debug, PartialEq, Eq, Structural)]
pub struct Biblia;

/// The book's name in biblia.com addresses.
pub open spec fn slug_of(book: Book) -> Seq<char> {
    match book {
        Book::Genesis => "genesis"@,
        Book::Exodus => "exodus"@,
        Book::Leviticus => "leviticus"@,
        Book::Numbers => "numbers"@,
        Book::Deuteronomy => "deuteronomy"@,
        Book::Joshua => "joshua"@,
        Book::Judges => "judges"@,
        Book::Ruth => "ruth"@,
        Book::Samuel1 => "1samuel"@,
        Book::Samuel2 => "2samuel"@,
        Book::Kings1 => "1kings"@,
        Book::Kings2 => "2kings"@,
        Book::Chronicles1 => "1chronicles"@,
        Book::Chronicles2 => "2chronicles"@,
        Book::Ezra => "ezra"@,
        Book::Nehemiah => "nehemiah"@,
        Book::Esther => "esther"@,
        Book::Job => "job"@,
        Book::Psalms => "psalms"@,
        Book::Proverbs => "proverbs"@,
        Book::Ecclesiastes => "ecclesiastes"@,
        Book::SongofSongs => "songofsongs"@,
        Book::Isaiah => "isaiah"@,
        Book::Jeremiah => "jeremiah"@,
        Book::Lamentations => "lamentations"@,
        Book::Ezekiel => "ezekiel"@,
        Book::Daniel => "daniel"@,
        Book::Hosea => "hosea"@,
        Book::Joel => "joel"@,
        Book::Amos => "amos"@,
        Book::Obadiah => "obadiah"@,
        Book::Jonah => "jonah"@,
        Book::Micah => "micah"@,
        Book::Nahum => "nahum"@,
        Book::Habakkuk => "habakkuk"@,
        Book::Zephaniah => "zephaniah"@,
        Book::Haggai => "haggai"@,
        Book::Zechariah => "zechariah"@,
        Book::Malachi => "malachi"@,
        Book::Matthew => "matthew"@,
        Book::Mark => "mark"@,
        Book::Luke => "luke"@,
        Book::John => "john"@,
        Book::Acts => "acts"@,
        Book::Romans => "romans"@,
        Book::Corinthians1 => "1corinthians"@,
        Book::Corinthians2 => "2corinthians"@,
        Book::Galatians => "galatians"@,
        Book::Ephesians => "ephesians"@,
        Book::Philippians => "philippians"@,
        Book::Colossians => "colossians"@,
        Book::Thessalonians1 => "1thessalonians"@,
        Book::Thessalonians2 => "2thessalonians"@,
        Book::Timothy1 => "1timothy"@,
        Book::Timothy2 => "2timothy"@,
        Book::Titus => "titus"@,
        Book::Philemon => "philemon"@,
        Book::Hebrews => "hebrews"@,
        Book::James => "james"@,
        Book::Peter1 => "1peter"@,
        Book::Peter2 => "2peter"@,
        Book::John1 => "1john"@,
        Book::John2 => "2john"@,
        Book::John3 => "3john"@,
        Book::Jude => "jude"@,
        Book::Revelation => "revelation"@,
    }
}

/// The book's name in biblia.com addresses.
pub fn book_slug(book: Book) -> (r: &'static str)
    ensures
        r@ == slug_of(book),
{
    match book {
        Book::Genesis => "genesis",
        Book::Exodus => "exodus",
        Book::Leviticus => "leviticus",
        Book::Numbers => "numbers",
        Book::Deuteronomy => "deuteronomy",
        Book::Joshua => "joshua",
        Book::Judges => "judges",
        Book::Ruth => "ruth",
        Book::Samuel1 => "1samuel",
        Book::Samuel2 => "2samuel",
        Book::Kings1 => "1kings",
        Book::Kings2 => "2kings",
        Book::Chronicles1 => "1chronicles",
        Book::Chronicles2 => "2chronicles",
        Book::Ezra => "ezra",
        Book::Nehemiah => "nehemiah",
        Book::Esther => "esther",
        Book::Job => "job",
        Book::Psalms => "psalms",
        Book::Proverbs => "proverbs",
        Book::Ecclesiastes => "ecclesiastes",
        Book::SongofSongs => "songofsongs",
        Book::Isaiah => "isaiah",
        Book::Jeremiah => "jeremiah",
        Book::Lamentations => "lamentations",
        Book::Ezekiel => "ezekiel",
        Book::Daniel => "daniel",
        Book::Hosea => "hosea",
        Book::Joel => "joel",
        Book::Amos => "amos",
        Book::Obadiah => "obadiah",
        Book::Jonah => "jonah",
        Book::Micah => "micah",
        Book::Nahum => "nahum",
        Book::Habakkuk => "habakkuk",
        Book::Zephaniah => "zephaniah",
        Book::Haggai => "haggai",
        Book::Zechariah => "zechariah",
        Book::Malachi => "malachi",
        Book::Matthew => "matthew",
        Book::Mark => "mark",
        Book::Luke => "luke",
        Book::John => "john",
        Book::Acts => "acts",
        Book::Romans => "romans",
        Book::Corinthians1 => "1corinthians",
        Book::Corinthians2 => "2corinthians",
        Book::Galatians => "galatians",
        Book::Ephesians => "ephesians",
        Book::Philippians => "philippians",
        Book::Colossians => "colossians",
        Book::Thessalonians1 => "1thessalonians",
        Book::Thessalonians2 => "2thessalonians",
        Book::Timothy1 => "1timothy",
        Book::Timothy2 => "2timothy",
        Book::Titus => "titus",
        Book::Philemon => "philemon",
        Book::Hebrews => "hebrews",
        Book::James => "james",
        Book::Peter1 => "1peter",
        Book::Peter2 => "2peter",
        Book::John1 => "1john",
        Book::John2 => "2john",
        Book::John3 => "3john",
        Book::Jude => "jude",
        Book::Revelation => "revelation",
    }
}

/// The biblia.com address of a verse.
pub open spec fn biblia_url(location: Location, translation: Translation) -> Seq<char> {
    "https://biblia.com/bible/"@ + translation.spec_name() + seq!['/'] + slug_of(location.book)
        + seq!['/'] + decimal(location.chapter as nat) + seq!['/'] + decimal(
        location.verse as nat,
    )
}

impl Biblia {
    /// The address of `location` in `translation`.
    pub fn url_of(&self, location: &Location, translation: Translation) -> (r: String)
        ensures
            r@ == biblia_url(*location, translation),
    {
        let mut v: Vec<char> = Vec::new();
        append_str(&mut v, "https://biblia.com/bible/");
        append_str(&mut v, translation.name());
        v.push('/');
        append_str(&mut v, book_slug(location.book));
        v.push('/');
        append_chars(&mut v, &decimal_string(location.chapter as u64));
        v.push('/');
        append_chars(&mut v, &decimal_string(location.verse as u64));
        proof {
            assert(v@ =~= biblia_url(*location, translation));
        }
        string_of(&v)
    }
}

impl Reference for Biblia {
    fn url(&self, location: &Location, translation: Translation) -> String {
        self.url_of(location, translation)
    }
}

} // verus!
