//! The sixty-six books: ordinals, display names, and reading a book name
//! with or without its number.

use vstd::prelude::*;
use vstd::utf8::{encode_scalar, encode_utf8};

use crate::strings::{
    abbrev, abbreviate, alphabetic, chars_of, eq_lit, is_alphabetic, is_digit, parse_u8, parse_uint,
    slice_chars, to_upper_all, trim, trimmed, upper_seq, whitespace, is_whitespace,
};

verus! {

/// One of the sixty-six books, in canonical order.
#[derive(Clone, Copy, Debug, PartialEq, Eq, Structural, PartialOrd, Ord, Hash)]
pub enum Book {
    Genesis,
    Exodus,
    Leviticus,
    Numbers,
    Deuteronomy,
    Joshua,
    Judges,
    Ruth,
    Samuel1,
    Samuel2,
    Kings1,
    Kings2,
    Chronicles1,
    Chronicles2,
    Ezra,
    Nehemiah,
    Esther,
    Job,
    Psalms,
    Proverbs,
    Ecclesiastes,
    SongofSongs,
    Isaiah,
    Jeremiah,
    Lamentations,
    Ezekiel,
    Daniel,
    Hosea,
    Joel,
    Amos,
    Obadiah,
    Jonah,
    Micah,
    Nahum,
    Habakkuk,
    Zephaniah,
    Haggai,
    Zechariah,
    Malachi,
    Matthew,
    Mark,
    Luke,
    John,
    Acts,
    Romans,
    Corinthians1,
    Corinthians2,
    Galatians,
    Ephesians,
    Philippians,
    Colossians,
    Thessalonians1,
    Thessalonians2,
    Timothy1,
    Timothy2,
    Titus,
    Philemon,
    Hebrews,
    James,
    Peter1,
    Peter2,
    John1,
    John2,
    John3,
    Jude,
    Revelation,
}

impl Book {
    /// The book's place in canonical order, from 1 to 66.
    pub open spec fn ordinal(self) -> u8 {
        match self {
            Book::Genesis => 1,
            Book::Exodus => 2,
            Book::Leviticus => 3,
            Book::Numbers => 4,
            Book::Deuteronomy => 5,
            Book::Joshua => 6,
            Book::Judges => 7,
            Book::Ruth => 8,
            Book::Samuel1 => 9,
            Book::Samuel2 => 10,
            Book::Kings1 => 11,
            Book::Kings2 => 12,
            Book::Chronicles1 => 13,
            Book::Chronicles2 => 14,
            Book::Ezra => 15,
            Book::Nehemiah => 16,
            Book::Esther => 17,
            Book::Job => 18,
            Book::Psalms => 19,
            Book::Proverbs => 20,
            Book::Ecclesiastes => 21,
            Book::SongofSongs => 22,
            Book::Isaiah => 23,
            Book::Jeremiah => 24,
            Book::Lamentations => 25,
            Book::Ezekiel => 26,
            Book::Daniel => 27,
            Book::Hosea => 28,
            Book::Joel => 29,
            Book::Amos => 30,
            Book::Obadiah => 31,
            Book::Jonah => 32,
            Book::Micah => 33,
            Book::Nahum => 34,
            Book::Habakkuk => 35,
            Book::Zephaniah => 36,
            Book::Haggai => 37,
            Book::Zechariah => 38,
            Book::Malachi => 39,
            Book::Matthew => 40,
            Book::Mark => 41,
            Book::Luke => 42,
            Book::John => 43,
            Book::Acts => 44,
            Book::Romans => 45,
            Book::Corinthians1 => 46,
            Book::Corinthians2 => 47,
            Book::Galatians => 48,
            Book::Ephesians => 49,
            Book::Philippians => 50,
            Book::Colossians => 51,
            Book::Thessalonians1 => 52,
            Book::Thessalonians2 => 53,
            Book::Timothy1 => 54,
            Book::Timothy2 => 55,
            Book::Titus => 56,
            Book::Philemon => 57,
            Book::Hebrews => 58,
            Book::James => 59,
            Book::Peter1 => 60,
            Book::Peter2 => 61,
            Book::John1 => 62,
            Book::John2 => 63,
            Book::John3 => 64,
            Book::Jude => 65,
            Book::Revelation => 66,
        }
    }

    /// The book's display name.
    pub open spec fn spec_name(self) -> Seq<char> {
        match self {
            Book::Genesis => "Genesis"@,
            Book::Exodus => "Exodus"@,
            Book::Leviticus => "Leviticus"@,
            Book::Numbers => "Numbers"@,
            Book::Deuteronomy => "Deuteronomy"@,
            Book::Joshua => "Joshua"@,
            Book::Judges => "Judges"@,
            Book::Ruth => "Ruth"@,
            Book::Samuel1 => "1 Samuel"@,
            Book::Samuel2 => "2 Samuel"@,
            Book::Kings1 => "1 Kings"@,
            Book::Kings2 => "2 Kings"@,
            Book::Chronicles1 => "1 Chronicles"@,
            Book::Chronicles2 => "2 Chronicles"@,
            Book::Ezra => "Ezra"@,
            Book::Nehemiah => "Nehemiah"@,
            Book::Esther => "Esther"@,
            Book::Job => "Job"@,
            Book::Psalms => "Psalms"@,
            Book::Proverbs => "Proverbs"@,
            Book::Ecclesiastes => "Ecclesiastes"@,
            Book::SongofSongs => "Song of Songs"@,
            Book::Isaiah => "Isaiah"@,
            Book::Jeremiah => "Jeremiah"@,
            Book::Lamentations => "Lamentations"@,
            Book::Ezekiel => "Ezekiel"@,
            Book::Daniel => "Daniel"@,
            Book::Hosea => "Hosea"@,
            Book::Joel => "Joel"@,
            Book::Amos => "Amos"@,
            Book::Obadiah => "Obadiah"@,
            Book::Jonah => "Jonah"@,
            Book::Micah => "Micah"@,
            Book::Nahum => "Nahum"@,
            Book::Habakkuk => "Habakkuk"@,
            Book::Zephaniah => "Zephaniah"@,
            Book::Haggai => "Haggai"@,
            Book::Zechariah => "Zechariah"@,
            Book::Malachi => "Malachi"@,
            Book::Matthew => "Matthew"@,
            Book::Mark => "Mark"@,
            Book::Luke => "Luke"@,
            Book::John => "John"@,
            Book::Acts => "Acts"@,
            Book::Romans => "Romans"@,
            Book::Corinthians1 => "1 Corinthians"@,
            Book::Corinthians2 => "2 Corinthians"@,
            Book::Galatians => "Galatians"@,
            Book::Ephesians => "Ephesians"@,
            Book::Philippians => "Philippians"@,
            Book::Colossians => "Colossians"@,
            Book::Thessalonians1 => "1 Thessalonians"@,
            Book::Thessalonians2 => "2 Thessalonians"@,
            Book::Timothy1 => "1 Timothy"@,
            Book::Timothy2 => "2 Timothy"@,
            Book::Titus => "Titus"@,
            Book::Philemon => "Philemon"@,
            Book::Hebrews => "Hebrews"@,
            Book::James => "James"@,
            Book::Peter1 => "1 Peter"@,
            Book::Peter2 => "2 Peter"@,
            Book::John1 => "1 John"@,
            Book::John2 => "2 John"@,
            Book::John3 => "3 John"@,
            Book::Jude => "Jude"@,
            Book::Revelation => "Revelation"@,
        }
    }

    /// The book at place `u` of canonical order.
    pub fn from_u8(u: u8) -> (r: Book)
        requires
            1 <= u <= 66,
        ensures
            r.ordinal() == u,
    {
        match u {
            1 => Book::Genesis,
            2 => Book::Exodus,
            3 => Book::Leviticus,
            4 => Book::Numbers,
            5 => Book::Deuteronomy,
            6 => Book::Joshua,
            7 => Book::Judges,
            8 => Book::Ruth,
            9 => Book::Samuel1,
            10 => Book::Samuel2,
            11 => Book::Kings1,
            12 => Book::Kings2,
            13 => Book::Chronicles1,
            14 => Book::Chronicles2,
            15 => Book::Ezra,
            16 => Book::Nehemiah,
            17 => Book::Esther,
            18 => Book::Job,
            19 => Book::Psalms,
            20 => Book::Proverbs,
            21 => Book::Ecclesiastes,
            22 => Book::SongofSongs,
            23 => Book::Isaiah,
            24 => Book::Jeremiah,
            25 => Book::Lamentations,
            26 => Book::Ezekiel,
            27 => Book::Daniel,
            28 => Book::Hosea,
            29 => Book::Joel,
            30 => Book::Amos,
            31 => Book::Obadiah,
            32 => Book::Jonah,
            33 => Book::Micah,
            34 => Book::Nahum,
            35 => Book::Habakkuk,
            36 => Book::Zephaniah,
            37 => Book::Haggai,
            38 => Book::Zechariah,
            39 => Book::Malachi,
            40 => Book::Matthew,
            41 => Book::Mark,
            42 => Book::Luke,
            43 => Book::John,
            44 => Book::Acts,
            45 => Book::Romans,
            46 => Book::Corinthians1,
            47 => Book::Corinthians2,
            48 => Book::Galatians,
            49 => Book::Ephesians,
            50 => Book::Philippians,
            51 => Book::Colossians,
            52 => Book::Thessalonians1,
            53 => Book::Thessalonians2,
            54 => Book::Timothy1,
            55 => Book::Timothy2,
            56 => Book::Titus,
            57 => Book::Philemon,
            58 => Book::Hebrews,
            59 => Book::James,
            60 => Book::Peter1,
            61 => Book::Peter2,
            62 => Book::John1,
            63 => Book::John2,
            64 => Book::John3,
            65 => Book::Jude,
            _ => Book::Revelation,
        }
    }

    /// The book's place in canonical order.
    pub fn to_u8(self) -> (r: u8)
        ensures
            r == self.ordinal(),
            1 <= r <= 66,
    {
        match self {
            Book::Genesis => 1,
            Book::Exodus => 2,
            Book::Leviticus => 3,
            Book::Numbers => 4,
            Book::Deuteronomy => 5,
            Book::Joshua => 6,
            Book::Judges => 7,
            Book::Ruth => 8,
            Book::Samuel1 => 9,
            Book::Samuel2 => 10,
            Book::Kings1 => 11,
            Book::Kings2 => 12,
            Book::Chronicles1 => 13,
            Book::Chronicles2 => 14,
            Book::Ezra => 15,
            Book::Nehemiah => 16,
            Book::Esther => 17,
            Book::Job => 18,
            Book::Psalms => 19,
            Book::Proverbs => 20,
            Book::Ecclesiastes => 21,
            Book::SongofSongs => 22,
            Book::Isaiah => 23,
            Book::Jeremiah => 24,
            Book::Lamentations => 25,
            Book::Ezekiel => 26,
            Book::Daniel => 27,
            Book::Hosea => 28,
            Book::Joel => 29,
            Book::Amos => 30,
            Book::Obadiah => 31,
            Book::Jonah => 32,
            Book::Micah => 33,
            Book::Nahum => 34,
            Book::Habakkuk => 35,
            Book::Zephaniah => 36,
            Book::Haggai => 37,
            Book::Zechariah => 38,
            Book::Malachi => 39,
            Book::Matthew => 40,
            Book::Mark => 41,
            Book::Luke => 42,
            Book::John => 43,
            Book::Acts => 44,
            Book::Romans => 45,
            Book::Corinthians1 => 46,
            Book::Corinthians2 => 47,
            Book::Galatians => 48,
            Book::Ephesians => 49,
            Book::Philippians => 50,
            Book::Colossians => 51,
            Book::Thessalonians1 => 52,
            Book::Thessalonians2 => 53,
            Book::Timothy1 => 54,
            Book::Timothy2 => 55,
            Book::Titus => 56,
            Book::Philemon => 57,
            Book::Hebrews => 58,
            Book::James => 59,
            Book::Peter1 => 60,
            Book::Peter2 => 61,
            Book::John1 => 62,
            Book::John2 => 63,
            Book::John3 => 64,
            Book::Jude => 65,
            Book::Revelation => 66,
        }
    }

    /// The book's display name.
    pub fn name(self) -> (r: &'static str)
        ensures
            r@ == self.spec_name(),
    {
        match self {
            Book::Genesis => "Genesis",
            Book::Exodus => "Exodus",
            Book::Leviticus => "Leviticus",
            Book::Numbers => "Numbers",
            Book::Deuteronomy => "Deuteronomy",
            Book::Joshua => "Joshua",
            Book::Judges => "Judges",
            Book::Ruth => "Ruth",
            Book::Samuel1 => "1 Samuel",
            Book::Samuel2 => "2 Samuel",
            Book::Kings1 => "1 Kings",
            Book::Kings2 => "2 Kings",
            Book::Chronicles1 => "1 Chronicles",
            Book::Chronicles2 => "2 Chronicles",
            Book::Ezra => "Ezra",
            Book::Nehemiah => "Nehemiah",
            Book::Esther => "Esther",
            Book::Job => "Job",
            Book::Psalms => "Psalms",
            Book::Proverbs => "Proverbs",
            Book::Ecclesiastes => "Ecclesiastes",
            Book::SongofSongs => "Song of Songs",
            Book::Isaiah => "Isaiah",
            Book::Jeremiah => "Jeremiah",
            Book::Lamentations => "Lamentations",
            Book::Ezekiel => "Ezekiel",
            Book::Daniel => "Daniel",
            Book::Hosea => "Hosea",
            Book::Joel => "Joel",
            Book::Amos => "Amos",
            Book::Obadiah => "Obadiah",
            Book::Jonah => "Jonah",
            Book::Micah => "Micah",
            Book::Nahum => "Nahum",
            Book::Habakkuk => "Habakkuk",
            Book::Zephaniah => "Zephaniah",
            Book::Haggai => "Haggai",
            Book::Zechariah => "Zechariah",
            Book::Malachi => "Malachi",
            Book::Matthew => "Matthew",
            Book::Mark => "Mark",
            Book::Luke => "Luke",
            Book::John => "John",
            Book::Acts => "Acts",
            Book::Romans => "Romans",
            Book::Corinthians1 => "1 Corinthians",
            Book::Corinthians2 => "2 Corinthians",
            Book::Galatians => "Galatians",
            Book::Ephesians => "Ephesians",
            Book::Philippians => "Philippians",
            Book::Colossians => "Colossians",
            Book::Thessalonians1 => "1 Thessalonians",
            Book::Thessalonians2 => "2 Thessalonians",
            Book::Timothy1 => "1 Timothy",
            Book::Timothy2 => "2 Timothy",
            Book::Titus => "Titus",
            Book::Philemon => "Philemon",
            Book::Hebrews => "Hebrews",
            Book::James => "James",
            Book::Peter1 => "1 Peter",
            Book::Peter2 => "2 Peter",
            Book::John1 => "1 John",
            Book::John2 => "2 John",
            Book::John3 => "3 John",
            Book::Jude => "Jude",
            Book::Revelation => "Revelation",
        }
    }
}

/// A book that takes no number.
pub open spec fn unnumbered(n: Option<u8>, b: Book) -> Option<Book> {
    if n is None {
        Some(b)
    } else {
        None
    }
}

/// One of two books told apart by a number, 1 or 2.
pub open spec fn numbered(n: Option<u8>, first: Book, second: Book) -> Option<Book> {
    if n == Some(1u8) {
        Some(first)
    } else if n == Some(2u8) {
        Some(second)
    } else {
        None
    }
}

/// John without a number is the gospel; with 1, 2 or 3 it is one of the letters.
pub open spec fn john(n: Option<u8>) -> Option<Book> {
    if n is None {
        Some(Book::John)
    } else if n == Some(1u8) {
        Some(Book::John1)
    } else if n == Some(2u8) {
        Some(Book::John2)
    } else if n == Some(3u8) {
        Some(Book::John3)
    } else {
        None
    }
}

/// The book that an upper-case base name and an optional number stand for.
pub open spec fn book_for(name: Seq<char>, n: Option<u8>) -> Option<Book> {
    if name == "GENESIS"@ {
        unnumbered(n, Book::Genesis)
    } else if name == "EXODUS"@ {
        unnumbered(n, Book::Exodus)
    } else if name == "LEVITICUS"@ {
        unnumbered(n, Book::Leviticus)
    } else if name == "NUMBERS"@ {
        unnumbered(n, Book::Numbers)
    } else if name == "DEUTERONOMY"@ {
        unnumbered(n, Book::Deuteronomy)
    } else if name == "JOSHUA"@ {
        unnumbered(n, Book::Joshua)
    } else if name == "JUDGES"@ {
        unnumbered(n, Book::Judges)
    } else if name == "RUTH"@ {
        unnumbered(n, Book::Ruth)
    } else if name == "SAMUEL"@ {
        numbered(n, Book::Samuel1, Book::Samuel2)
    } else if name == "KINGS"@ {
        numbered(n, Book::Kings1, Book::Kings2)
    } else if name == "CHRONICLES"@ {
        numbered(n, Book::Chronicles1, Book::Chronicles2)
    } else if name == "EZRA"@ {
        unnumbered(n, Book::Ezra)
    } else if name == "NEHEMIAH"@ {
        unnumbered(n, Book::Nehemiah)
    } else if name == "ESTHER"@ {
        unnumbered(n, Book::Esther)
    } else if name == "JOB"@ {
        unnumbered(n, Book::Job)
    } else if name == "PSALMS"@ {
        unnumbered(n, Book::Psalms)
    } else if name == "PROVERBS"@ {
        unnumbered(n, Book::Proverbs)
    } else if name == "ECCLESIASTES"@ {
        unnumbered(n, Book::Ecclesiastes)
    } else if name == "SONGS"@ || name == "SONG OF SONGS"@ {
        unnumbered(n, Book::SongofSongs)
    } else if name == "ISAIAH"@ {
        unnumbered(n, Book::Isaiah)
    } else if name == "JEREMIAH"@ {
        unnumbered(n, Book::Jeremiah)
    } else if name == "LAMENTATIONS"@ {
        unnumbered(n, Book::Lamentations)
    } else if name == "EZEKIEL"@ {
        unnumbered(n, Book::Ezekiel)
    } else if name == "DANIEL"@ {
        unnumbered(n, Book::Daniel)
    } else if name == "HOSEA"@ {
        unnumbered(n, Book::Hosea)
    } else if name == "JOEL"@ {
        unnumbered(n, Book::Joel)
    } else if name == "AMOS"@ {
        unnumbered(n, Book::Amos)
    } else if name == "OBADIAH"@ {
        unnumbered(n, Book::Obadiah)
    } else if name == "JONAH"@ {
        unnumbered(n, Book::Jonah)
    } else if name == "MICAH"@ {
        unnumbered(n, Book::Micah)
    } else if name == "NAHUM"@ {
        unnumbered(n, Book::Nahum)
    } else if name == "HABAKKUK"@ {
        unnumbered(n, Book::Habakkuk)
    } else if name == "ZEPHANIAH"@ {
        unnumbered(n, Book::Zephaniah)
    } else if name == "HAGGAI"@ {
        unnumbered(n, Book::Haggai)
    } else if name == "ZECHARIAH"@ {
        unnumbered(n, Book::Zechariah)
    } else if name == "MALACHI"@ {
        unnumbered(n, Book::Malachi)
    } else if name == "MATTHEW"@ {
        unnumbered(n, Book::Matthew)
    } else if name == "MARK"@ {
        unnumbered(n, Book::Mark)
    } else if name == "LUKE"@ {
        unnumbered(n, Book::Luke)
    } else if name == "JOHN"@ {
        john(n)
    } else if name == "ACTS"@ {
        unnumbered(n, Book::Acts)
    } else if name == "ROMANS"@ {
        unnumbered(n, Book::Romans)
    } else if name == "CORINTHIANS"@ {
        numbered(n, Book::Corinthians1, Book::Corinthians2)
    } else if name == "GALATIANS"@ {
        unnumbered(n, Book::Galatians)
    } else if name == "EPHESIANS"@ {
        unnumbered(n, Book::Ephesians)
    } else if name == "PHILIPPIANS"@ {
        unnumbered(n, Book::Philippians)
    } else if name == "COLOSSIANS"@ {
        unnumbered(n, Book::Colossians)
    } else if name == "THESSALONIANS"@ {
        numbered(n, Book::Thessalonians1, Book::Thessalonians2)
    } else if name == "TIMOTHY"@ {
        numbered(n, Book::Timothy1, Book::Timothy2)
    } else if name == "TITUS"@ {
        unnumbered(n, Book::Titus)
    } else if name == "PHILEMON"@ {
        unnumbered(n, Book::Philemon)
    } else if name == "HEBREWS"@ {
        unnumbered(n, Book::Hebrews)
    } else if name == "JAMES"@ {
        unnumbered(n, Book::James)
    } else if name == "PETER"@ {
        numbered(n, Book::Peter1, Book::Peter2)
    } else if name == "JUDE"@ {
        unnumbered(n, Book::Jude)
    } else if name == "REVELATION"@ {
        unnumbered(n, Book::Revelation)
    } else {
        None
    }
}

fn unnumbered_exec(n: Option<u8>, b: Book) -> (r: Option<Book>)
    ensures
        r == unnumbered(n, b),
{
    if n.is_none() {
        Some(b)
    } else {
        None
    }
}

fn numbered_exec(n: Option<u8>, first: Book, second: Book) -> (r: Option<Book>)
    ensures
        r == numbered(n, first, second),
{
    match n {
        Some(1) => Some(first),
        Some(2) => Some(second),
        _ => None,
    }
}

fn john_exec(n: Option<u8>) -> (r: Option<Book>)
    ensures
        r == john(n),
{
    match n {
        None => Some(Book::John),
        Some(1) => Some(Book::John1),
        Some(2) => Some(Book::John2),
        Some(3) => Some(Book::John3),
        _ => None,
    }
}

/// Looks up an upper-case base name with its optional number.
pub fn lookup_book(name: &[char], n: Option<u8>) -> (r: Option<Book>)
    ensures
        r == book_for(name@, n),
{
    if eq_lit(name, "GENESIS") {
        unnumbered_exec(n, Book::Genesis)
    } else if eq_lit(name, "EXODUS") {
        unnumbered_exec(n, Book::Exodus)
    } else if eq_lit(name, "LEVITICUS") {
        unnumbered_exec(n, Book::Leviticus)
    } else if eq_lit(name, "NUMBERS") {
        unnumbered_exec(n, Book::Numbers)
    } else if eq_lit(name, "DEUTERONOMY") {
        unnumbered_exec(n, Book::Deuteronomy)
    } else if eq_lit(name, "JOSHUA") {
        unnumbered_exec(n, Book::Joshua)
    } else if eq_lit(name, "JUDGES") {
        unnumbered_exec(n, Book::Judges)
    } else if eq_lit(name, "RUTH") {
        unnumbered_exec(n, Book::Ruth)
    } else if eq_lit(name, "SAMUEL") {
        numbered_exec(n, Book::Samuel1, Book::Samuel2)
    } else if eq_lit(name, "KINGS") {
        numbered_exec(n, Book::Kings1, Book::Kings2)
    } else if eq_lit(name, "CHRONICLES") {
        numbered_exec(n, Book::Chronicles1, Book::Chronicles2)
    } else if eq_lit(name, "EZRA") {
        unnumbered_exec(n, Book::Ezra)
    } else if eq_lit(name, "NEHEMIAH") {
        unnumbered_exec(n, Book::Nehemiah)
    } else if eq_lit(name, "ESTHER") {
        unnumbered_exec(n, Book::Esther)
    } else if eq_lit(name, "JOB") {
        unnumbered_exec(n, Book::Job)
    } else if eq_lit(name, "PSALMS") {
        unnumbered_exec(n, Book::Psalms)
    } else if eq_lit(name, "PROVERBS") {
        unnumbered_exec(n, Book::Proverbs)
    } else if eq_lit(name, "ECCLESIASTES") {
        unnumbered_exec(n, Book::Ecclesiastes)
    } else if eq_lit(name, "SONGS") || eq_lit(name, "SONG OF SONGS") {
        unnumbered_exec(n, Book::SongofSongs)
    } else if eq_lit(name, "ISAIAH") {
        unnumbered_exec(n, Book::Isaiah)
    } else if eq_lit(name, "JEREMIAH") {
        unnumbered_exec(n, Book::Jeremiah)
    } else if eq_lit(name, "LAMENTATIONS") {
        unnumbered_exec(n, Book::Lamentations)
    } else if eq_lit(name, "EZEKIEL") {
        unnumbered_exec(n, Book::Ezekiel)
    } else if eq_lit(name, "DANIEL") {
        unnumbered_exec(n, Book::Daniel)
    } else if eq_lit(name, "HOSEA") {
        unnumbered_exec(n, Book::Hosea)
    } else if eq_lit(name, "JOEL") {
        unnumbered_exec(n, Book::Joel)
    } else if eq_lit(name, "AMOS") {
        unnumbered_exec(n, Book::Amos)
    } else if eq_lit(name, "OBADIAH") {
        unnumbered_exec(n, Book::Obadiah)
    } else if eq_lit(name, "JONAH") {
        unnumbered_exec(n, Book::Jonah)
    } else if eq_lit(name, "MICAH") {
        unnumbered_exec(n, Book::Micah)
    } else if eq_lit(name, "NAHUM") {
        unnumbered_exec(n, Book::Nahum)
    } else if eq_lit(name, "HABAKKUK") {
        unnumbered_exec(n, Book::Habakkuk)
    } else if eq_lit(name, "ZEPHANIAH") {
        unnumbered_exec(n, Book::Zephaniah)
    } else if eq_lit(name, "HAGGAI") {
        unnumbered_exec(n, Book::Haggai)
    } else if eq_lit(name, "ZECHARIAH") {
        unnumbered_exec(n, Book::Zechariah)
    } else if eq_lit(name, "MALACHI") {
        unnumbered_exec(n, Book::Malachi)
    } else if eq_lit(name, "MATTHEW") {
        unnumbered_exec(n, Book::Matthew)
    } else if eq_lit(name, "MARK") {
        unnumbered_exec(n, Book::Mark)
    } else if eq_lit(name, "LUKE") {
        unnumbered_exec(n, Book::Luke)
    } else if eq_lit(name, "JOHN") {
        john_exec(n)
    } else if eq_lit(name, "ACTS") {
        unnumbered_exec(n, Book::Acts)
    } else if eq_lit(name, "ROMANS") {
        unnumbered_exec(n, Book::Romans)
    } else if eq_lit(name, "CORINTHIANS") {
        numbered_exec(n, Book::Corinthians1, Book::Corinthians2)
    } else if eq_lit(name, "GALATIANS") {
        unnumbered_exec(n, Book::Galatians)
    } else if eq_lit(name, "EPHESIANS") {
        unnumbered_exec(n, Book::Ephesians)
    } else if eq_lit(name, "PHILIPPIANS") {
        unnumbered_exec(n, Book::Philippians)
    } else if eq_lit(name, "COLOSSIANS") {
        unnumbered_exec(n, Book::Colossians)
    } else if eq_lit(name, "THESSALONIANS") {
        numbered_exec(n, Book::Thessalonians1, Book::Thessalonians2)
    } else if eq_lit(name, "TIMOTHY") {
        numbered_exec(n, Book::Timothy1, Book::Timothy2)
    } else if eq_lit(name, "TITUS") {
        unnumbered_exec(n, Book::Titus)
    } else if eq_lit(name, "PHILEMON") {
        unnumbered_exec(n, Book::Philemon)
    } else if eq_lit(name, "HEBREWS") {
        unnumbered_exec(n, Book::Hebrews)
    } else if eq_lit(name, "JAMES") {
        unnumbered_exec(n, Book::James)
    } else if eq_lit(name, "PETER") {
        numbered_exec(n, Book::Peter1, Book::Peter2)
    } else if eq_lit(name, "JUDE") {
        unnumbered_exec(n, Book::Jude)
    } else if eq_lit(name, "REVELATION") {
        unnumbered_exec(n, Book::Revelation)
    } else {
        None
    }
}

} // verus!

verus! {

/// Whether position `i` of `s` is where the first run of characters of the
/// other kind (alphabetic or not, white space aside) than `s[0]` begins.
pub open spec fn is_transition(s: Seq<char>, i: int) -> bool {
    1 <= i < s.len() && !whitespace(s[i]) && alphabetic(s[i]) != alphabetic(s[0])
}

pub open spec fn transition_from(s: Seq<char>, i: int) -> Option<int>
    decreases s.len() - i,
{
    if i < 1 || i >= s.len() {
        None
    } else if is_transition(s, i) {
        Some(i)
    } else {
        transition_from(s, i + 1)
    }
}

pub proof fn lemma_transition_from(s: Seq<char>, i: int)
    requires
        i >= 1,
    ensures
        match transition_from(s, i) {
            Some(k) => i <= k && is_transition(s, k) && forall|j: int|
                i <= j < k ==> !#[trigger] is_transition(s, j),
            None => forall|j: int| i <= j < s.len() ==> !#[trigger] is_transition(s, j),
        },
    decreases s.len() - i,
{
    if i >= 1 && i < s.len() && !is_transition(s, i) {
        lemma_transition_from(s, i + 1);
    }
}

/// The first position at which `s` turns from letters to the rest, or back.
pub open spec fn first_transition(s: Seq<char>) -> Option<int> {
    transition_from(s, 1)
}

/// The byte offset at which `s` first turns from alphabetic to
/// non-alphabetic characters or back, white space aside; `None` where it
/// never does.
pub fn first_numeric_nonnumeric_transition(s: &str) -> (r: Option<usize>)
    ensures
        match first_transition(s@) {
            Some(i) => r == Some(encode_utf8(s@.take(i)).len() as usize),
            None => r is None,
        },
{
    let c = chars_of(s);
    let n = s.as_bytes().len();
    match transition_in(&c) {
        Some(i) => {
            proof {
                lemma_transition_from(c@, 1);
            }
            let mut off: usize = 0;
            let mut k: usize = 0;
            while k < i
                invariant
                    k <= i < c@.len(),
                    c@ == s@,
                    n == encode_utf8(s@).len(),
                    off == encode_utf8(s@.take(k as int)).len(),
                decreases i - k,
            {
                proof {
                    lemma_encode_concat(s@.take(k as int), seq![s@[k as int]]);
                    assert(s@.take(k as int) + seq![s@[k as int]] =~= s@.take(k + 1));
                    assert(seq![s@[k as int]].drop_first() =~= Seq::<char>::empty());
                    lemma_encode_concat(s@.take(k + 1), s@.skip(k + 1));
                    assert(s@.take(k + 1) + s@.skip(k + 1) =~= s@);
                }
                let u = c[k] as u32;
                let w: usize = if u < 0x80 {
                    1
                } else if u < 0x800 {
                    2
                } else if u < 0x10000 {
                    3
                } else {
                    4
                };
                proof {
                    vstd::utf8::char_is_scalar(s@[k as int]);
                    assert(u == s@[k as int] as u32);
                    assert(encode_scalar(u).len() == w);
                    let one = seq![s@[k as int]];
                    assert(one.drop_first() =~= Seq::<char>::empty());
                    assert(encode_utf8(one.drop_first()) =~= Seq::<u8>::empty());
                    assert(encode_utf8(one) =~= encode_scalar(u));
                }
                off = off + w;
                k = k + 1;
            }
            Some(off)
        },
        None => None,
    }
}

/// Encoding a sequence of characters one part after another gives the
/// encoding of the whole.
proof fn lemma_encode_concat(a: Seq<char>, b: Seq<char>)
    ensures
        encode_utf8(a + b) == encode_utf8(a) + encode_utf8(b),
    decreases a.len(),
{
    if a.len() > 0 {
        lemma_encode_concat(a.drop_first(), b);
        assert((a + b).drop_first() =~= a.drop_first() + b);
        assert(encode_utf8(a) + encode_utf8(b) =~= encode_scalar(a[0] as u32) + (encode_utf8(
            a.drop_first(),
        ) + encode_utf8(b)));
    } else {
        assert(a + b =~= b);
        assert(encode_utf8(a) + encode_utf8(b) =~= encode_utf8(b));
    }
}

fn transition_in(s: &[char]) -> (r: Option<usize>)
    ensures
        match first_transition(s@) {
            Some(i) => r == Some(i as usize),
            None => r is None,
        },
{
    if s.len() == 0 {
        return None;
    }
    let alpha = is_alphabetic(s[0]);
    let mut i: usize = 1;
    while i < s.len()
        invariant
            1 <= i <= s@.len(),
            alpha == alphabetic(s@[0]),
            first_transition(s@) == transition_from(s@, i as int),
        decreases s@.len() - i,
    {
        if !is_whitespace(s[i]) && is_alphabetic(s[i]) != alpha {
            return Some(i);
        }
        i = i + 1;
    }
    None
}

pub open spec fn has_digit(s: Seq<char>) -> bool {
    exists|i: int| 0 <= i < s.len() && is_digit(#[trigger] s[i])
}

/// The base name and the optional number that trimmed book text `t` splits
/// into; `None` where the number side is not a number from 1 to 255.
pub open spec fn name_parts(t: Seq<char>) -> Option<(Seq<char>, Option<u8>)> {
    match first_transition(t) {
        None => Some((t, None)),
        Some(i) => {
            let left = trim(t.take(i));
            let right = trim(t.skip(i));
            let name = if has_digit(left) { right } else { left };
            let numeric = if has_digit(left) { left } else { right };
            match parse_uint(numeric, 0xff) {
                Ok(n) => if n > 0 { Some((name, Some(n as u8))) } else { None },
                Err(_) => None,
            }
        },
    }
}

/// The book that `s` names, if any.
pub open spec fn parse_book(s: Seq<char>) -> Option<Book> {
    match name_parts(trim(s)) {
        Some(parts) => book_for(upper_seq(parts.0), parts.1),
        None => None,
    }
}

fn contains_digit(s: &[char]) -> (r: bool)
    ensures
        r == has_digit(s@),
{
    let mut i: usize = 0;
    while i < s.len()
        invariant
            i <= s@.len(),
            forall|j: int| 0 <= j < i ==> !is_digit(#[trigger] s@[j]),
        decreases s@.len() - i,
    {
        if '0' <= s[i] && s[i] <= '9' {
            return true;
        }
        i = i + 1;
    }
    false
}

fn book_name_in_parts(t: &[char]) -> (r: Option<(Vec<char>, Option<u8>)>)
    ensures
        match name_parts(t@) {
            Some(p) => match r {
                Some(q) => q.0@ == p.0 && q.1 == p.1,
                None => false,
            },
            None => r is None,
        },
{
    let idx = match transition_in(t) {
        Some(idx) => idx,
        None => {
            return Some((slice_chars(t, 0, t.len()), None));
        },
    };
    proof {
        lemma_transition_from(t@, 1);
    }
    let left = trimmed(&slice_chars(t, 0, idx));
    let right = trimmed(&slice_chars(t, idx, t.len()));
    proof {
        assert(t@.subrange(0, idx as int) =~= t@.take(idx as int));
        assert(t@.subrange(idx as int, t@.len() as int) =~= t@.skip(idx as int));
        assert(t@.subrange(0, t@.len() as int) =~= t@);
    }
    let (name, numeric) = if contains_digit(&left) {
        (right, left)
    } else {
        (left, right)
    };
    match parse_u8(&numeric) {
        Ok(n) => {
            if n > 0 {
                Some((name, Some(n)))
            } else {
                None
            }
        },
        Err(_) => None,
    }
}

/// Book text that names no book.
#[derive(Clone, Debug)]
pub struct ParseBookError {
    /// The text, cut short for messages.
    pub text: String,
}

impl ParseBookError {
    pub fn new(text: &str) -> (r: ParseBookError)
        ensures
            r.text@ == abbrev(text@, 20),
    {
        let c = chars_of(text);
        ParseBookError { text: abbreviate(&c, 20) }
    }

    /// The message for this error.
    pub fn message(&self) -> (r: String)
        ensures
            r@ == "could not parse '"@ + self.text@ + "' as book"@,
    {
        let mut r = String::from_str("could not parse '");
        r.append(self.text.as_str());
        r.append("' as book");
        r
    }
}

impl Book {
    /// Reads a book name: the name in any case, with the number of a numbered
    /// book before or after it, white space around the parts aside.
    pub fn parse(s: &str) -> (r: Result<Book, ParseBookError>)
        ensures
            match parse_book(s@) {
                Some(b) => r == Ok::<Book, ParseBookError>(b),
                None => r is Err && r->Err_0.text@ == abbrev(s@, 20),
            },
    {
        let c = chars_of(s);
        let t = trimmed(&c);
        match book_name_in_parts(&t) {
            Some((name, n)) => {
                let upper = to_upper_all(&name);
                match lookup_book(&upper, n) {
                    Some(b) => Ok(b),
                    None => Err(ParseBookError::new(s)),
                }
            },
            None => Err(ParseBookError::new(s)),
        }
    }
}

} // verus!
