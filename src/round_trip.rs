//! Every book name reads back as its book.

use vstd::prelude::*;

use crate::book::{
    book_for, first_transition, has_digit, is_transition, parse_book, transition_from,
    Book,
};
use crate::strings::{
    all_digits, alphabetic, digit_char, digits_value, is_digit, parse_uint, trim, trim_end,
    trim_start, unsigned_digits, upper_seq, whitespace,
};

verus! {

/// A book's name without its number: "Kings" for both books of Kings.
pub open spec fn base_name(b: Book) -> Seq<char> {
    match b {
        Book::Genesis => "Genesis"@,
        Book::Exodus => "Exodus"@,
        Book::Leviticus => "Leviticus"@,
        Book::Numbers => "Numbers"@,
        Book::Deuteronomy => "Deuteronomy"@,
        Book::Joshua => "Joshua"@,
        Book::Judges => "Judges"@,
        Book::Ruth => "Ruth"@,
        Book::Samuel1 => "Samuel"@,
        Book::Samuel2 => "Samuel"@,
        Book::Kings1 => "Kings"@,
        Book::Kings2 => "Kings"@,
        Book::Chronicles1 => "Chronicles"@,
        Book::Chronicles2 => "Chronicles"@,
        Book::Ezra => "Ezra"@,
        Book::Nehemiah => "Nehemiah"@,
        Book::Esther => "Esther"@,
        Book::Job => "Job"@,
        Book::Psalms => "Psalms"@,
        Book::Proverbs => "Proverbs"@,
        Book::Ecclesiastes => "Ecclesiastes"@,
        Book::SongofSongs => "Song of Songs"@,
        Book::Isaiah => "Isaiah"@,
        Book::Jeremiah => "Jeremiah"@,
        Book::Lamentations => "Lamentations"@,
        Book::Ezekiel => "Ezekiel"@,
        Book::Daniel => "Daniel"@,
        Book::Hosea => "Hosea"@,
        Book::Joel => "Joel"@,
        Book::Amos => "Amos"@,
        Book::Obadiah => "Obadiah"@,
        Book::Jonah => "Jonah"@,
        Book::Micah => "Micah"@,
        Book::Nahum => "Nahum"@,
        Book::Habakkuk => "Habakkuk"@,
        Book::Zephaniah => "Zephaniah"@,
        Book::Haggai => "Haggai"@,
        Book::Zechariah => "Zechariah"@,
        Book::Malachi => "Malachi"@,
        Book::Matthew => "Matthew"@,
        Book::Mark => "Mark"@,
        Book::Luke => "Luke"@,
        Book::John => "John"@,
        Book::Acts => "Acts"@,
        Book::Romans => "Romans"@,
        Book::Corinthians1 => "Corinthians"@,
        Book::Corinthians2 => "Corinthians"@,
        Book::Galatians => "Galatians"@,
        Book::Ephesians => "Ephesians"@,
        Book::Philippians => "Philippians"@,
        Book::Colossians => "Colossians"@,
        Book::Thessalonians1 => "Thessalonians"@,
        Book::Thessalonians2 => "Thessalonians"@,
        Book::Timothy1 => "Timothy"@,
        Book::Timothy2 => "Timothy"@,
        Book::Titus => "Titus"@,
        Book::Philemon => "Philemon"@,
        Book::Hebrews => "Hebrews"@,
        Book::James => "James"@,
        Book::Peter1 => "Peter"@,
        Book::Peter2 => "Peter"@,
        Book::John1 => "John"@,
        Book::John2 => "John"@,
        Book::John3 => "John"@,
        Book::Jude => "Jude"@,
        Book::Revelation => "Revelation"@,
    }
}

/// The number that tells a numbered book from the others of its name.
pub open spec fn book_number(b: Book) -> Option<u8> {
    match b {
        Book::Genesis => None,
        Book::Exodus => None,
        Book::Leviticus => None,
        Book::Numbers => None,
        Book::Deuteronomy => None,
        Book::Joshua => None,
        Book::Judges => None,
        Book::Ruth => None,
        Book::Samuel1 => Some(1u8),
        Book::Samuel2 => Some(2u8),
        Book::Kings1 => Some(1u8),
        Book::Kings2 => Some(2u8),
        Book::Chronicles1 => Some(1u8),
        Book::Chronicles2 => Some(2u8),
        Book::Ezra => None,
        Book::Nehemiah => None,
        Book::Esther => None,
        Book::Job => None,
        Book::Psalms => None,
        Book::Proverbs => None,
        Book::Ecclesiastes => None,
        Book::SongofSongs => None,
        Book::Isaiah => None,
        Book::Jeremiah => None,
        Book::Lamentations => None,
        Book::Ezekiel => None,
        Book::Daniel => None,
        Book::Hosea => None,
        Book::Joel => None,
        Book::Amos => None,
        Book::Obadiah => None,
        Book::Jonah => None,
        Book::Micah => None,
        Book::Nahum => None,
        Book::Habakkuk => None,
        Book::Zephaniah => None,
        Book::Haggai => None,
        Book::Zechariah => None,
        Book::Malachi => None,
        Book::Matthew => None,
        Book::Mark => None,
        Book::Luke => None,
        Book::John => None,
        Book::Acts => None,
        Book::Romans => None,
        Book::Corinthians1 => Some(1u8),
        Book::Corinthians2 => Some(2u8),
        Book::Galatians => None,
        Book::Ephesians => None,
        Book::Philippians => None,
        Book::Colossians => None,
        Book::Thessalonians1 => Some(1u8),
        Book::Thessalonians2 => Some(2u8),
        Book::Timothy1 => Some(1u8),
        Book::Timothy2 => Some(2u8),
        Book::Titus => None,
        Book::Philemon => None,
        Book::Hebrews => None,
        Book::James => None,
        Book::Peter1 => Some(1u8),
        Book::Peter2 => Some(2u8),
        Book::John1 => Some(1u8),
        Book::John2 => Some(2u8),
        Book::John3 => Some(3u8),
        Book::Jude => None,
        Book::Revelation => None,
    }
}

/// Every book's display name reads back as that book. A numbered book also
/// reads back from its base name and number written `n Base`, `BaseN` and
/// `Base N`.
pub proof fn law_name_round_trip(b: Book)
    ensures
        parse_book(b.spec_name()) == Some(b),
        book_number(b) matches Some(n) ==> {
            let d = digit_char(n as nat);
            &&& parse_book(seq![d, ' '] + base_name(b)) == Some(b)
            &&& parse_book(base_name(b) + seq![d]) == Some(b)
            &&& parse_book(base_name(b) + seq![' ', d]) == Some(b)
        },
{
    match b {
        Book::Genesis => lemma_round_trip_genesis(),
        Book::Exodus => lemma_round_trip_exodus(),
        Book::Leviticus => lemma_round_trip_leviticus(),
        Book::Numbers => lemma_round_trip_numbers(),
        Book::Deuteronomy => lemma_round_trip_deuteronomy(),
        Book::Joshua => lemma_round_trip_joshua(),
        Book::Judges => lemma_round_trip_judges(),
        Book::Ruth => lemma_round_trip_ruth(),
        Book::Samuel1 => lemma_round_trip_samuel_1(),
        Book::Samuel2 => lemma_round_trip_samuel_2(),
        Book::Kings1 => lemma_round_trip_kings_1(),
        Book::Kings2 => lemma_round_trip_kings_2(),
        Book::Chronicles1 => lemma_round_trip_chronicles_1(),
        Book::Chronicles2 => lemma_round_trip_chronicles_2(),
        Book::Ezra => lemma_round_trip_ezra(),
        Book::Nehemiah => lemma_round_trip_nehemiah(),
        Book::Esther => lemma_round_trip_esther(),
        Book::Job => lemma_round_trip_job(),
        Book::Psalms => lemma_round_trip_psalms(),
        Book::Proverbs => lemma_round_trip_proverbs(),
        Book::Ecclesiastes => lemma_round_trip_ecclesiastes(),
        Book::SongofSongs => lemma_round_trip_songof_songs(),
        Book::Isaiah => lemma_round_trip_isaiah(),
        Book::Jeremiah => lemma_round_trip_jeremiah(),
        Book::Lamentations => lemma_round_trip_lamentations(),
        Book::Ezekiel => lemma_round_trip_ezekiel(),
        Book::Daniel => lemma_round_trip_daniel(),
        Book::Hosea => lemma_round_trip_hosea(),
        Book::Joel => lemma_round_trip_joel(),
        Book::Amos => lemma_round_trip_amos(),
        Book::Obadiah => lemma_round_trip_obadiah(),
        Book::Jonah => lemma_round_trip_jonah(),
        Book::Micah => lemma_round_trip_micah(),
        Book::Nahum => lemma_round_trip_nahum(),
        Book::Habakkuk => lemma_round_trip_habakkuk(),
        Book::Zephaniah => lemma_round_trip_zephaniah(),
        Book::Haggai => lemma_round_trip_haggai(),
        Book::Zechariah => lemma_round_trip_zechariah(),
        Book::Malachi => lemma_round_trip_malachi(),
        Book::Matthew => lemma_round_trip_matthew(),
        Book::Mark => lemma_round_trip_mark(),
        Book::Luke => lemma_round_trip_luke(),
        Book::John => lemma_round_trip_john(),
        Book::Acts => lemma_round_trip_acts(),
        Book::Romans => lemma_round_trip_romans(),
        Book::Corinthians1 => lemma_round_trip_corinthians_1(),
        Book::Corinthians2 => lemma_round_trip_corinthians_2(),
        Book::Galatians => lemma_round_trip_galatians(),
        Book::Ephesians => lemma_round_trip_ephesians(),
        Book::Philippians => lemma_round_trip_philippians(),
        Book::Colossians => lemma_round_trip_colossians(),
        Book::Thessalonians1 => lemma_round_trip_thessalonians_1(),
        Book::Thessalonians2 => lemma_round_trip_thessalonians_2(),
        Book::Timothy1 => lemma_round_trip_timothy_1(),
        Book::Timothy2 => lemma_round_trip_timothy_2(),
        Book::Titus => lemma_round_trip_titus(),
        Book::Philemon => lemma_round_trip_philemon(),
        Book::Hebrews => lemma_round_trip_hebrews(),
        Book::James => lemma_round_trip_james(),
        Book::Peter1 => lemma_round_trip_peter_1(),
        Book::Peter2 => lemma_round_trip_peter_2(),
        Book::John1 => lemma_round_trip_john_1(),
        Book::John2 => lemma_round_trip_john_2(),
        Book::John3 => lemma_round_trip_john_3(),
        Book::Jude => lemma_round_trip_jude(),
        Book::Revelation => lemma_round_trip_revelation(),
    }
}

proof fn lemma_upper_names()
    ensures
        "GENESIS"@.len() == 7,
        "EXODUS"@.len() == 6,
        "LEVITICUS"@.len() == 9,
        "NUMBERS"@.len() == 7,
        "DEUTERONOMY"@.len() == 11,
        "JOSHUA"@.len() == 6,
        "JUDGES"@.len() == 6,
        "RUTH"@.len() == 4,
        "SAMUEL"@.len() == 6,
        "KINGS"@.len() == 5,
        "CHRONICLES"@.len() == 10,
        "EZRA"@.len() == 4,
        "NEHEMIAH"@.len() == 8,
        "ESTHER"@.len() == 6,
        "JOB"@.len() == 3,
        "PSALMS"@.len() == 6,
        "PROVERBS"@.len() == 8,
        "ECCLESIASTES"@.len() == 12,
        "SONGS"@.len() == 5,
        "SONG OF SONGS"@.len() == 13,
        "ISAIAH"@.len() == 6,
        "JEREMIAH"@.len() == 8,
        "LAMENTATIONS"@.len() == 12,
        "EZEKIEL"@.len() == 7,
        "DANIEL"@.len() == 6,
        "HOSEA"@.len() == 5,
        "JOEL"@.len() == 4,
        "AMOS"@.len() == 4,
        "OBADIAH"@.len() == 7,
        "JONAH"@.len() == 5,
        "MICAH"@.len() == 5,
        "NAHUM"@.len() == 5,
        "HABAKKUK"@.len() == 8,
        "ZEPHANIAH"@.len() == 9,
        "HAGGAI"@.len() == 6,
        "ZECHARIAH"@.len() == 9,
        "MALACHI"@.len() == 7,
        "MATTHEW"@.len() == 7,
        "MARK"@.len() == 4,
        "LUKE"@.len() == 4,
        "JOHN"@.len() == 4,
        "ACTS"@.len() == 4,
        "ROMANS"@.len() == 6,
        "CORINTHIANS"@.len() == 11,
        "GALATIANS"@.len() == 9,
        "EPHESIANS"@.len() == 9,
        "PHILIPPIANS"@.len() == 11,
        "COLOSSIANS"@.len() == 10,
        "THESSALONIANS"@.len() == 13,
        "TIMOTHY"@.len() == 7,
        "TITUS"@.len() == 5,
        "PHILEMON"@.len() == 8,
        "HEBREWS"@.len() == 7,
        "JAMES"@.len() == 5,
        "PETER"@.len() == 5,
        "JUDE"@.len() == 4,
        "REVELATION"@.len() == 10,
        "ACTS"@[1] != "AMOS"@[1],
        "ACTS"@[0] != "EZRA"@[0],
        "ACTS"@[0] != "JOEL"@[0],
        "ACTS"@[0] != "JOHN"@[0],
        "ACTS"@[0] != "LUKE"@[0],
        "ACTS"@[0] != "MARK"@[0],
        "ACTS"@[0] != "RUTH"@[0],
        "AMOS"@[0] != "EZRA"@[0],
        "AMOS"@[0] != "JOEL"@[0],
        "AMOS"@[0] != "RUTH"@[0],
        "COLOSSIANS"@[1] != "CHRONICLES"@[1],
        "CORINTHIANS"@[0] != "DEUTERONOMY"@[0],
        "DANIEL"@[0] != "ESTHER"@[0],
        "DANIEL"@[0] != "EXODUS"@[0],
        "DANIEL"@[0] != "ISAIAH"@[0],
        "DANIEL"@[0] != "JOSHUA"@[0],
        "DANIEL"@[0] != "JUDGES"@[0],
        "DANIEL"@[0] != "PSALMS"@[0],
        "DANIEL"@[0] != "SAMUEL"@[0],
        "EPHESIANS"@[0] != "GALATIANS"@[0],
        "EPHESIANS"@[0] != "LEVITICUS"@[0],
        "EPHESIANS"@[0] != "ZECHARIAH"@[0],
        "EPHESIANS"@[0] != "ZEPHANIAH"@[0],
        "ESTHER"@[1] != "EXODUS"@[1],
        "ESTHER"@[0] != "JOSHUA"@[0],
        "ESTHER"@[0] != "JUDGES"@[0],
        "ESTHER"@[0] != "SAMUEL"@[0],
        "EZEKIEL"@[0] != "GENESIS"@[0],
        "EZEKIEL"@[0] != "NUMBERS"@[0],
        "EZRA"@[0] != "RUTH"@[0],
        "GALATIANS"@[0] != "LEVITICUS"@[0],
        "GALATIANS"@[0] != "ZECHARIAH"@[0],
        "GALATIANS"@[0] != "ZEPHANIAH"@[0],
        "HABAKKUK"@[0] != "JEREMIAH"@[0],
        "HABAKKUK"@[0] != "NEHEMIAH"@[0],
        "HABAKKUK"@[0] != "PROVERBS"@[0],
        "HAGGAI"@[0] != "DANIEL"@[0],
        "HAGGAI"@[0] != "ESTHER"@[0],
        "HAGGAI"@[0] != "EXODUS"@[0],
        "HAGGAI"@[0] != "ISAIAH"@[0],
        "HAGGAI"@[0] != "JOSHUA"@[0],
        "HAGGAI"@[0] != "JUDGES"@[0],
        "HAGGAI"@[0] != "PSALMS"@[0],
        "HAGGAI"@[0] != "SAMUEL"@[0],
        "HEBREWS"@[0] != "EZEKIEL"@[0],
        "HEBREWS"@[0] != "GENESIS"@[0],
        "HEBREWS"@[0] != "MALACHI"@[0],
        "HEBREWS"@[0] != "MATTHEW"@[0],
        "HEBREWS"@[0] != "NUMBERS"@[0],
        "HEBREWS"@[0] != "OBADIAH"@[0],
        "HEBREWS"@[0] != "TIMOTHY"@[0],
        "HOSEA"@[0] != "KINGS"@[0],
        "HOSEA"@[0] != "SONGS"@[0],
        "ISAIAH"@[0] != "ESTHER"@[0],
        "ISAIAH"@[0] != "EXODUS"@[0],
        "ISAIAH"@[0] != "JOSHUA"@[0],
        "ISAIAH"@[0] != "JUDGES"@[0],
        "ISAIAH"@[0] != "PSALMS"@[0],
        "ISAIAH"@[0] != "SAMUEL"@[0],
        "JAMES"@[0] != "HOSEA"@[0],
        "JAMES"@[1] != "JONAH"@[1],
        "JAMES"@[0] != "KINGS"@[0],
        "JAMES"@[0] != "MICAH"@[0],
        "JAMES"@[0] != "NAHUM"@[0],
        "JAMES"@[0] != "SONGS"@[0],
        "JAMES"@[0] != "TITUS"@[0],
        "JEREMIAH"@[0] != "NEHEMIAH"@[0],
        "JEREMIAH"@[0] != "PROVERBS"@[0],
        "JOEL"@[0] != "EZRA"@[0],
        "JOEL"@[0] != "RUTH"@[0],
        "JOHN"@[0] != "AMOS"@[0],
        "JOHN"@[0] != "EZRA"@[0],
        "JOHN"@[2] != "JOEL"@[2],
        "JOHN"@[0] != "LUKE"@[0],
        "JOHN"@[0] != "MARK"@[0],
        "JOHN"@[0] != "RUTH"@[0],
        "JONAH"@[0] != "HOSEA"@[0],
        "JONAH"@[0] != "KINGS"@[0],
        "JONAH"@[0] != "SONGS"@[0],
        "JOSHUA"@[0] != "EXODUS"@[0],
        "JUDE"@[0] != "ACTS"@[0],
        "JUDE"@[0] != "AMOS"@[0],
        "JUDE"@[0] != "EZRA"@[0],
        "JUDE"@[1] != "JOEL"@[1],
        "JUDE"@[1] != "JOHN"@[1],
        "JUDE"@[0] != "LUKE"@[0],
        "JUDE"@[0] != "MARK"@[0],
        "JUDE"@[0] != "RUTH"@[0],
        "JUDGES"@[0] != "EXODUS"@[0],
        "JUDGES"@[1] != "JOSHUA"@[1],
        "LAMENTATIONS"@[0] != "ECCLESIASTES"@[0],
        "LUKE"@[0] != "AMOS"@[0],
        "LUKE"@[0] != "EZRA"@[0],
        "LUKE"@[0] != "JOEL"@[0],
        "LUKE"@[0] != "MARK"@[0],
        "LUKE"@[0] != "RUTH"@[0],
        "MALACHI"@[0] != "EZEKIEL"@[0],
        "MALACHI"@[0] != "GENESIS"@[0],
        "MALACHI"@[0] != "NUMBERS"@[0],
        "MALACHI"@[0] != "OBADIAH"@[0],
        "MARK"@[0] != "AMOS"@[0],
        "MARK"@[0] != "EZRA"@[0],
        "MARK"@[0] != "JOEL"@[0],
        "MARK"@[0] != "RUTH"@[0],
        "MATTHEW"@[0] != "EZEKIEL"@[0],
        "MATTHEW"@[0] != "GENESIS"@[0],
        "MATTHEW"@[2] != "MALACHI"@[2],
        "MATTHEW"@[0] != "NUMBERS"@[0],
        "MATTHEW"@[0] != "OBADIAH"@[0],
        "MICAH"@[0] != "HOSEA"@[0],
        "MICAH"@[0] != "JONAH"@[0],
        "MICAH"@[0] != "KINGS"@[0],
        "MICAH"@[0] != "SONGS"@[0],
        "NAHUM"@[0] != "HOSEA"@[0],
        "NAHUM"@[0] != "JONAH"@[0],
        "NAHUM"@[0] != "KINGS"@[0],
        "NAHUM"@[0] != "MICAH"@[0],
        "NAHUM"@[0] != "SONGS"@[0],
        "NUMBERS"@[0] != "GENESIS"@[0],
        "OBADIAH"@[0] != "EZEKIEL"@[0],
        "OBADIAH"@[0] != "GENESIS"@[0],
        "OBADIAH"@[0] != "NUMBERS"@[0],
        "PETER"@[0] != "HOSEA"@[0],
        "PETER"@[0] != "JAMES"@[0],
        "PETER"@[0] != "JONAH"@[0],
        "PETER"@[0] != "KINGS"@[0],
        "PETER"@[0] != "MICAH"@[0],
        "PETER"@[0] != "NAHUM"@[0],
        "PETER"@[0] != "SONGS"@[0],
        "PETER"@[0] != "TITUS"@[0],
        "PHILEMON"@[0] != "HABAKKUK"@[0],
        "PHILEMON"@[0] != "JEREMIAH"@[0],
        "PHILEMON"@[0] != "NEHEMIAH"@[0],
        "PHILEMON"@[1] != "PROVERBS"@[1],
        "PHILIPPIANS"@[0] != "CORINTHIANS"@[0],
        "PHILIPPIANS"@[0] != "DEUTERONOMY"@[0],
        "PROVERBS"@[0] != "NEHEMIAH"@[0],
        "PSALMS"@[0] != "ESTHER"@[0],
        "PSALMS"@[0] != "EXODUS"@[0],
        "PSALMS"@[0] != "JOSHUA"@[0],
        "PSALMS"@[0] != "JUDGES"@[0],
        "PSALMS"@[0] != "SAMUEL"@[0],
        "REVELATION"@[0] != "CHRONICLES"@[0],
        "REVELATION"@[0] != "COLOSSIANS"@[0],
        "ROMANS"@[0] != "DANIEL"@[0],
        "ROMANS"@[0] != "ESTHER"@[0],
        "ROMANS"@[0] != "EXODUS"@[0],
        "ROMANS"@[0] != "HAGGAI"@[0],
        "ROMANS"@[0] != "ISAIAH"@[0],
        "ROMANS"@[0] != "JOSHUA"@[0],
        "ROMANS"@[0] != "JUDGES"@[0],
        "ROMANS"@[0] != "PSALMS"@[0],
        "ROMANS"@[0] != "SAMUEL"@[0],
        "SAMUEL"@[0] != "EXODUS"@[0],
        "SAMUEL"@[0] != "JOSHUA"@[0],
        "SAMUEL"@[0] != "JUDGES"@[0],
        "THESSALONIANS"@[0] != "SONG OF SONGS"@[0],
        "TIMOTHY"@[0] != "EZEKIEL"@[0],
        "TIMOTHY"@[0] != "GENESIS"@[0],
        "TIMOTHY"@[0] != "MALACHI"@[0],
        "TIMOTHY"@[0] != "MATTHEW"@[0],
        "TIMOTHY"@[0] != "NUMBERS"@[0],
        "TIMOTHY"@[0] != "OBADIAH"@[0],
        "TITUS"@[0] != "HOSEA"@[0],
        "TITUS"@[0] != "JONAH"@[0],
        "TITUS"@[0] != "KINGS"@[0],
        "TITUS"@[0] != "MICAH"@[0],
        "TITUS"@[0] != "NAHUM"@[0],
        "TITUS"@[0] != "SONGS"@[0],
        "ZECHARIAH"@[0] != "LEVITICUS"@[0],
        "ZECHARIAH"@[2] != "ZEPHANIAH"@[2],
        "ZEPHANIAH"@[0] != "LEVITICUS"@[0],
{
    reveal_strlit("GENESIS");
    reveal_strlit("EXODUS");
    reveal_strlit("LEVITICUS");
    reveal_strlit("NUMBERS");
    reveal_strlit("DEUTERONOMY");
    reveal_strlit("JOSHUA");
    reveal_strlit("JUDGES");
    reveal_strlit("RUTH");
    reveal_strlit("SAMUEL");
    reveal_strlit("KINGS");
    reveal_strlit("CHRONICLES");
    reveal_strlit("EZRA");
    reveal_strlit("NEHEMIAH");
    reveal_strlit("ESTHER");
    reveal_strlit("JOB");
    reveal_strlit("PSALMS");
    reveal_strlit("PROVERBS");
    reveal_strlit("ECCLESIASTES");
    reveal_strlit("SONGS");
    reveal_strlit("SONG OF SONGS");
    reveal_strlit("ISAIAH");
    reveal_strlit("JEREMIAH");
    reveal_strlit("LAMENTATIONS");
    reveal_strlit("EZEKIEL");
    reveal_strlit("DANIEL");
    reveal_strlit("HOSEA");
    reveal_strlit("JOEL");
    reveal_strlit("AMOS");
    reveal_strlit("OBADIAH");
    reveal_strlit("JONAH");
    reveal_strlit("MICAH");
    reveal_strlit("NAHUM");
    reveal_strlit("HABAKKUK");
    reveal_strlit("ZEPHANIAH");
    reveal_strlit("HAGGAI");
    reveal_strlit("ZECHARIAH");
    reveal_strlit("MALACHI");
    reveal_strlit("MATTHEW");
    reveal_strlit("MARK");
    reveal_strlit("LUKE");
    reveal_strlit("JOHN");
    reveal_strlit("ACTS");
    reveal_strlit("ROMANS");
    reveal_strlit("CORINTHIANS");
    reveal_strlit("GALATIANS");
    reveal_strlit("EPHESIANS");
    reveal_strlit("PHILIPPIANS");
    reveal_strlit("COLOSSIANS");
    reveal_strlit("THESSALONIANS");
    reveal_strlit("TIMOTHY");
    reveal_strlit("TITUS");
    reveal_strlit("PHILEMON");
    reveal_strlit("HEBREWS");
    reveal_strlit("JAMES");
    reveal_strlit("PETER");
    reveal_strlit("JUDE");
    reveal_strlit("REVELATION");
}

proof fn lemma_round_trip_genesis()
    ensures
        parse_book(Book::Genesis.spec_name()) == Some(Book::Genesis),
{
    lemma_upper_names();
    reveal_strlit("Genesis");
    reveal_strlit("GENESIS");
    let s = base_name(Book::Genesis);
    assert(upper_seq(s) =~= "GENESIS"@);
    lemma_plain_name(s, "GENESIS"@);
    assert(book_for("GENESIS"@, None) == Some(Book::Genesis));
}

proof fn lemma_round_trip_exodus()
    ensures
        parse_book(Book::Exodus.spec_name()) == Some(Book::Exodus),
{
    lemma_upper_names();
    reveal_strlit("Exodus");
    reveal_strlit("EXODUS");
    let s = base_name(Book::Exodus);
    assert(upper_seq(s) =~= "EXODUS"@);
    lemma_plain_name(s, "EXODUS"@);
    assert(book_for("EXODUS"@, None) == Some(Book::Exodus));
}

proof fn lemma_round_trip_leviticus()
    ensures
        parse_book(Book::Leviticus.spec_name()) == Some(Book::Leviticus),
{
    lemma_upper_names();
    reveal_strlit("Leviticus");
    reveal_strlit("LEVITICUS");
    let s = base_name(Book::Leviticus);
    assert(upper_seq(s) =~= "LEVITICUS"@);
    lemma_plain_name(s, "LEVITICUS"@);
    assert(book_for("LEVITICUS"@, None) == Some(Book::Leviticus));
}

proof fn lemma_round_trip_numbers()
    ensures
        parse_book(Book::Numbers.spec_name()) == Some(Book::Numbers),
{
    lemma_upper_names();
    reveal_strlit("Numbers");
    reveal_strlit("NUMBERS");
    let s = base_name(Book::Numbers);
    assert(upper_seq(s) =~= "NUMBERS"@);
    lemma_plain_name(s, "NUMBERS"@);
    assert(book_for("NUMBERS"@, None) == Some(Book::Numbers));
}

proof fn lemma_round_trip_deuteronomy()
    ensures
        parse_book(Book::Deuteronomy.spec_name()) == Some(Book::Deuteronomy),
{
    lemma_upper_names();
    reveal_strlit("Deuteronomy");
    reveal_strlit("DEUTERONOMY");
    let s = base_name(Book::Deuteronomy);
    assert(upper_seq(s) =~= "DEUTERONOMY"@);
    lemma_plain_name(s, "DEUTERONOMY"@);
    assert(book_for("DEUTERONOMY"@, None) == Some(Book::Deuteronomy));
}

proof fn lemma_round_trip_joshua()
    ensures
        parse_book(Book::Joshua.spec_name()) == Some(Book::Joshua),
{
    lemma_upper_names();
    reveal_strlit("Joshua");
    reveal_strlit("JOSHUA");
    let s = base_name(Book::Joshua);
    assert(upper_seq(s) =~= "JOSHUA"@);
    lemma_plain_name(s, "JOSHUA"@);
    assert(book_for("JOSHUA"@, None) == Some(Book::Joshua));
}

proof fn lemma_round_trip_judges()
    ensures
        parse_book(Book::Judges.spec_name()) == Some(Book::Judges),
{
    lemma_upper_names();
    reveal_strlit("Judges");
    reveal_strlit("JUDGES");
    let s = base_name(Book::Judges);
    assert(upper_seq(s) =~= "JUDGES"@);
    lemma_plain_name(s, "JUDGES"@);
    assert(book_for("JUDGES"@, None) == Some(Book::Judges));
}

proof fn lemma_round_trip_ruth()
    ensures
        parse_book(Book::Ruth.spec_name()) == Some(Book::Ruth),
{
    lemma_upper_names();
    reveal_strlit("Ruth");
    reveal_strlit("RUTH");
    let s = base_name(Book::Ruth);
    assert(upper_seq(s) =~= "RUTH"@);
    lemma_plain_name(s, "RUTH"@);
    assert(book_for("RUTH"@, None) == Some(Book::Ruth));
}

proof fn lemma_round_trip_samuel_1()
    ensures
        parse_book(Book::Samuel1.spec_name()) == Some(Book::Samuel1),
        parse_book(seq!['1', ' '] + base_name(Book::Samuel1)) == Some(Book::Samuel1),
        parse_book(base_name(Book::Samuel1) + seq!['1']) == Some(Book::Samuel1),
        parse_book(base_name(Book::Samuel1) + seq![' ', '1']) == Some(Book::Samuel1),
{
    lemma_upper_names();
    reveal_strlit("1 Samuel");
    reveal_strlit("Samuel");
    reveal_strlit("SAMUEL");
    let s = base_name(Book::Samuel1);
    assert(upper_seq(s) =~= "SAMUEL"@);
    assert(Book::Samuel1.spec_name() =~= seq!['1', ' '] + s);
    lemma_number_before('1', s, "SAMUEL"@);
    lemma_number_after('1', s, "SAMUEL"@, false);
    lemma_number_after('1', s, "SAMUEL"@, true);
    assert(book_for("SAMUEL"@, Some(1u8)) == Some(Book::Samuel1));
}

proof fn lemma_round_trip_samuel_2()
    ensures
        parse_book(Book::Samuel2.spec_name()) == Some(Book::Samuel2),
        parse_book(seq!['2', ' '] + base_name(Book::Samuel2)) == Some(Book::Samuel2),
        parse_book(base_name(Book::Samuel2) + seq!['2']) == Some(Book::Samuel2),
        parse_book(base_name(Book::Samuel2) + seq![' ', '2']) == Some(Book::Samuel2),
{
    lemma_upper_names();
    reveal_strlit("2 Samuel");
    reveal_strlit("Samuel");
    reveal_strlit("SAMUEL");
    let s = base_name(Book::Samuel2);
    assert(upper_seq(s) =~= "SAMUEL"@);
    assert(Book::Samuel2.spec_name() =~= seq!['2', ' '] + s);
    lemma_number_before('2', s, "SAMUEL"@);
    lemma_number_after('2', s, "SAMUEL"@, false);
    lemma_number_after('2', s, "SAMUEL"@, true);
    assert(book_for("SAMUEL"@, Some(2u8)) == Some(Book::Samuel2));
}

proof fn lemma_round_trip_kings_1()
    ensures
        parse_book(Book::Kings1.spec_name()) == Some(Book::Kings1),
        parse_book(seq!['1', ' '] + base_name(Book::Kings1)) == Some(Book::Kings1),
        parse_book(base_name(Book::Kings1) + seq!['1']) == Some(Book::Kings1),
        parse_book(base_name(Book::Kings1) + seq![' ', '1']) == Some(Book::Kings1),
{
    lemma_upper_names();
    reveal_strlit("1 Kings");
    reveal_strlit("Kings");
    reveal_strlit("KINGS");
    let s = base_name(Book::Kings1);
    assert(upper_seq(s) =~= "KINGS"@);
    assert(Book::Kings1.spec_name() =~= seq!['1', ' '] + s);
    lemma_number_before('1', s, "KINGS"@);
    lemma_number_after('1', s, "KINGS"@, false);
    lemma_number_after('1', s, "KINGS"@, true);
    assert(book_for("KINGS"@, Some(1u8)) == Some(Book::Kings1));
}

proof fn lemma_round_trip_kings_2()
    ensures
        parse_book(Book::Kings2.spec_name()) == Some(Book::Kings2),
        parse_book(seq!['2', ' '] + base_name(Book::Kings2)) == Some(Book::Kings2),
        parse_book(base_name(Book::Kings2) + seq!['2']) == Some(Book::Kings2),
        parse_book(base_name(Book::Kings2) + seq![' ', '2']) == Some(Book::Kings2),
{
    lemma_upper_names();
    reveal_strlit("2 Kings");
    reveal_strlit("Kings");
    reveal_strlit("KINGS");
    let s = base_name(Book::Kings2);
    assert(upper_seq(s) =~= "KINGS"@);
    assert(Book::Kings2.spec_name() =~= seq!['2', ' '] + s);
    lemma_number_before('2', s, "KINGS"@);
    lemma_number_after('2', s, "KINGS"@, false);
    lemma_number_after('2', s, "KINGS"@, true);
    assert(book_for("KINGS"@, Some(2u8)) == Some(Book::Kings2));
}

proof fn lemma_round_trip_chronicles_1()
    ensures
        parse_book(Book::Chronicles1.spec_name()) == Some(Book::Chronicles1),
        parse_book(seq!['1', ' '] + base_name(Book::Chronicles1)) == Some(Book::Chronicles1),
        parse_book(base_name(Book::Chronicles1) + seq!['1']) == Some(Book::Chronicles1),
        parse_book(base_name(Book::Chronicles1) + seq![' ', '1']) == Some(Book::Chronicles1),
{
    lemma_upper_names();
    reveal_strlit("1 Chronicles");
    reveal_strlit("Chronicles");
    reveal_strlit("CHRONICLES");
    let s = base_name(Book::Chronicles1);
    assert(upper_seq(s) =~= "CHRONICLES"@);
    assert(Book::Chronicles1.spec_name() =~= seq!['1', ' '] + s);
    lemma_number_before('1', s, "CHRONICLES"@);
    lemma_number_after('1', s, "CHRONICLES"@, false);
    lemma_number_after('1', s, "CHRONICLES"@, true);
    assert(book_for("CHRONICLES"@, Some(1u8)) == Some(Book::Chronicles1));
}

proof fn lemma_round_trip_chronicles_2()
    ensures
        parse_book(Book::Chronicles2.spec_name()) == Some(Book::Chronicles2),
        parse_book(seq!['2', ' '] + base_name(Book::Chronicles2)) == Some(Book::Chronicles2),
        parse_book(base_name(Book::Chronicles2) + seq!['2']) == Some(Book::Chronicles2),
        parse_book(base_name(Book::Chronicles2) + seq![' ', '2']) == Some(Book::Chronicles2),
{
    lemma_upper_names();
    reveal_strlit("2 Chronicles");
    reveal_strlit("Chronicles");
    reveal_strlit("CHRONICLES");
    let s = base_name(Book::Chronicles2);
    assert(upper_seq(s) =~= "CHRONICLES"@);
    assert(Book::Chronicles2.spec_name() =~= seq!['2', ' '] + s);
    lemma_number_before('2', s, "CHRONICLES"@);
    lemma_number_after('2', s, "CHRONICLES"@, false);
    lemma_number_after('2', s, "CHRONICLES"@, true);
    assert(book_for("CHRONICLES"@, Some(2u8)) == Some(Book::Chronicles2));
}

proof fn lemma_round_trip_ezra()
    ensures
        parse_book(Book::Ezra.spec_name()) == Some(Book::Ezra),
{
    lemma_upper_names();
    reveal_strlit("Ezra");
    reveal_strlit("EZRA");
    let s = base_name(Book::Ezra);
    assert(upper_seq(s) =~= "EZRA"@);
    lemma_plain_name(s, "EZRA"@);
    assert(book_for("EZRA"@, None) == Some(Book::Ezra));
}

proof fn lemma_round_trip_nehemiah()
    ensures
        parse_book(Book::Nehemiah.spec_name()) == Some(Book::Nehemiah),
{
    lemma_upper_names();
    reveal_strlit("Nehemiah");
    reveal_strlit("NEHEMIAH");
    let s = base_name(Book::Nehemiah);
    assert(upper_seq(s) =~= "NEHEMIAH"@);
    lemma_plain_name(s, "NEHEMIAH"@);
    assert(book_for("NEHEMIAH"@, None) == Some(Book::Nehemiah));
}

proof fn lemma_round_trip_esther()
    ensures
        parse_book(Book::Esther.spec_name()) == Some(Book::Esther),
{
    lemma_upper_names();
    reveal_strlit("Esther");
    reveal_strlit("ESTHER");
    let s = base_name(Book::Esther);
    assert(upper_seq(s) =~= "ESTHER"@);
    lemma_plain_name(s, "ESTHER"@);
    assert(book_for("ESTHER"@, None) == Some(Book::Esther));
}

proof fn lemma_round_trip_job()
    ensures
        parse_book(Book::Job.spec_name()) == Some(Book::Job),
{
    lemma_upper_names();
    reveal_strlit("Job");
    reveal_strlit("JOB");
    let s = base_name(Book::Job);
    assert(upper_seq(s) =~= "JOB"@);
    lemma_plain_name(s, "JOB"@);
    assert(book_for("JOB"@, None) == Some(Book::Job));
}

proof fn lemma_round_trip_psalms()
    ensures
        parse_book(Book::Psalms.spec_name()) == Some(Book::Psalms),
{
    lemma_upper_names();
    reveal_strlit("Psalms");
    reveal_strlit("PSALMS");
    let s = base_name(Book::Psalms);
    assert(upper_seq(s) =~= "PSALMS"@);
    lemma_plain_name(s, "PSALMS"@);
    assert(book_for("PSALMS"@, None) == Some(Book::Psalms));
}

proof fn lemma_round_trip_proverbs()
    ensures
        parse_book(Book::Proverbs.spec_name()) == Some(Book::Proverbs),
{
    lemma_upper_names();
    reveal_strlit("Proverbs");
    reveal_strlit("PROVERBS");
    let s = base_name(Book::Proverbs);
    assert(upper_seq(s) =~= "PROVERBS"@);
    lemma_plain_name(s, "PROVERBS"@);
    assert(book_for("PROVERBS"@, None) == Some(Book::Proverbs));
}

proof fn lemma_round_trip_ecclesiastes()
    ensures
        parse_book(Book::Ecclesiastes.spec_name()) == Some(Book::Ecclesiastes),
{
    lemma_upper_names();
    reveal_strlit("Ecclesiastes");
    reveal_strlit("ECCLESIASTES");
    let s = base_name(Book::Ecclesiastes);
    assert(upper_seq(s) =~= "ECCLESIASTES"@);
    lemma_plain_name(s, "ECCLESIASTES"@);
    assert(book_for("ECCLESIASTES"@, None) == Some(Book::Ecclesiastes));
}

proof fn lemma_round_trip_songof_songs()
    ensures
        parse_book(Book::SongofSongs.spec_name()) == Some(Book::SongofSongs),
{
    lemma_upper_names();
    reveal_strlit("Song of Songs");
    reveal_strlit("SONG OF SONGS");
    let s = base_name(Book::SongofSongs);
    assert(upper_seq(s) =~= "SONG OF SONGS"@);
    lemma_plain_name(s, "SONG OF SONGS"@);
    assert(book_for("SONG OF SONGS"@, None) == Some(Book::SongofSongs));
}

proof fn lemma_round_trip_isaiah()
    ensures
        parse_book(Book::Isaiah.spec_name()) == Some(Book::Isaiah),
{
    lemma_upper_names();
    reveal_strlit("Isaiah");
    reveal_strlit("ISAIAH");
    let s = base_name(Book::Isaiah);
    assert(upper_seq(s) =~= "ISAIAH"@);
    lemma_plain_name(s, "ISAIAH"@);
    assert(book_for("ISAIAH"@, None) == Some(Book::Isaiah));
}

proof fn lemma_round_trip_jeremiah()
    ensures
        parse_book(Book::Jeremiah.spec_name()) == Some(Book::Jeremiah),
{
    lemma_upper_names();
    reveal_strlit("Jeremiah");
    reveal_strlit("JEREMIAH");
    let s = base_name(Book::Jeremiah);
    assert(upper_seq(s) =~= "JEREMIAH"@);
    lemma_plain_name(s, "JEREMIAH"@);
    assert(book_for("JEREMIAH"@, None) == Some(Book::Jeremiah));
}

proof fn lemma_round_trip_lamentations()
    ensures
        parse_book(Book::Lamentations.spec_name()) == Some(Book::Lamentations),
{
    lemma_upper_names();
    reveal_strlit("Lamentations");
    reveal_strlit("LAMENTATIONS");
    let s = base_name(Book::Lamentations);
    assert(upper_seq(s) =~= "LAMENTATIONS"@);
    lemma_plain_name(s, "LAMENTATIONS"@);
    assert(book_for("LAMENTATIONS"@, None) == Some(Book::Lamentations));
}

proof fn lemma_round_trip_ezekiel()
    ensures
        parse_book(Book::Ezekiel.spec_name()) == Some(Book::Ezekiel),
{
    lemma_upper_names();
    reveal_strlit("Ezekiel");
    reveal_strlit("EZEKIEL");
    let s = base_name(Book::Ezekiel);
    assert(upper_seq(s) =~= "EZEKIEL"@);
    lemma_plain_name(s, "EZEKIEL"@);
    assert(book_for("EZEKIEL"@, None) == Some(Book::Ezekiel));
}

proof fn lemma_round_trip_daniel()
    ensures
        parse_book(Book::Daniel.spec_name()) == Some(Book::Daniel),
{
    lemma_upper_names();
    reveal_strlit("Daniel");
    reveal_strlit("DANIEL");
    let s = base_name(Book::Daniel);
    assert(upper_seq(s) =~= "DANIEL"@);
    lemma_plain_name(s, "DANIEL"@);
    assert(book_for("DANIEL"@, None) == Some(Book::Daniel));
}

proof fn lemma_round_trip_hosea()
    ensures
        parse_book(Book::Hosea.spec_name()) == Some(Book::Hosea),
{
    lemma_upper_names();
    reveal_strlit("Hosea");
    reveal_strlit("HOSEA");
    let s = base_name(Book::Hosea);
    assert(upper_seq(s) =~= "HOSEA"@);
    lemma_plain_name(s, "HOSEA"@);
    assert(book_for("HOSEA"@, None) == Some(Book::Hosea));
}

proof fn lemma_round_trip_joel()
    ensures
        parse_book(Book::Joel.spec_name()) == Some(Book::Joel),
{
    lemma_upper_names();
    reveal_strlit("Joel");
    reveal_strlit("JOEL");
    let s = base_name(Book::Joel);
    assert(upper_seq(s) =~= "JOEL"@);
    lemma_plain_name(s, "JOEL"@);
    assert(book_for("JOEL"@, None) == Some(Book::Joel));
}

proof fn lemma_round_trip_amos()
    ensures
        parse_book(Book::Amos.spec_name()) == Some(Book::Amos),
{
    lemma_upper_names();
    reveal_strlit("Amos");
    reveal_strlit("AMOS");
    let s = base_name(Book::Amos);
    assert(upper_seq(s) =~= "AMOS"@);
    lemma_plain_name(s, "AMOS"@);
    assert(book_for("AMOS"@, None) == Some(Book::Amos));
}

proof fn lemma_round_trip_obadiah()
    ensures
        parse_book(Book::Obadiah.spec_name()) == Some(Book::Obadiah),
{
    lemma_upper_names();
    reveal_strlit("Obadiah");
    reveal_strlit("OBADIAH");
    let s = base_name(Book::Obadiah);
    assert(upper_seq(s) =~= "OBADIAH"@);
    lemma_plain_name(s, "OBADIAH"@);
    assert(book_for("OBADIAH"@, None) == Some(Book::Obadiah));
}

proof fn lemma_round_trip_jonah()
    ensures
        parse_book(Book::Jonah.spec_name()) == Some(Book::Jonah),
{
    lemma_upper_names();
    reveal_strlit("Jonah");
    reveal_strlit("JONAH");
    let s = base_name(Book::Jonah);
    assert(upper_seq(s) =~= "JONAH"@);
    lemma_plain_name(s, "JONAH"@);
    assert(book_for("JONAH"@, None) == Some(Book::Jonah));
}

proof fn lemma_round_trip_micah()
    ensures
        parse_book(Book::Micah.spec_name()) == Some(Book::Micah),
{
    lemma_upper_names();
    reveal_strlit("Micah");
    reveal_strlit("MICAH");
    let s = base_name(Book::Micah);
    assert(upper_seq(s) =~= "MICAH"@);
    lemma_plain_name(s, "MICAH"@);
    assert(book_for("MICAH"@, None) == Some(Book::Micah));
}

proof fn lemma_round_trip_nahum()
    ensures
        parse_book(Book::Nahum.spec_name()) == Some(Book::Nahum),
{
    lemma_upper_names();
    reveal_strlit("Nahum");
    reveal_strlit("NAHUM");
    let s = base_name(Book::Nahum);
    assert(upper_seq(s) =~= "NAHUM"@);
    lemma_plain_name(s, "NAHUM"@);
    assert(book_for("NAHUM"@, None) == Some(Book::Nahum));
}

proof fn lemma_round_trip_habakkuk()
    ensures
        parse_book(Book::Habakkuk.spec_name()) == Some(Book::Habakkuk),
{
    lemma_upper_names();
    reveal_strlit("Habakkuk");
    reveal_strlit("HABAKKUK");
    let s = base_name(Book::Habakkuk);
    assert(upper_seq(s) =~= "HABAKKUK"@);
    lemma_plain_name(s, "HABAKKUK"@);
    assert(book_for("HABAKKUK"@, None) == Some(Book::Habakkuk));
}

proof fn lemma_round_trip_zephaniah()
    ensures
        parse_book(Book::Zephaniah.spec_name()) == Some(Book::Zephaniah),
{
    lemma_upper_names();
    reveal_strlit("Zephaniah");
    reveal_strlit("ZEPHANIAH");
    let s = base_name(Book::Zephaniah);
    assert(upper_seq(s) =~= "ZEPHANIAH"@);
    lemma_plain_name(s, "ZEPHANIAH"@);
    assert(book_for("ZEPHANIAH"@, None) == Some(Book::Zephaniah));
}

proof fn lemma_round_trip_haggai()
    ensures
        parse_book(Book::Haggai.spec_name()) == Some(Book::Haggai),
{
    lemma_upper_names();
    reveal_strlit("Haggai");
    reveal_strlit("HAGGAI");
    let s = base_name(Book::Haggai);
    assert(upper_seq(s) =~= "HAGGAI"@);
    lemma_plain_name(s, "HAGGAI"@);
    assert(book_for("HAGGAI"@, None) == Some(Book::Haggai));
}

proof fn lemma_round_trip_zechariah()
    ensures
        parse_book(Book::Zechariah.spec_name()) == Some(Book::Zechariah),
{
    lemma_upper_names();
    reveal_strlit("Zechariah");
    reveal_strlit("ZECHARIAH");
    let s = base_name(Book::Zechariah);
    assert(upper_seq(s) =~= "ZECHARIAH"@);
    lemma_plain_name(s, "ZECHARIAH"@);
    assert(book_for("ZECHARIAH"@, None) == Some(Book::Zechariah));
}

proof fn lemma_round_trip_malachi()
    ensures
        parse_book(Book::Malachi.spec_name()) == Some(Book::Malachi),
{
    lemma_upper_names();
    reveal_strlit("Malachi");
    reveal_strlit("MALACHI");
    let s = base_name(Book::Malachi);
    assert(upper_seq(s) =~= "MALACHI"@);
    lemma_plain_name(s, "MALACHI"@);
    assert(book_for("MALACHI"@, None) == Some(Book::Malachi));
}

proof fn lemma_round_trip_matthew()
    ensures
        parse_book(Book::Matthew.spec_name()) == Some(Book::Matthew),
{
    lemma_upper_names();
    reveal_strlit("Matthew");
    reveal_strlit("MATTHEW");
    let s = base_name(Book::Matthew);
    assert(upper_seq(s) =~= "MATTHEW"@);
    lemma_plain_name(s, "MATTHEW"@);
    assert(book_for("MATTHEW"@, None) == Some(Book::Matthew));
}

proof fn lemma_round_trip_mark()
    ensures
        parse_book(Book::Mark.spec_name()) == Some(Book::Mark),
{
    lemma_upper_names();
    reveal_strlit("Mark");
    reveal_strlit("MARK");
    let s = base_name(Book::Mark);
    assert(upper_seq(s) =~= "MARK"@);
    lemma_plain_name(s, "MARK"@);
    assert(book_for("MARK"@, None) == Some(Book::Mark));
}

proof fn lemma_round_trip_luke()
    ensures
        parse_book(Book::Luke.spec_name()) == Some(Book::Luke),
{
    lemma_upper_names();
    reveal_strlit("Luke");
    reveal_strlit("LUKE");
    let s = base_name(Book::Luke);
    assert(upper_seq(s) =~= "LUKE"@);
    lemma_plain_name(s, "LUKE"@);
    assert(book_for("LUKE"@, None) == Some(Book::Luke));
}

proof fn lemma_round_trip_john()
    ensures
        parse_book(Book::John.spec_name()) == Some(Book::John),
{
    lemma_upper_names();
    reveal_strlit("John");
    reveal_strlit("JOHN");
    let s = base_name(Book::John);
    assert(upper_seq(s) =~= "JOHN"@);
    lemma_plain_name(s, "JOHN"@);
    assert(book_for("JOHN"@, None) == Some(Book::John));
}

proof fn lemma_round_trip_acts()
    ensures
        parse_book(Book::Acts.spec_name()) == Some(Book::Acts),
{
    lemma_upper_names();
    reveal_strlit("Acts");
    reveal_strlit("ACTS");
    let s = base_name(Book::Acts);
    assert(upper_seq(s) =~= "ACTS"@);
    lemma_plain_name(s, "ACTS"@);
    assert(book_for("ACTS"@, None) == Some(Book::Acts));
}

proof fn lemma_round_trip_romans()
    ensures
        parse_book(Book::Romans.spec_name()) == Some(Book::Romans),
{
    lemma_upper_names();
    reveal_strlit("Romans");
    reveal_strlit("ROMANS");
    let s = base_name(Book::Romans);
    assert(upper_seq(s) =~= "ROMANS"@);
    lemma_plain_name(s, "ROMANS"@);
    assert(book_for("ROMANS"@, None) == Some(Book::Romans));
}

proof fn lemma_round_trip_corinthians_1()
    ensures
        parse_book(Book::Corinthians1.spec_name()) == Some(Book::Corinthians1),
        parse_book(seq!['1', ' '] + base_name(Book::Corinthians1)) == Some(Book::Corinthians1),
        parse_book(base_name(Book::Corinthians1) + seq!['1']) == Some(Book::Corinthians1),
        parse_book(base_name(Book::Corinthians1) + seq![' ', '1']) == Some(Book::Corinthians1),
{
    lemma_upper_names();
    reveal_strlit("1 Corinthians");
    reveal_strlit("Corinthians");
    reveal_strlit("CORINTHIANS");
    let s = base_name(Book::Corinthians1);
    assert(upper_seq(s) =~= "CORINTHIANS"@);
    assert(Book::Corinthians1.spec_name() =~= seq!['1', ' '] + s);
    lemma_number_before('1', s, "CORINTHIANS"@);
    lemma_number_after('1', s, "CORINTHIANS"@, false);
    lemma_number_after('1', s, "CORINTHIANS"@, true);
    assert(book_for("CORINTHIANS"@, Some(1u8)) == Some(Book::Corinthians1));
}

proof fn lemma_round_trip_corinthians_2()
    ensures
        parse_book(Book::Corinthians2.spec_name()) == Some(Book::Corinthians2),
        parse_book(seq!['2', ' '] + base_name(Book::Corinthians2)) == Some(Book::Corinthians2),
        parse_book(base_name(Book::Corinthians2) + seq!['2']) == Some(Book::Corinthians2),
        parse_book(base_name(Book::Corinthians2) + seq![' ', '2']) == Some(Book::Corinthians2),
{
    lemma_upper_names();
    reveal_strlit("2 Corinthians");
    reveal_strlit("Corinthians");
    reveal_strlit("CORINTHIANS");
    let s = base_name(Book::Corinthians2);
    assert(upper_seq(s) =~= "CORINTHIANS"@);
    assert(Book::Corinthians2.spec_name() =~= seq!['2', ' '] + s);
    lemma_number_before('2', s, "CORINTHIANS"@);
    lemma_number_after('2', s, "CORINTHIANS"@, false);
    lemma_number_after('2', s, "CORINTHIANS"@, true);
    assert(book_for("CORINTHIANS"@, Some(2u8)) == Some(Book::Corinthians2));
}

proof fn lemma_round_trip_galatians()
    ensures
        parse_book(Book::Galatians.spec_name()) == Some(Book::Galatians),
{
    lemma_upper_names();
    reveal_strlit("Galatians");
    reveal_strlit("GALATIANS");
    let s = base_name(Book::Galatians);
    assert(upper_seq(s) =~= "GALATIANS"@);
    lemma_plain_name(s, "GALATIANS"@);
    assert(book_for("GALATIANS"@, None) == Some(Book::Galatians));
}

proof fn lemma_round_trip_ephesians()
    ensures
        parse_book(Book::Ephesians.spec_name()) == Some(Book::Ephesians),
{
    lemma_upper_names();
    reveal_strlit("Ephesians");
    reveal_strlit("EPHESIANS");
    let s = base_name(Book::Ephesians);
    assert(upper_seq(s) =~= "EPHESIANS"@);
    lemma_plain_name(s, "EPHESIANS"@);
    assert(book_for("EPHESIANS"@, None) == Some(Book::Ephesians));
}

proof fn lemma_round_trip_philippians()
    ensures
        parse_book(Book::Philippians.spec_name()) == Some(Book::Philippians),
{
    lemma_upper_names();
    reveal_strlit("Philippians");
    reveal_strlit("PHILIPPIANS");
    let s = base_name(Book::Philippians);
    assert(upper_seq(s) =~= "PHILIPPIANS"@);
    lemma_plain_name(s, "PHILIPPIANS"@);
    assert(book_for("PHILIPPIANS"@, None) == Some(Book::Philippians));
}

proof fn lemma_round_trip_colossians()
    ensures
        parse_book(Book::Colossians.spec_name()) == Some(Book::Colossians),
{
    lemma_upper_names();
    reveal_strlit("Colossians");
    reveal_strlit("COLOSSIANS");
    let s = base_name(Book::Colossians);
    assert(upper_seq(s) =~= "COLOSSIANS"@);
    lemma_plain_name(s, "COLOSSIANS"@);
    assert(book_for("COLOSSIANS"@, None) == Some(Book::Colossians));
}

proof fn lemma_round_trip_thessalonians_1()
    ensures
        parse_book(Book::Thessalonians1.spec_name()) == Some(Book::Thessalonians1),
        parse_book(seq!['1', ' '] + base_name(Book::Thessalonians1)) == Some(Book::Thessalonians1),
        parse_book(base_name(Book::Thessalonians1) + seq!['1']) == Some(Book::Thessalonians1),
        parse_book(base_name(Book::Thessalonians1) + seq![' ', '1']) == Some(Book::Thessalonians1),
{
    lemma_upper_names();
    reveal_strlit("1 Thessalonians");
    reveal_strlit("Thessalonians");
    reveal_strlit("THESSALONIANS");
    let s = base_name(Book::Thessalonians1);
    assert(upper_seq(s) =~= "THESSALONIANS"@);
    assert(Book::Thessalonians1.spec_name() =~= seq!['1', ' '] + s);
    lemma_number_before('1', s, "THESSALONIANS"@);
    lemma_number_after('1', s, "THESSALONIANS"@, false);
    lemma_number_after('1', s, "THESSALONIANS"@, true);
    assert(book_for("THESSALONIANS"@, Some(1u8)) == Some(Book::Thessalonians1));
}

proof fn lemma_round_trip_thessalonians_2()
    ensures
        parse_book(Book::Thessalonians2.spec_name()) == Some(Book::Thessalonians2),
        parse_book(seq!['2', ' '] + base_name(Book::Thessalonians2)) == Some(Book::Thessalonians2),
        parse_book(base_name(Book::Thessalonians2) + seq!['2']) == Some(Book::Thessalonians2),
        parse_book(base_name(Book::Thessalonians2) + seq![' ', '2']) == Some(Book::Thessalonians2),
{
    lemma_upper_names();
    reveal_strlit("2 Thessalonians");
    reveal_strlit("Thessalonians");
    reveal_strlit("THESSALONIANS");
    let s = base_name(Book::Thessalonians2);
    assert(upper_seq(s) =~= "THESSALONIANS"@);
    assert(Book::Thessalonians2.spec_name() =~= seq!['2', ' '] + s);
    lemma_number_before('2', s, "THESSALONIANS"@);
    lemma_number_after('2', s, "THESSALONIANS"@, false);
    lemma_number_after('2', s, "THESSALONIANS"@, true);
    assert(book_for("THESSALONIANS"@, Some(2u8)) == Some(Book::Thessalonians2));
}

proof fn lemma_round_trip_timothy_1()
    ensures
        parse_book(Book::Timothy1.spec_name()) == Some(Book::Timothy1),
        parse_book(seq!['1', ' '] + base_name(Book::Timothy1)) == Some(Book::Timothy1),
        parse_book(base_name(Book::Timothy1) + seq!['1']) == Some(Book::Timothy1),
        parse_book(base_name(Book::Timothy1) + seq![' ', '1']) == Some(Book::Timothy1),
{
    lemma_upper_names();
    reveal_strlit("1 Timothy");
    reveal_strlit("Timothy");
    reveal_strlit("TIMOTHY");
    let s = base_name(Book::Timothy1);
    assert(upper_seq(s) =~= "TIMOTHY"@);
    assert(Book::Timothy1.spec_name() =~= seq!['1', ' '] + s);
    lemma_number_before('1', s, "TIMOTHY"@);
    lemma_number_after('1', s, "TIMOTHY"@, false);
    lemma_number_after('1', s, "TIMOTHY"@, true);
    assert(book_for("TIMOTHY"@, Some(1u8)) == Some(Book::Timothy1));
}

proof fn lemma_round_trip_timothy_2()
    ensures
        parse_book(Book::Timothy2.spec_name()) == Some(Book::Timothy2),
        parse_book(seq!['2', ' '] + base_name(Book::Timothy2)) == Some(Book::Timothy2),
        parse_book(base_name(Book::Timothy2) + seq!['2']) == Some(Book::Timothy2),
        parse_book(base_name(Book::Timothy2) + seq![' ', '2']) == Some(Book::Timothy2),
{
    lemma_upper_names();
    reveal_strlit("2 Timothy");
    reveal_strlit("Timothy");
    reveal_strlit("TIMOTHY");
    let s = base_name(Book::Timothy2);
    assert(upper_seq(s) =~= "TIMOTHY"@);
    assert(Book::Timothy2.spec_name() =~= seq!['2', ' '] + s);
    lemma_number_before('2', s, "TIMOTHY"@);
    lemma_number_after('2', s, "TIMOTHY"@, false);
    lemma_number_after('2', s, "TIMOTHY"@, true);
    assert(book_for("TIMOTHY"@, Some(2u8)) == Some(Book::Timothy2));
}

proof fn lemma_round_trip_titus()
    ensures
        parse_book(Book::Titus.spec_name()) == Some(Book::Titus),
{
    lemma_upper_names();
    reveal_strlit("Titus");
    reveal_strlit("TITUS");
    let s = base_name(Book::Titus);
    assert(upper_seq(s) =~= "TITUS"@);
    lemma_plain_name(s, "TITUS"@);
    assert(book_for("TITUS"@, None) == Some(Book::Titus));
}

proof fn lemma_round_trip_philemon()
    ensures
        parse_book(Book::Philemon.spec_name()) == Some(Book::Philemon),
{
    lemma_upper_names();
    reveal_strlit("Philemon");
    reveal_strlit("PHILEMON");
    let s = base_name(Book::Philemon);
    assert(upper_seq(s) =~= "PHILEMON"@);
    lemma_plain_name(s, "PHILEMON"@);
    assert(book_for("PHILEMON"@, None) == Some(Book::Philemon));
}

proof fn lemma_round_trip_hebrews()
    ensures
        parse_book(Book::Hebrews.spec_name()) == Some(Book::Hebrews),
{
    lemma_upper_names();
    reveal_strlit("Hebrews");
    reveal_strlit("HEBREWS");
    let s = base_name(Book::Hebrews);
    assert(upper_seq(s) =~= "HEBREWS"@);
    lemma_plain_name(s, "HEBREWS"@);
    assert(book_for("HEBREWS"@, None) == Some(Book::Hebrews));
}

proof fn lemma_round_trip_james()
    ensures
        parse_book(Book::James.spec_name()) == Some(Book::James),
{
    lemma_upper_names();
    reveal_strlit("James");
    reveal_strlit("JAMES");
    let s = base_name(Book::James);
    assert(upper_seq(s) =~= "JAMES"@);
    lemma_plain_name(s, "JAMES"@);
    assert(book_for("JAMES"@, None) == Some(Book::James));
}

proof fn lemma_round_trip_peter_1()
    ensures
        parse_book(Book::Peter1.spec_name()) == Some(Book::Peter1),
        parse_book(seq!['1', ' '] + base_name(Book::Peter1)) == Some(Book::Peter1),
        parse_book(base_name(Book::Peter1) + seq!['1']) == Some(Book::Peter1),
        parse_book(base_name(Book::Peter1) + seq![' ', '1']) == Some(Book::Peter1),
{
    lemma_upper_names();
    reveal_strlit("1 Peter");
    reveal_strlit("Peter");
    reveal_strlit("PETER");
    let s = base_name(Book::Peter1);
    assert(upper_seq(s) =~= "PETER"@);
    assert(Book::Peter1.spec_name() =~= seq!['1', ' '] + s);
    lemma_number_before('1', s, "PETER"@);
    lemma_number_after('1', s, "PETER"@, false);
    lemma_number_after('1', s, "PETER"@, true);
    assert(book_for("PETER"@, Some(1u8)) == Some(Book::Peter1));
}

proof fn lemma_round_trip_peter_2()
    ensures
        parse_book(Book::Peter2.spec_name()) == Some(Book::Peter2),
        parse_book(seq!['2', ' '] + base_name(Book::Peter2)) == Some(Book::Peter2),
        parse_book(base_name(Book::Peter2) + seq!['2']) == Some(Book::Peter2),
        parse_book(base_name(Book::Peter2) + seq![' ', '2']) == Some(Book::Peter2),
{
    lemma_upper_names();
    reveal_strlit("2 Peter");
    reveal_strlit("Peter");
    reveal_strlit("PETER");
    let s = base_name(Book::Peter2);
    assert(upper_seq(s) =~= "PETER"@);
    assert(Book::Peter2.spec_name() =~= seq!['2', ' '] + s);
    lemma_number_before('2', s, "PETER"@);
    lemma_number_after('2', s, "PETER"@, false);
    lemma_number_after('2', s, "PETER"@, true);
    assert(book_for("PETER"@, Some(2u8)) == Some(Book::Peter2));
}

proof fn lemma_round_trip_john_1()
    ensures
        parse_book(Book::John1.spec_name()) == Some(Book::John1),
        parse_book(seq!['1', ' '] + base_name(Book::John1)) == Some(Book::John1),
        parse_book(base_name(Book::John1) + seq!['1']) == Some(Book::John1),
        parse_book(base_name(Book::John1) + seq![' ', '1']) == Some(Book::John1),
{
    lemma_upper_names();
    reveal_strlit("1 John");
    reveal_strlit("John");
    reveal_strlit("JOHN");
    let s = base_name(Book::John1);
    assert(upper_seq(s) =~= "JOHN"@);
    assert(Book::John1.spec_name() =~= seq!['1', ' '] + s);
    lemma_number_before('1', s, "JOHN"@);
    lemma_number_after('1', s, "JOHN"@, false);
    lemma_number_after('1', s, "JOHN"@, true);
    assert(book_for("JOHN"@, Some(1u8)) == Some(Book::John1));
}

proof fn lemma_round_trip_john_2()
    ensures
        parse_book(Book::John2.spec_name()) == Some(Book::John2),
        parse_book(seq!['2', ' '] + base_name(Book::John2)) == Some(Book::John2),
        parse_book(base_name(Book::John2) + seq!['2']) == Some(Book::John2),
        parse_book(base_name(Book::John2) + seq![' ', '2']) == Some(Book::John2),
{
    lemma_upper_names();
    reveal_strlit("2 John");
    reveal_strlit("John");
    reveal_strlit("JOHN");
    let s = base_name(Book::John2);
    assert(upper_seq(s) =~= "JOHN"@);
    assert(Book::John2.spec_name() =~= seq!['2', ' '] + s);
    lemma_number_before('2', s, "JOHN"@);
    lemma_number_after('2', s, "JOHN"@, false);
    lemma_number_after('2', s, "JOHN"@, true);
    assert(book_for("JOHN"@, Some(2u8)) == Some(Book::John2));
}

proof fn lemma_round_trip_john_3()
    ensures
        parse_book(Book::John3.spec_name()) == Some(Book::John3),
        parse_book(seq!['3', ' '] + base_name(Book::John3)) == Some(Book::John3),
        parse_book(base_name(Book::John3) + seq!['3']) == Some(Book::John3),
        parse_book(base_name(Book::John3) + seq![' ', '3']) == Some(Book::John3),
{
    lemma_upper_names();
    reveal_strlit("3 John");
    reveal_strlit("John");
    reveal_strlit("JOHN");
    let s = base_name(Book::John3);
    assert(upper_seq(s) =~= "JOHN"@);
    assert(Book::John3.spec_name() =~= seq!['3', ' '] + s);
    lemma_number_before('3', s, "JOHN"@);
    lemma_number_after('3', s, "JOHN"@, false);
    lemma_number_after('3', s, "JOHN"@, true);
    assert(book_for("JOHN"@, Some(3u8)) == Some(Book::John3));
}

proof fn lemma_round_trip_jude()
    ensures
        parse_book(Book::Jude.spec_name()) == Some(Book::Jude),
{
    lemma_upper_names();
    reveal_strlit("Jude");
    reveal_strlit("JUDE");
    let s = base_name(Book::Jude);
    assert(upper_seq(s) =~= "JUDE"@);
    lemma_plain_name(s, "JUDE"@);
    assert(book_for("JUDE"@, None) == Some(Book::Jude));
}

proof fn lemma_round_trip_revelation()
    ensures
        parse_book(Book::Revelation.spec_name()) == Some(Book::Revelation),
{
    lemma_upper_names();
    reveal_strlit("Revelation");
    reveal_strlit("REVELATION");
    let s = base_name(Book::Revelation);
    assert(upper_seq(s) =~= "REVELATION"@);
    lemma_plain_name(s, "REVELATION"@);
    assert(book_for("REVELATION"@, None) == Some(Book::Revelation));
}

pub open spec fn is_letter(c: char) -> bool {
    'a' <= c <= 'z' || 'A' <= c <= 'Z'
}

proof fn lemma_trim_plain(s: Seq<char>)
    requires
        s.len() > 0,
        !whitespace(s[0]),
        !whitespace(s.last()),
    ensures
        trim(s) == s,
{
}

proof fn lemma_no_transition(s: Seq<char>, i: int)
    requires
        s.len() > 0,
        1 <= i,
        alphabetic(s[0]),
        forall|j: int| 0 <= j < s.len() ==> alphabetic(#[trigger] s[j]) || whitespace(s[j]),
    ensures
        transition_from(s, i) is None,
    decreases s.len() - i,
{
    if i < s.len() {
        lemma_no_transition(s, i + 1);
    }
}

proof fn lemma_transition_at(s: Seq<char>, i: int, k: int)
    requires
        1 <= i <= k < s.len(),
        is_transition(s, k),
        forall|j: int| 1 <= j < k ==> !#[trigger] is_transition(s, j),
    ensures
        transition_from(s, i) == Some(k),
    decreases k - i,
{
    if i < k {
        lemma_transition_at(s, i + 1, k);
    }
}

/// A name of letters and inner spaces reads as its upper-case form without a number.
proof fn lemma_plain_name(s: Seq<char>, u: Seq<char>)
    requires
        s.len() > 0,
        is_letter(s[0]),
        is_letter(s.last()),
        forall|j: int| 0 <= j < s.len() ==> is_letter(#[trigger] s[j]) || s[j] == ' ',
        upper_seq(s) == u,
    ensures
        parse_book(s) == book_for(u, None),
{
    lemma_trim_plain(s);
    lemma_no_transition(s, 1);
}

proof fn lemma_digit_value(d: char)
    requires
        '1' <= d <= '9',
    ensures
        parse_uint(seq![d], 0xff) == Ok::<nat, crate::strings::IntError>(((d as u32) - ('0' as u32)) as nat),
{
    let s = seq![d];
    assert(unsigned_digits(s) == s);
    assert(all_digits(s));
    assert(s.drop_last() =~= Seq::<char>::empty());
    assert(s.last() == d);
    assert(digits_value(s.drop_last()) == 0);
    assert(digits_value(s) == ((d as u32) - ('0' as u32)) as nat);
}

/// `n Base` reads as the base name with number `n`.
proof fn lemma_number_before(d: char, base: Seq<char>, u: Seq<char>)
    requires
        '1' <= d <= '9',
        base.len() > 0,
        forall|j: int| 0 <= j < base.len() ==> is_letter(#[trigger] base[j]),
        upper_seq(base) == u,
    ensures
        parse_book(seq![d, ' '] + base) == book_for(u, Some(((d as u32) - ('0' as u32)) as u8)),
{
    let s = seq![d, ' '] + base;
    assert(s[0] == d);
    assert(s[1] == ' ');
    assert(s[2] == base[0]);
    assert(s.last() == base.last());
    lemma_trim_plain(s);
    assert(is_transition(s, 2));
    lemma_transition_at(s, 1, 2);
    assert(first_transition(s) == Some(2int));
    let left = s.take(2);
    assert(left =~= seq![d, ' ']);
    assert(left.drop_last() =~= seq![d]);
    assert(left[0] == d);
    assert(left.last() == ' ');
    assert(trim_start(left) == left);
    assert(seq![d].last() == d);
    assert(trim_end(seq![d]) == seq![d]);
    assert(trim(left) == seq![d]);
    assert(s.skip(2) =~= base);
    lemma_trim_plain(base);
    assert(has_digit(seq![d])) by {
        assert(is_digit(seq![d][0]));
    }
    lemma_digit_value(d);
}

/// `BaseN` and `Base N` read as the base name with number `N`.
proof fn lemma_number_after(d: char, base: Seq<char>, u: Seq<char>, spaced: bool)
    requires
        '1' <= d <= '9',
        base.len() > 0,
        forall|j: int| 0 <= j < base.len() ==> is_letter(#[trigger] base[j]),
        upper_seq(base) == u,
    ensures
        parse_book(base + if spaced { seq![' ', d] } else { seq![d] }) == book_for(
            u,
            Some(((d as u32) - ('0' as u32)) as u8),
        ),
{
    let tail = if spaced { seq![' ', d] } else { seq![d] };
    let s = base + tail;
    let k = base.len() as int;
    assert(s[0] == base[0]);
    assert(s.last() == d);
    lemma_trim_plain(s);
    let t = if spaced { k + 1 } else { k };
    assert(s[t] == d);
    assert(is_transition(s, t));
    assert forall|j: int| 1 <= j < t implies !#[trigger] is_transition(s, j) by {
        if j < k {
            assert(s[j] == base[j]);
        } else {
            assert(s[j] == ' ');
        }
    }
    lemma_transition_at(s, 1, t);
    let left = s.take(t);
    if spaced {
        assert(left.drop_last() =~= base);
        assert(trim_end(left) == trim_end(base));
    } else {
        assert(left =~= base);
    }
    lemma_trim_plain(base);
    assert(trim(left) == base);
    assert(s.skip(t) =~= seq![d]);
    assert(trim(seq![d]) == seq![d]);
    assert(!has_digit(base));
    lemma_digit_value(d);
}


} // verus!
