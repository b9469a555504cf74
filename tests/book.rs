use bible::book::{first_numeric_nonnumeric_transition, Book};

#[test]
fn book_first_numeric_nonnumeric_transition() {
    let test = first_numeric_nonnumeric_transition;
    assert_eq!(Some(2), test("1 Kings"));
    assert_eq!(Some(1), test("1Kings"));
    assert_eq!(Some(5), test("Kings1"));
    assert_eq!(Some(6), test("Kings 1"));
    assert_eq!(None, test("Exodus"));
}

#[test]
fn main_first_numeric_nonnumeric_transition() {
    let test = first_numeric_nonnumeric_transition;
    assert_eq!(Some(2), test("1 Kings"));
    assert_eq!(Some(1), test("1Kings"));
    assert_eq!(Some(5), test("Kings1"));
    assert_eq!(Some(6), test("Kings 1"));
    assert_eq!(None, test("Exodus"));
}

#[test]
fn every_display_name_parses_back() {
    for u in 1..=66u8 {
        let book = Book::from_u8(u);
        assert_eq!(book.to_u8(), u);
        assert_eq!(Book::parse(book.name()).unwrap(), book);
    }
}

#[test]
fn numbered_books_parse_in_three_forms() {
    let cases = [
        ("Samuel", 1, Book::Samuel1),
        ("Samuel", 2, Book::Samuel2),
        ("Kings", 1, Book::Kings1),
        ("Kings", 2, Book::Kings2),
        ("Chronicles", 1, Book::Chronicles1),
        ("Chronicles", 2, Book::Chronicles2),
        ("Corinthians", 1, Book::Corinthians1),
        ("Corinthians", 2, Book::Corinthians2),
        ("Thessalonians", 1, Book::Thessalonians1),
        ("Thessalonians", 2, Book::Thessalonians2),
        ("Timothy", 1, Book::Timothy1),
        ("Timothy", 2, Book::Timothy2),
        ("Peter", 1, Book::Peter1),
        ("Peter", 2, Book::Peter2),
        ("John", 1, Book::John1),
        ("John", 2, Book::John2),
        ("John", 3, Book::John3),
    ];
    for (base, n, book) in cases {
        assert_eq!(Book::parse(&format!("{n} {base}")).unwrap(), book);
        assert_eq!(Book::parse(&format!("{base}{n}")).unwrap(), book);
        assert_eq!(Book::parse(&format!("{base} {n}")).unwrap(), book);
    }
}

#[test]
fn book_names_ignore_case_and_surrounding_space() {
    assert_eq!(Book::parse("genesis").unwrap(), Book::Genesis);
    assert_eq!(Book::parse("  PSALMS ").unwrap(), Book::Psalms);
    assert_eq!(Book::parse("songs").unwrap(), Book::SongofSongs);
    assert_eq!(Book::parse("Song of Songs").unwrap(), Book::SongofSongs);
    assert_eq!(Book::parse("john").unwrap(), Book::John);
    assert_eq!(Book::parse("1john").unwrap(), Book::John1);
    assert_eq!(Book::parse("+2 Kings").unwrap(), Book::Kings2);
}

#[test]
fn bad_book_names_are_refused() {
    assert!(Book::parse("Austin").is_err());
    assert!(Book::parse("Kings").is_err());
    assert!(Book::parse("3 Kings").is_err());
    assert!(Book::parse("4 John").is_err());
    assert!(Book::parse("0 Kings").is_err());
    assert!(Book::parse("300 Kings").is_err());
    assert!(Book::parse("2 Genesis").is_err());
    assert!(Book::parse("").is_err());
}

#[test]
fn book_error_keeps_a_short_text() {
    let e = Book::parse("Austin").unwrap_err();
    assert_eq!(e.text, "Austin");
    assert_eq!(e.message(), "could not parse 'Austin' as book");
    let e = Book::parse("The Gospel According to Nobody").unwrap_err();
    assert_eq!(e.text, "The Gospel According...");
}

#[test]
fn ordinals_and_names() {
    assert_eq!(Book::from_u8(1), Book::Genesis);
    assert_eq!(Book::from_u8(19), Book::Psalms);
    assert_eq!(Book::from_u8(66), Book::Revelation);
    assert_eq!(Book::Kings1.name(), "1 Kings");
    assert_eq!(Book::SongofSongs.name(), "Song of Songs");
    assert_eq!(Book::John3.to_u8(), 64);
}

#[test]
fn transition_is_a_byte_offset() {
    assert_eq!(first_numeric_nonnumeric_transition("é1"), Some(2));
    assert_eq!(first_numeric_nonnumeric_transition("1 Éxodus"), Some(2));
    assert_eq!(first_numeric_nonnumeric_transition("Éxodus 2"), Some(8));
    assert_eq!(first_numeric_nonnumeric_transition(""), None);
}
