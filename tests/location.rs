use bible::book::Book;
use bible::location::{Location, ParseLocationError, ParseReferenceError, PartialLocation, Verse};
use bible::strings::IntError;

#[test]
fn chapter_and_single_verse() {
    let l = PartialLocation::parse("3:16").unwrap();
    assert_eq!(l.chapter, 3);
    assert_eq!(l.verse, Some(Verse { start: 16, end: None }));
}

#[test]
fn chapter_and_span() {
    let l = PartialLocation::parse("127:4-5").unwrap();
    assert_eq!(l.chapter, 127);
    assert_eq!(l.verse, Some(Verse { start: 4, end: Some(5) }));
}

#[test]
fn chapter_alone() {
    let l = PartialLocation::parse("23").unwrap();
    assert_eq!(l.chapter, 23);
    assert_eq!(l.verse, None);
}

#[test]
fn bad_chapter_is_reported_with_its_text() {
    match PartialLocation::parse("three:16") {
        Err(ParseLocationError::Chapter { text, cause }) => {
            assert_eq!(text, "three");
            assert_eq!(cause, IntError::InvalidDigit);
        }
        other => panic!("unexpected {other:?}"),
    }
    match PartialLocation::parse("123456789012:1") {
        Err(ParseLocationError::Chapter { text, cause }) => {
            assert_eq!(text, "1234567890...");
            assert_eq!(cause, IntError::PosOverflow);
        }
        other => panic!("unexpected {other:?}"),
    }
}

#[test]
fn bad_verses_are_reported() {
    match PartialLocation::parse("3:x") {
        Err(ParseLocationError::Verse { text, cause }) => {
            assert_eq!(text, "x");
            assert_eq!(cause, IntError::InvalidDigit);
        }
        other => panic!("unexpected {other:?}"),
    }
    match PartialLocation::parse("3:0") {
        Err(ParseLocationError::Verse { cause, .. }) => assert_eq!(cause, IntError::Zero),
        other => panic!("unexpected {other:?}"),
    }
    match PartialLocation::parse("3:5-4") {
        Err(ParseLocationError::Verse { text, cause }) => {
            assert_eq!(text, "5-4");
            assert_eq!(cause, IntError::Reversed);
        }
        other => panic!("unexpected {other:?}"),
    }
    match Verse::parse("") {
        Err(ParseLocationError::Verse { cause, .. }) => assert_eq!(cause, IntError::Empty),
        other => panic!("unexpected {other:?}"),
    }
}

#[test]
fn verse_membership() {
    let single = Verse::parse("16").unwrap();
    assert!(single.contains(16));
    assert!(!single.contains(15));
    assert!(!single.contains(0));
    let span = Verse::parse("4-6").unwrap();
    assert!(!span.contains(3));
    assert!(span.contains(4));
    assert!(span.contains(5));
    assert!(span.contains(6));
    assert!(!span.contains(7));
    assert!(!span.contains(0));
    let one = Verse::parse("7-7").unwrap();
    assert!(one.contains(7));
}

#[test]
fn location_from_id() {
    let l = Location::from_id(19023001);
    assert_eq!(l.book, Book::Psalms);
    assert_eq!(l.chapter, 23);
    assert_eq!(l.verse, 1);
    let l = Location::from_id(66022021);
    assert_eq!(l.book, Book::Revelation);
    assert_eq!(l.chapter, 22);
    assert_eq!(l.verse, 21);
}

#[test]
fn full_references() {
    let l = Location::parse("john.3:16").unwrap();
    assert_eq!(l, Location { book: Book::John, chapter: 3, verse: 16 });
    let l = Location::parse("1 Kings.3:16").unwrap();
    assert_eq!(l.book, Book::Kings1);
    assert!(matches!(Location::parse("psalms.23"), Err(ParseReferenceError::Format)));
    assert!(matches!(Location::parse("psalms 23:1"), Err(ParseReferenceError::Format)));
    assert!(matches!(Location::parse("Austin.3:16"), Err(ParseReferenceError::Book(_))));
    assert!(matches!(
        Location::parse("john.x:16"),
        Err(ParseReferenceError::Location(ParseLocationError::Chapter { .. }))
    ));
    assert!(matches!(
        Location::parse("john.3:0"),
        Err(ParseReferenceError::Location(ParseLocationError::Verse { .. }))
    ));
}

#[test]
fn location_error_constructors_cut_text() {
    match ParseLocationError::chapter("abcdefghijkl", IntError::InvalidDigit) {
        ParseLocationError::Chapter { text, .. } => assert_eq!(text, "abcdefghij..."),
        other => panic!("unexpected {other:?}"),
    }
    match ParseLocationError::verse("short", IntError::Empty) {
        ParseLocationError::Verse { text, .. } => assert_eq!(text, "short"),
        other => panic!("unexpected {other:?}"),
    }
}
