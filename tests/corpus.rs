use bible::book::Book;
use bible::corpus::{CorpusError, CorpusIndex};
use bible::error::{AbbrevStr, Entity, NotFound};
use bible::location::{PartialLocation, Verse};

const CORPUS: &str = "19023001 The earth is the LORD's...\n\
19023002 For he hath founded it upon the seas.\n\
19024001 The earth is the LORD'S, and the fulness thereof.\n\
43003016 For God so loved the world,\r\n";

#[test]
fn psalm_lookup_returns_the_record_text() {
    let index = CorpusIndex::build(CORPUS).unwrap();
    assert_eq!(index.verse(Book::Psalms, 23, 1).unwrap(), "The earth is the LORD's...");
    assert_eq!(index.verse(Book::Psalms, 23, 2).unwrap(), "For he hath founded it upon the seas.");
    assert_eq!(index.verse(Book::John, 3, 16).unwrap(), "For God so loved the world,");
}

#[test]
fn every_record_looks_up_to_its_text() {
    let index = CorpusIndex::build(CORPUS).unwrap();
    for line in CORPUS.lines() {
        let id: u64 = line[..8].parse().unwrap();
        let book = Book::from_u8((id / 1_000_000) as u8);
        let chapter = (id % 1_000_000 / 1000) as u16;
        let verse = (id % 1000) as u16;
        assert_eq!(index.verse(book, chapter, verse).unwrap(), &line[9..]);
    }
}

#[test]
fn missing_entities_are_told_apart() {
    let index = CorpusIndex::build(CORPUS).unwrap();
    assert_eq!(
        index.book(Book::Genesis).unwrap_err(),
        NotFound { entity: Entity::Book, book: Book::Genesis, location: None }
    );
    assert_eq!(
        index.chapter(Book::Psalms, 150).unwrap_err(),
        NotFound {
            entity: Entity::Chapter,
            book: Book::Psalms,
            location: Some(PartialLocation { chapter: 150, verse: None }),
        }
    );
    assert_eq!(
        index.verse(Book::Psalms, 23, 9).unwrap_err(),
        NotFound {
            entity: Entity::Verse,
            book: Book::Psalms,
            location: Some(PartialLocation {
                chapter: 23,
                verse: Some(Verse { start: 9, end: None }),
            }),
        }
    );
    assert_eq!(index.verse(Book::Genesis, 1, 1).unwrap_err().entity, Entity::Book);
    assert_eq!(index.verse(Book::Psalms, 1, 1).unwrap_err().entity, Entity::Chapter);
    assert_eq!(Entity::Verse.name(), "verse");
}

#[test]
fn chapters_and_verses_keep_corpus_order() {
    let index = CorpusIndex::build(CORPUS).unwrap();
    let chapters: Vec<u16> = index.book(Book::Psalms).unwrap().keys().copied().collect();
    assert_eq!(chapters, vec![23, 24]);
    let verses: Vec<u16> = index.chapter(Book::Psalms, 23).unwrap().keys().copied().collect();
    assert_eq!(verses, vec![1, 2]);
}

#[test]
fn later_record_at_same_address_wins() {
    let index = CorpusIndex::build("01001001 first\n01001001 second").unwrap();
    assert_eq!(index.verse(Book::Genesis, 1, 1).unwrap(), "second");
}

#[test]
fn malformed_lines_are_reported() {
    assert_eq!(
        CorpusIndex::build("01001001 ok\n0100x001 bad\n").err(),
        Some(CorpusError { line: 1 })
    );
    assert_eq!(CorpusIndex::build("67001001 no such book").err(), Some(CorpusError { line: 0 }));
    assert_eq!(CorpusIndex::build("01001001").err(), Some(CorpusError { line: 0 }));
    assert_eq!(
        CorpusIndex::build("01001001 a\n\n01001002 b").err(),
        Some(CorpusError { line: 1 })
    );
}

#[test]
fn empty_corpus_is_empty() {
    let index = CorpusIndex::build("").unwrap();
    assert!(index.book(Book::Genesis).is_err());
    assert_eq!(index.books.len(), 0);
}

#[test]
fn not_found_messages() {
    let index = CorpusIndex::build(CORPUS).unwrap();
    assert_eq!(index.book(Book::Genesis).unwrap_err().message(), "book not found: Genesis");
    assert_eq!(
        index.chapter(Book::Psalms, 150).unwrap_err().message(),
        "chapter not found: Psalms [150]"
    );
    assert_eq!(
        index.verse(Book::Psalms, 23, 9).unwrap_err().message(),
        "verse not found: Psalms [23:9]"
    );
    let span = PartialLocation { chapter: 127, verse: Some(Verse { start: 4, end: Some(5) }) };
    assert_eq!(span.display(), "[127:4-5]");
    assert_eq!(Verse { start: 16, end: None }.display(), "16");
}

#[test]
fn abbreviated_text() {
    assert_eq!(AbbrevStr::get("abcdefghijkl", 10), "abcdefghij...");
    assert_eq!(AbbrevStr::get("abc", 10), "abc");
    assert_eq!(AbbrevStr::get(String::from("translation"), 7), "transla...");
}

#[test]
fn missing_chapter_keeps_the_verse_asked_for() {
    let index = CorpusIndex::build(CORPUS).unwrap();
    let e = index.verse(Book::Psalms, 151, 3).unwrap_err();
    assert_eq!(
        e,
        NotFound {
            entity: Entity::Chapter,
            book: Book::Psalms,
            location: Some(PartialLocation {
                chapter: 151,
                verse: Some(Verse { start: 3, end: None }),
            }),
        }
    );
    assert_eq!(e.message(), "chapter not found: Psalms [151:3]");
}

#[test]
fn books_keep_first_appearance_order() {
    let index = CorpusIndex::build("43003016 a\n19023001 b\n43003017 c\n43001001 d").unwrap();
    let books: Vec<u8> = index.books.keys().copied().collect();
    assert_eq!(books, vec![43, 19]);
    let chapters: Vec<u16> = index.book(Book::John).unwrap().keys().copied().collect();
    assert_eq!(chapters, vec![3, 1]);
}
