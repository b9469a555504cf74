use bible::book::Book;
use bible::codec::{decode_path, encode_location, encode_path, select_texts, Text};
use bible::location::{Location, PartialLocation, Verse};
use bible::reference::{book_slug, Biblia, Reference, ReferenceProvider};
use bible::translation::Translation;

fn text(book: Book, chapter: u16, verse: u16, content: &str) -> Text {
    Text { book, chapter, verse, content: content.to_string() }
}

#[test]
fn paths_stop_at_the_given_precision() {
    assert_eq!(encode_path(Book::Psalms, None), "/19");
    let chapter = PartialLocation { chapter: 23, verse: None };
    assert_eq!(encode_path(Book::Psalms, Some(chapter)), "/19/23");
    let single = PartialLocation { chapter: 23, verse: Some(Verse { start: 4, end: None }) };
    assert_eq!(encode_path(Book::Psalms, Some(single)), "/19/23/4");
    let span = PartialLocation { chapter: 127, verse: Some(Verse { start: 4, end: Some(5) }) };
    assert_eq!(encode_path(Book::Psalms, Some(span)), "/19/127");
}

#[test]
fn verse_paths_round_trip() {
    let l = Location { book: Book::John, chapter: 3, verse: 16 };
    assert_eq!(encode_location(l), "/43/3/16");
    assert_eq!(decode_path("/43/3/16"), Some(l));
    assert_eq!(decode_path("43/3/16"), Some(l));
    assert_eq!(decode_path("/43/3"), None);
    assert_eq!(decode_path("/67/3/16"), None);
    assert_eq!(decode_path("/x/3/16"), None);
}

#[test]
fn texts_from_paths() {
    let t = Text::from_parts("/19/23/1", "The LORD is my shepherd".to_string()).unwrap();
    assert_eq!((t.book, t.chapter, t.verse), (Book::Psalms, 23, 1));
    assert_eq!(t.content, "The LORD is my shepherd");
    assert_eq!(t.chapter().chapter, 23);
    assert!(Text::from_parts("/19/23", String::new()).is_none());
}

#[test]
fn selection_filters_spans_and_sorts() {
    let texts = vec![
        text(Book::Psalms, 127, 5, "e"),
        text(Book::Genesis, 1, 1, "a"),
        text(Book::Psalms, 127, 3, "c"),
        text(Book::Psalms, 127, 4, "d"),
        text(Book::Psalms, 126, 9, "b"),
    ];
    let all = select_texts(texts.clone(), None);
    let order: Vec<&str> = all.iter().map(|t| t.content.as_str()).collect();
    assert_eq!(order, vec!["a", "b", "c", "d", "e"]);
    let span = select_texts(texts, Some(Verse { start: 4, end: Some(5) }));
    let order: Vec<&str> = span.iter().map(|t| t.content.as_str()).collect();
    assert_eq!(order, vec!["d", "e"]);
}

#[test]
fn reference_urls() {
    assert_eq!(book_slug(Book::SongofSongs), "songofsongs");
    assert_eq!(book_slug(Book::Kings1), "1kings");
    let provider = ReferenceProvider::default_provider();
    assert_eq!(provider.short_name(), "biblia");
    let l = Location { book: Book::John, chapter: 3, verse: 16 };
    assert_eq!(provider.get().url(&l, Translation::Kjv), "https://biblia.com/bible/KJV/john/3/16");
    assert_eq!(Biblia.url_of(&l, Translation::Asv), "https://biblia.com/bible/ASV/john/3/16");
}

#[test]
fn translations() {
    assert_eq!(Translation::parse("kjv").unwrap(), Translation::Kjv);
    assert_eq!(Translation::parse("ASV").unwrap(), Translation::Asv);
    assert_eq!(Translation::parse("niv-extended").unwrap_err().text, "niv-ext...");
    assert_eq!(Translation::from_flags(false, true), Translation::Asv);
    assert_eq!(Translation::from_flags(false, false), Translation::Kjv);
    assert_eq!(Translation::Kjv.facet_path(), "/KJV");
}
