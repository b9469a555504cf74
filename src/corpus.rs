//! The corpus index: book, then chapter, then verse, then text, each level
//! in corpus order, built from one record per line.

use vstd::prelude::*;
use indexmap::IndexMap;

use crate::book::Book;
use crate::error::{Entity, NotFound};
use crate::location::{PartialLocation, Verse};
use crate::strings::{chars_of, slice_chars, string_of};

verus! {

#[verifier::external_type_specification]
#[verifier::external_body]
#[verifier::reject_recursive_types(K)]
#[verifier::reject_recursive_types(V)]
#[verifier::reject_recursive_types(S)]
pub struct ExIndexMap<K, V, S>(IndexMap<K, V, S>);

/// The verses of one chapter, verse number to text, in corpus order.
pub type ChapterIndex = IndexMap<u16, String>;

/// The chapters of one book, in corpus order.
pub type BookIndex = IndexMap<u16, ChapterIndex>;

/// What a `ChapterIndex` holds, in its order.
pub uninterp spec fn chapter_entries(m: ChapterIndex) -> Seq<(u16, String)>;

/// What a `BookIndex` holds, in its order.
pub uninterp spec fn book_entries(m: BookIndex) -> Seq<(u16, ChapterIndex)>;

/// What the map of books holds, in its order.
pub uninterp spec fn index_entries(m: IndexMap<u8, BookIndex>) -> Seq<(u8, BookIndex)>;

pub open spec fn key_index_from<K, V>(e: Seq<(K, V)>, k: K, j: int) -> Option<int>
    decreases e.len() - j,
{
    if j < 0 || j >= e.len() {
        None
    } else if e[j].0 == k {
        Some(j)
    } else {
        key_index_from(e, k, j + 1)
    }
}

/// The position of key `k` among entries `e`.
pub open spec fn key_index<K, V>(e: Seq<(K, V)>, k: K) -> Option<int> {
    key_index_from(e, k, 0)
}

/// The value under key `k` among entries `e`.
pub open spec fn value_of<K, V>(e: Seq<(K, V)>, k: K) -> Option<V> {
    match key_index(e, k) {
        Some(i) => Some(e[i].1),
        None => None,
    }
}

/// The keys of entries `e`, in order.
pub open spec fn keys_of<K, V>(e: Seq<(K, V)>) -> Seq<K> {
    e.map_values(|p: (K, V)| p.0)
}

/// What `IndexMap::insert` does: a present key keeps its place and takes
/// the new value, handing back the old one; a new key goes last.
pub open spec fn inserted<K, V>(
    old: Seq<(K, V)>,
    new: Seq<(K, V)>,
    k: K,
    v: V,
    r: Option<V>,
) -> bool {
    match key_index(old, k) {
        Some(i) => new == old.update(i, (k, v)) && r == Some(old[i].1),
        None => new == old.push((k, v)) && r is None,
    }
}

proof fn lemma_key_index_from_bounds<K, V>(e: Seq<(K, V)>, k: K, j: int)
    requires
        j >= 0,
    ensures
        match key_index_from(e, k, j) {
            Some(i) => j <= i < e.len() && e[i].0 == k,
            None => true,
        },
    decreases e.len() - j,
{
    if j < e.len() && e[j].0 != k {
        lemma_key_index_from_bounds(e, k, j + 1);
    }
}

proof fn lemma_key_index_push<K, V>(e: Seq<(K, V)>, k: K, v: V, q: K, j: int)
    requires
        key_index_from(e, k, j) is None,
        0 <= j <= e.len(),
    ensures
        key_index_from(e.push((k, v)), q, j) == match key_index_from(e, q, j) {
            Some(i) => Some(i),
            None => if q == k { Some(e.len() as int) } else { None },
        },
    decreases e.len() - j,
{
    let f = e.push((k, v));
    if j < e.len() {
        assert(f[j] == e[j]);
        lemma_key_index_push(e, k, v, q, j + 1);
    } else {
        assert(f[j] == (k, v));
        assert(key_index_from(f, q, j + 1) is None);
    }
}

proof fn lemma_key_index_update<K, V>(e: Seq<(K, V)>, i: int, k: K, v: V, q: K, j: int)
    requires
        0 <= i < e.len(),
        e[i].0 == k,
        0 <= j,
    ensures
        key_index_from(e.update(i, (k, v)), q, j) == key_index_from(e, q, j),
    decreases e.len() - j,
{
    if j < e.len() {
        lemma_key_index_update(e, i, k, v, q, j + 1);
    }
}

/// After an insert, key `k` holds `v` and every other key what it held.
pub proof fn lemma_inserted<K, V>(old: Seq<(K, V)>, new: Seq<(K, V)>, k: K, v: V, r: Option<V>)
    requires
        inserted(old, new, k, v, r),
    ensures
        r == value_of(old, k),
        keys_of(new) == if value_of(old, k) is Some {
            keys_of(old)
        } else {
            keys_of(old).push(k)
        },
        forall|q: K| #[trigger]
            value_of(new, q) == if q == k {
                Some(v)
            } else {
                value_of(old, q)
            },
{
    lemma_key_index_from_bounds(old, k, 0);
    match key_index(old, k) {
        Some(i) => {
            assert(keys_of(new) =~= keys_of(old));
            assert forall|q: K| #[trigger]
                value_of(new, q) == if q == k {
                    Some(v)
                } else {
                    value_of(old, q)
                } by {
                lemma_key_index_update(old, i, k, v, q, 0);
                lemma_key_index_from_bounds(old, q, 0);
            }
        },
        None => {
            assert(keys_of(new) =~= keys_of(old).push(k));
            assert forall|q: K| #[trigger]
                value_of(new, q) == if q == k {
                    Some(v)
                } else {
                    value_of(old, q)
                } by {
                lemma_key_index_push(old, k, v, q, 0);
                lemma_key_index_from_bounds(old, q, 0);
            }
        },
    }
}

/// Relies on IndexMap::new: the new map is empty.
#[verifier::external_body]
fn chapter_index_new() -> (r: ChapterIndex)
    ensures
        chapter_entries(r) == Seq::<(u16, String)>::empty(),
{
    IndexMap::new()
}

/// Relies on IndexMap::new: the new map is empty.
#[verifier::external_body]
fn book_index_new() -> (r: BookIndex)
    ensures
        book_entries(r) == Seq::<(u16, ChapterIndex)>::empty(),
{
    IndexMap::new()
}

/// Relies on IndexMap::new: the new map is empty.
#[verifier::external_body]
fn index_new() -> (r: IndexMap<u8, BookIndex>)
    ensures
        index_entries(r) == Seq::<(u8, BookIndex)>::empty(),
{
    IndexMap::new()
}

/// Relies on IndexMap::insert: a present key keeps its place and takes the
/// new value, the old one coming back; a new key goes last.
#[verifier::external_body]
fn chapter_index_insert(m: &mut ChapterIndex, k: u16, v: String) -> (r: Option<String>)
    ensures
        inserted(chapter_entries(*old(m)), chapter_entries(*final(m)), k, v, r),
{
    m.insert(k, v)
}

/// Relies on IndexMap::insert: a present key keeps its place and takes the
/// new value, the old one coming back; a new key goes last.
#[verifier::external_body]
fn book_index_insert(m: &mut BookIndex, k: u16, v: ChapterIndex) -> (r: Option<ChapterIndex>)
    ensures
        inserted(book_entries(*old(m)), book_entries(*final(m)), k, v, r),
{
    m.insert(k, v)
}

/// Relies on IndexMap::insert: a present key keeps its place and takes the
/// new value, the old one coming back; a new key goes last.
#[verifier::external_body]
fn index_insert(m: &mut IndexMap<u8, BookIndex>, k: u8, v: BookIndex) -> (r: Option<BookIndex>)
    ensures
        inserted(index_entries(*old(m)), index_entries(*final(m)), k, v, r),
{
    m.insert(k, v)
}

/// Relies on IndexMap::get: the value under the key, if it is present.
#[verifier::external_body]
fn chapter_index_get(m: &ChapterIndex, k: u16) -> (r: Option<&String>)
    ensures
        match value_of(chapter_entries(*m), k) {
            Some(v) => r is Some && *r->0 == v,
            None => r is None,
        },
{
    m.get(&k)
}

/// Relies on IndexMap::get: the value under the key, if it is present.
#[verifier::external_body]
fn book_index_get(m: &BookIndex, k: u16) -> (r: Option<&ChapterIndex>)
    ensures
        match value_of(book_entries(*m), k) {
            Some(v) => r is Some && *r->0 == v,
            None => r is None,
        },
{
    m.get(&k)
}

/// Relies on IndexMap::get: the value under the key, if it is present.
#[verifier::external_body]
fn index_get(m: &IndexMap<u8, BookIndex>, k: u8) -> (r: Option<&BookIndex>)
    ensures
        match value_of(index_entries(*m), k) {
            Some(v) => r is Some && *r->0 == v,
            None => r is None,
        },
{
    m.get(&k)
}

} // verus!

verus! {

/// The corpus: book ordinal to its chapters, to their verses, to the text.
pub struct CorpusIndex {
    pub books: IndexMap<u8, BookIndex>,
}

/// A corpus line that does not hold a record.
#[derive(Clone, Copy, Debug, PartialEq, Eq, Structural)]
pub struct CorpusError {
    /// The number of the line, counted from zero.
    pub line: usize,
}

pub open spec fn digit_value(c: char) -> nat {
    ((c as u32) - ('0' as u32)) as nat
}

/// One record line: two digits of book, three of chapter and three of verse,
/// one separator, then the text; `None` for any other line, or a book that is
/// not from 1 to 66.
pub open spec fn record_of(l: Seq<char>) -> Option<(u8, u16, u16, Seq<char>)> {
    if l.len() >= 9 && (forall|i: int| 0 <= i < 8 ==> '0' <= #[trigger] l[i] <= '9') {
        let b = 10 * digit_value(l[0]) + digit_value(l[1]);
        let c = 100 * digit_value(l[2]) + 10 * digit_value(l[3]) + digit_value(l[4]);
        let v = 100 * digit_value(l[5]) + 10 * digit_value(l[6]) + digit_value(l[7]);
        if 1 <= b <= 66 {
            Some((b as u8, c as u16, v as u16, l.skip(9)))
        } else {
            None
        }
    } else {
        None
    }
}

pub open spec fn strip_cr(l: Seq<char>) -> Seq<char> {
    if l.len() > 0 && l.last() == '\r' {
        l.drop_last()
    } else {
        l
    }
}

pub open spec fn lines_from(s: Seq<char>, i: int, start: int) -> Seq<Seq<char>>
    decreases s.len() - i,
{
    if i < 0 || i >= s.len() {
        if 0 <= start < s.len() {
            seq![strip_cr(s.subrange(start, s.len() as int))]
        } else {
            seq![]
        }
    } else if s[i] == '\n' {
        seq![strip_cr(s.subrange(start, i))] + lines_from(s, i + 1, i + 1)
    } else {
        lines_from(s, i + 1, start)
    }
}

/// The lines of `s`: split at each line feed, a carriage return before it
/// dropped, no line after a final line feed.
pub open spec fn corpus_lines(s: Seq<char>) -> Seq<Seq<char>> {
    lines_from(s, 0, 0)
}

/// The text of the last record of `lines` at book `b`, chapter `c`, verse `v`.
pub open spec fn text_in(lines: Seq<Seq<char>>, b: u8, c: u16, v: u16) -> Option<Seq<char>>
    decreases lines.len(),
{
    if lines.len() == 0 {
        None
    } else {
        match record_of(lines.last()) {
            Some(r) => if r.0 == b && r.1 == c && r.2 == v {
                Some(r.3)
            } else {
                text_in(lines.drop_last(), b, c, v)
            },
            None => text_in(lines.drop_last(), b, c, v),
        }
    }
}

pub open spec fn line_in_book(l: Seq<char>, b: u8) -> bool {
    match record_of(l) {
        Some(r) => r.0 == b,
        None => false,
    }
}

pub open spec fn line_in_chapter(l: Seq<char>, b: u8, c: u16) -> bool {
    match record_of(l) {
        Some(r) => r.0 == b && r.1 == c,
        None => false,
    }
}

/// Whether some record of `lines` is in book `b`.
pub open spec fn book_in(lines: Seq<Seq<char>>, b: u8) -> bool {
    exists|i: int| 0 <= i < lines.len() && #[trigger] line_in_book(lines[i], b)
}

/// Whether some record of `lines` is in chapter `c` of book `b`.
pub open spec fn chapter_in(lines: Seq<Seq<char>>, b: u8, c: u16) -> bool {
    exists|i: int| 0 <= i < lines.len() && #[trigger] line_in_chapter(lines[i], b, c)
}

/// The books of the records of `lines`, each once, in order of first appearance.
pub open spec fn book_order_of(lines: Seq<Seq<char>>) -> Seq<u8>
    decreases lines.len(),
{
    if lines.len() == 0 {
        seq![]
    } else {
        let prev = book_order_of(lines.drop_last());
        match record_of(lines.last()) {
            Some(r) => if book_in(lines.drop_last(), r.0) { prev } else { prev.push(r.0) },
            None => prev,
        }
    }
}

/// The chapters of book `b` among the records of `lines`, each once, in order
/// of first appearance.
pub open spec fn chapter_order_of(lines: Seq<Seq<char>>, b: u8) -> Seq<u16>
    decreases lines.len(),
{
    if lines.len() == 0 {
        seq![]
    } else {
        let prev = chapter_order_of(lines.drop_last(), b);
        match record_of(lines.last()) {
            Some(r) => if r.0 == b && !chapter_in(lines.drop_last(), b, r.1) {
                prev.push(r.1)
            } else {
                prev
            },
            None => prev,
        }
    }
}

/// The verses of chapter `c` of book `b` among the records of `lines`, each
/// once, in order of first appearance.
pub open spec fn verse_order_of(lines: Seq<Seq<char>>, b: u8, c: u16) -> Seq<u16>
    decreases lines.len(),
{
    if lines.len() == 0 {
        seq![]
    } else {
        let prev = verse_order_of(lines.drop_last(), b, c);
        match record_of(lines.last()) {
            Some(r) => if r.0 == b && r.1 == c && text_in(lines.drop_last(), b, c, r.2) is None {
                prev.push(r.2)
            } else {
                prev
            },
            None => prev,
        }
    }
}

impl CorpusIndex {
    /// The books, in the index's order.
    pub open spec fn book_order(self) -> Seq<u8> {
        keys_of(index_entries(self.books))
    }

    /// The chapters of book `b`, in the index's order.
    pub open spec fn chapter_order(self, b: u8) -> Seq<u16> {
        match self.book_at(b) {
            Some(bi) => keys_of(book_entries(bi)),
            None => seq![],
        }
    }

    /// The verses of chapter `c` of book `b`, in the index's order.
    pub open spec fn verse_order(self, b: u8, c: u16) -> Seq<u16> {
        match self.chapter_at(b, c) {
            Some(ci) => keys_of(chapter_entries(ci)),
            None => seq![],
        }
    }

    /// The chapters of book `b`, if the index holds it.
    pub open spec fn book_at(self, b: u8) -> Option<BookIndex> {
        value_of(index_entries(self.books), b)
    }

    /// The verses of chapter `c` of book `b`, if the index holds it.
    pub open spec fn chapter_at(self, b: u8, c: u16) -> Option<ChapterIndex> {
        match self.book_at(b) {
            Some(bi) => value_of(book_entries(bi), c),
            None => None,
        }
    }

    /// The text at book `b`, chapter `c`, verse `v`, if the index holds it.
    pub open spec fn text_at(self, b: u8, c: u16, v: u16) -> Option<Seq<char>> {
        match self.chapter_at(b, c) {
            Some(ci) => match value_of(chapter_entries(ci), v) {
                Some(t) => Some(t@),
                None => None,
            },
            None => None,
        }
    }

    /// Whether the index holds exactly the records of `lines`: each book and
    /// chapter that one of them is in, and at each address the text of the
    /// last record there; books, chapters and verses in order of first
    /// appearance.
    pub open spec fn models(self, lines: Seq<Seq<char>>) -> bool {
        &&& forall|b: u8| #[trigger] self.book_at(b) is Some <==> book_in(lines, b)
        &&& forall|b: u8, c: u16| #[trigger] self.chapter_at(b, c) is Some <==> chapter_in(lines, b, c)
        &&& forall|b: u8, c: u16, v: u16| #[trigger] self.text_at(b, c, v) == text_in(lines, b, c, v)
        &&& self.book_order() == book_order_of(lines)
        &&& forall|b: u8| #[trigger] self.chapter_order(b) == chapter_order_of(lines, b)
        &&& forall|b: u8, c: u16| #[trigger] self.verse_order(b, c) == verse_order_of(lines, b, c)
    }

    /// An index that holds nothing.
    pub fn new() -> (r: CorpusIndex)
        ensures
            r.models(Seq::empty()),
    {
        let r = CorpusIndex { books: index_new() };
        proof {
            let e = Seq::<Seq<char>>::empty();
            assert(r.book_order() =~= book_order_of(e));
            assert forall|b: u8| #[trigger] r.book_at(b) is Some <==> book_in(e, b) by {}
            assert forall|b: u8, c: u16| #[trigger]
                r.chapter_at(b, c) is Some <==> chapter_in(e, b, c) by {}
            assert forall|b: u8| #[trigger] r.chapter_order(b) == chapter_order_of(e, b) by {}
            assert forall|b: u8, c: u16| #[trigger]
                r.verse_order(b, c) == verse_order_of(e, b, c) by {}
        }
        r
    }

    /// Puts `text` at book `b`, chapter `c`, verse `v`, in place of what was there.
    pub fn insert(&mut self, b: u8, c: u16, v: u16, text: String)
        ensures
            forall|b2: u8| #[trigger]
                final(self).book_at(b2) is Some <==> (b2 == b || old(self).book_at(b2) is Some),
            forall|b2: u8, c2: u16| #[trigger]
                final(self).chapter_at(b2, c2) is Some <==> ((b2 == b && c2 == c) || old(
                    self,
                ).chapter_at(b2, c2) is Some),
            forall|b2: u8, c2: u16, v2: u16| #[trigger]
                final(self).text_at(b2, c2, v2) == if b2 == b && c2 == c && v2 == v {
                    Some(text@)
                } else {
                    old(self).text_at(b2, c2, v2)
                },
            final(self).book_order() == if old(self).book_at(b) is Some {
                old(self).book_order()
            } else {
                old(self).book_order().push(b)
            },
            forall|b2: u8| #[trigger]
                final(self).chapter_order(b2) == if b2 == b && old(self).chapter_at(b, c) is None {
                    old(self).chapter_order(b).push(c)
                } else {
                    old(self).chapter_order(b2)
                },
            forall|b2: u8, c2: u16| #[trigger]
                final(self).verse_order(b2, c2) == if b2 == b && c2 == c && old(self).text_at(
                    b,
                    c,
                    v,
                ) is None {
                    old(self).verse_order(b, c).push(v)
                } else {
                    old(self).verse_order(b2, c2)
                },
    {
        let ghost books0 = index_entries(self.books);
        let empty_book = book_index_new();
        let ghost p = empty_book;
        let taken = index_insert(&mut self.books, b, empty_book);
        proof {
            lemma_inserted(books0, index_entries(self.books), b, p, taken);
        }
        let mut bi = match taken {
            Some(bi) => bi,
            None => book_index_new(),
        };
        let ghost bi0 = book_entries(bi);
        let empty_chapter = chapter_index_new();
        let ghost q = empty_chapter;
        let ctaken = book_index_insert(&mut bi, c, empty_chapter);
        proof {
            lemma_inserted(bi0, book_entries(bi), c, q, ctaken);
        }
        let mut ci = match ctaken {
            Some(ci) => ci,
            None => chapter_index_new(),
        };
        let ghost ci0 = chapter_entries(ci);
        let ghost t = text;
        let r1 = chapter_index_insert(&mut ci, v, text);
        proof {
            lemma_inserted(ci0, chapter_entries(ci), v, t, r1);
        }
        let ghost bi1 = book_entries(bi);
        let ghost ci2 = ci;
        let r2 = book_index_insert(&mut bi, c, ci);
        proof {
            lemma_inserted(bi1, book_entries(bi), c, ci2, r2);
        }
        let ghost books1 = index_entries(self.books);
        let ghost bi2 = bi;
        let r3 = index_insert(&mut self.books, b, bi);
        proof {
            lemma_inserted(books1, index_entries(self.books), b, bi2, r3);
        }
    }
}

} // verus!

verus! {

/// The record that line `x` holds.
pub open spec fn record(x: Seq<char>) -> (u8, u16, u16, Seq<char>) {
    record_of(x)->0
}

/// After one more record line, the model gains that record and keeps the rest.
pub proof fn lemma_push_line(done: Seq<Seq<char>>, x: Seq<char>)
    requires
        record_of(x) is Some,
    ensures
        forall|b: u8| #[trigger]
            book_in(done.push(x), b) <==> (b == record(x).0 || book_in(done, b)),
        forall|b: u8, c: u16| #[trigger]
            chapter_in(done.push(x), b, c) <==> ((b == record(x).0 && c == record(x).1) || chapter_in(done, b, c)),
        forall|b: u8, c: u16, v: u16| #[trigger]
            text_in(done.push(x), b, c, v) == if b == record(x).0 && c == record(x).1
                && v == record(x).2 {
                Some(record(x).3)
            } else {
                text_in(done, b, c, v)
            },
        book_order_of(done.push(x)) == if book_in(done, record(x).0) {
            book_order_of(done)
        } else {
            book_order_of(done).push(record(x).0)
        },
        forall|b: u8| #[trigger]
            chapter_order_of(done.push(x), b) == if b == record(x).0 && !chapter_in(
                done,
                b,
                record(x).1,
            ) {
                chapter_order_of(done, b).push(record(x).1)
            } else {
                chapter_order_of(done, b)
            },
        forall|b: u8, c: u16| #[trigger]
            verse_order_of(done.push(x), b, c) == if b == record(x).0 && c == record(x).1
                && text_in(done, b, c, record(x).2) is None {
                verse_order_of(done, b, c).push(record(x).2)
            } else {
                verse_order_of(done, b, c)
            },
{
    let d = done.push(x);
    assert(d.drop_last() =~= done);
    assert(d.last() == x);
    assert forall|b: u8| #[trigger]
        book_in(d, b) <==> (b == record(x).0 || book_in(done, b)) by {
        if book_in(d, b) {
            let i = choose|i: int| 0 <= i < d.len() && #[trigger] line_in_book(d[i], b);
            if i < done.len() {
                assert(d[i] == done[i]);
            }
        }
        if b == record(x).0 {
            assert(line_in_book(d[done.len() as int], b));
        }
        if book_in(done, b) {
            let i = choose|i: int| 0 <= i < done.len() && #[trigger] line_in_book(done[i], b);
            assert(d[i] == done[i]);
        }
    }
    assert forall|b: u8, c: u16| #[trigger]
        chapter_in(d, b, c) <==> ((b == record(x).0 && c == record(x).1)
            || chapter_in(done, b, c)) by {
        if chapter_in(d, b, c) {
            let i = choose|i: int| 0 <= i < d.len() && #[trigger] line_in_chapter(d[i], b, c);
            if i < done.len() {
                assert(d[i] == done[i]);
            }
        }
        if b == record(x).0 && c == record(x).1 {
            assert(line_in_chapter(d[done.len() as int], b, c));
        }
        if chapter_in(done, b, c) {
            let i = choose|i: int| 0 <= i < done.len() && #[trigger] line_in_chapter(done[i], b, c);
            assert(d[i] == done[i]);
        }
    }
}

/// Reads one record line.
pub fn parse_record(l: &[char]) -> (r: Option<(u8, u16, u16, String)>)
    ensures
        match record_of(l@) {
            Some(p) => match r {
                Some(q) => q.0 == p.0 && q.1 == p.1 && q.2 == p.2 && q.3@ == p.3,
                None => false,
            },
            None => r is None,
        },
{
    if l.len() < 9 {
        return None;
    }
    let mut i: usize = 0;
    while i < 8
        invariant
            i <= 8,
            l@.len() >= 9,
            forall|j: int| 0 <= j < i ==> '0' <= #[trigger] l@[j] <= '9',
        decreases 8 - i,
    {
        if !('0' <= l[i] && l[i] <= '9') {
            return None;
        }
        i = i + 1;
    }
    let d0 = (l[0] as u32) - ('0' as u32);
    let d1 = (l[1] as u32) - ('0' as u32);
    let d2 = (l[2] as u32) - ('0' as u32);
    let d3 = (l[3] as u32) - ('0' as u32);
    let d4 = (l[4] as u32) - ('0' as u32);
    let d5 = (l[5] as u32) - ('0' as u32);
    let d6 = (l[6] as u32) - ('0' as u32);
    let d7 = (l[7] as u32) - ('0' as u32);
    let b = 10 * d0 + d1;
    let c = 100 * d2 + 10 * d3 + d4;
    let v = 100 * d5 + 10 * d6 + d7;
    if b < 1 || b > 66 {
        return None;
    }
    let text = slice_chars(l, 9, l.len());
    assert(text@ =~= l@.skip(9));
    Some((b as u8, c as u16, v as u16, string_of(&text)))
}

impl CorpusIndex {
    /// Builds the index of a corpus, one record per line, each line after the
    /// last taking the place of an earlier one at the same address; the first
    /// line that is not a record is an error.
    pub fn build(corpus: &str) -> (r: Result<CorpusIndex, CorpusError>)
        ensures
            match r {
                Ok(idx) => (forall|j: int|
                    0 <= j < corpus_lines(corpus@).len() ==> #[trigger] record_of(
                        corpus_lines(corpus@)[j],
                    ) is Some) && idx.models(corpus_lines(corpus@)),
                Err(e) => e.line < corpus_lines(corpus@).len() && record_of(
                    corpus_lines(corpus@)[e.line as int],
                ) is None && forall|j: int|
                    0 <= j < e.line ==> #[trigger] record_of(corpus_lines(corpus@)[j]) is Some,
            },
    {
        let s = chars_of(corpus);
        let mut idx = CorpusIndex::new();
        let mut i: usize = 0;
        let mut start: usize = 0;
        let mut line_no: usize = 0;
        let ghost done: Seq<Seq<char>> = seq![];
        while i < s.len()
            invariant
                s@ == corpus@,
                start <= i <= s@.len(),
                corpus_lines(s@) == done + lines_from(s@, i as int, start as int),
                forall|j: int| 0 <= j < done.len() ==> #[trigger] record_of(done[j]) is Some,
                line_no == done.len(),
                line_no <= start,
                idx.models(done),
            decreases s@.len() - i,
        {
            if s[i] == '\n' {
                let line = strip_line(&s, start, i);
                let ghost x = line@;
                match parse_record(&line) {
                    Some((b, c, v, text)) => {
                        idx.insert(b, c, v, text);
                        proof {
                            lemma_push_line(done, x);
                            assert(done + lines_from(s@, i as int, start as int) =~= done.push(x)
                                + lines_from(s@, i + 1, i + 1));
                            done = done.push(x);
                        }
                    },
                    None => {
                        proof {
                            assert(done + lines_from(s@, i as int, start as int) =~= done.push(x)
                                + lines_from(s@, i + 1, i + 1));
                            assert(corpus_lines(s@)[done.len() as int] == x);
                            assert forall|j: int| 0 <= j < line_no implies #[trigger] record_of(
                                corpus_lines(s@)[j],
                            ) is Some by {
                                assert(corpus_lines(s@)[j] == done[j]);
                            }
                        }
                        return Err(CorpusError { line: line_no });
                    },
                }
                line_no = line_no + 1;
                start = i + 1;
            }
            i = i + 1;
        }
        if start < s.len() {
            let line = strip_line(&s, start, s.len());
            let ghost x = line@;
            match parse_record(&line) {
                Some((b, c, v, text)) => {
                    idx.insert(b, c, v, text);
                    proof {
                        lemma_push_line(done, x);
                        assert(done + lines_from(s@, i as int, start as int) =~= done.push(x));
                        done = done.push(x);
                    }
                },
                None => {
                    proof {
                        assert(done + lines_from(s@, i as int, start as int) =~= done.push(x));
                        assert(corpus_lines(s@)[done.len() as int] == x);
                        assert forall|j: int| 0 <= j < line_no implies #[trigger] record_of(
                            corpus_lines(s@)[j],
                        ) is Some by {
                            assert(corpus_lines(s@)[j] == done[j]);
                        }
                    }
                    return Err(CorpusError { line: line_no });
                },
            }
        } else {
            assert(done + lines_from(s@, i as int, start as int) =~= done);
        }
        Ok(idx)
    }
}

/// The characters of `s` from `a` up to `b`, a final carriage return dropped.
fn strip_line(s: &[char], a: usize, b: usize) -> (r: Vec<char>)
    requires
        a <= b <= s@.len(),
    ensures
        r@ == strip_cr(s@.subrange(a as int, b as int)),
{
    if b > a && s[b - 1] == '\r' {
        let r = slice_chars(s, a, b - 1);
        assert(r@ =~= s@.subrange(a as int, b as int).drop_last());
        r
    } else {
        slice_chars(s, a, b)
    }
}

} // verus!

verus! {

impl CorpusIndex {
    /// The chapters of `book`, or `NotFound` for the book.
    pub fn book(&self, book: Book) -> (r: Result<&BookIndex, NotFound>)
        ensures
            match self.book_at(book.ordinal()) {
                Some(bi) => r is Ok && *r->Ok_0 == bi,
                None => r == Err::<&BookIndex, NotFound>(
                    NotFound { entity: Entity::Book, book, location: None },
                ),
            },
    {
        match index_get(&self.books, book.to_u8()) {
            Some(bi) => Ok(bi),
            None => Err(NotFound { entity: Entity::Book, book, location: None }),
        }
    }

    /// The verses of chapter `chapter` of `book`, or `NotFound` for the book
    /// or the chapter, whichever is missing first.
    pub fn chapter(&self, book: Book, chapter: u16) -> (r: Result<&ChapterIndex, NotFound>)
        ensures
            match self.book_at(book.ordinal()) {
                None => r == Err::<&ChapterIndex, NotFound>(
                    NotFound { entity: Entity::Book, book, location: None },
                ),
                Some(_) => match self.chapter_at(book.ordinal(), chapter) {
                    Some(ci) => r is Ok && *r->Ok_0 == ci,
                    None => r == Err::<&ChapterIndex, NotFound>(
                        NotFound {
                            entity: Entity::Chapter,
                            book,
                            location: Some(PartialLocation { chapter, verse: None }),
                        },
                    ),
                },
            },
    {
        let bi = self.book(book)?;
        match book_index_get(bi, chapter) {
            Some(ci) => Ok(ci),
            None => Err(
                NotFound {
                    entity: Entity::Chapter,
                    book,
                    location: Some(PartialLocation { chapter, verse: None }),
                },
            ),
        }
    }

    /// The text of verse `verse` of chapter `chapter` of `book`, or `NotFound`
    /// for the book, the chapter or the verse, whichever is missing first; a
    /// missing chapter or verse is reported with the whole location asked for.
    pub fn verse(&self, book: Book, chapter: u16, verse: u16) -> (r: Result<&String, NotFound>)
        ensures
            match self.book_at(book.ordinal()) {
                None => r == Err::<&String, NotFound>(
                    NotFound { entity: Entity::Book, book, location: None },
                ),
                Some(_) => match self.chapter_at(book.ordinal(), chapter) {
                    None => r == Err::<&String, NotFound>(
                        NotFound {
                            entity: Entity::Chapter,
                            book,
                            location: Some(
                                PartialLocation {
                                    chapter,
                                    verse: Some(Verse { start: verse, end: None }),
                                },
                            ),
                        },
                    ),
                    Some(_) => match self.text_at(book.ordinal(), chapter, verse) {
                        Some(t) => r is Ok && r->Ok_0@ == t,
                        None => r == Err::<&String, NotFound>(
                            NotFound {
                                entity: Entity::Verse,
                                book,
                                location: Some(
                                    PartialLocation {
                                        chapter,
                                        verse: Some(Verse { start: verse, end: None }),
                                    },
                                ),
                            },
                        ),
                    },
                },
            },
    {
        let location = PartialLocation { chapter, verse: Some(Verse { start: verse, end: None }) };
        let bi = self.book(book)?;
        let ci = match book_index_get(bi, chapter) {
            Some(ci) => ci,
            None => {
                return Err(
                    NotFound { entity: Entity::Chapter, book, location: Some(location) },
                );
            },
        };
        match chapter_index_get(ci, verse) {
            Some(t) => Ok(t),
            None => Err(NotFound { entity: Entity::Verse, book, location: Some(location) }),
        }
    }
}

/// A record whose address no later line takes gives its text back; an address
/// that no line has gives nothing.
pub proof fn lemma_text_in_last(lines: Seq<Seq<char>>, i: int)
    requires
        0 <= i < lines.len(),
        record_of(lines[i]) is Some,
        forall|j: int|
            i < j < lines.len() ==> !(#[trigger] record_of(lines[j]) is Some && record(lines[j]).0
                == record(lines[i]).0 && record(lines[j]).1 == record(lines[i]).1 && record(
                lines[j],
            ).2 == record(lines[i]).2),
    ensures
        text_in(lines, record(lines[i]).0, record(lines[i]).1, record(lines[i]).2) == Some(
            record(lines[i]).3,
        ),
    decreases lines.len(),
{
    let n = lines.len() - 1;
    if i < n {
        let d = lines.drop_last();
        assert forall|j: int|
            i < j < d.len() implies !(#[trigger] record_of(d[j]) is Some && record(d[j]).0
            == record(d[i]).0 && record(d[j]).1 == record(d[i]).1 && record(d[j]).2 == record(
            d[i],
        ).2) by {
            assert(d[j] == lines[j]);
        }
        lemma_text_in_last(d, i);
    }
}

/// Building an index from a corpus and looking up the address of one of its
/// records gives that record's text, where no later line is at the same
/// address; a book, or a chapter of a book, that no record is in is missing.
pub proof fn law_build_then_lookup(corpus: Seq<char>, idx: CorpusIndex, i: int, b: u8, c: u16)
    requires
        idx.models(corpus_lines(corpus)),
        0 <= i < corpus_lines(corpus).len(),
        record_of(corpus_lines(corpus)[i]) is Some,
        forall|j: int|
            i < j < corpus_lines(corpus).len() ==> !(#[trigger] record_of(corpus_lines(corpus)[j])
                is Some && record(corpus_lines(corpus)[j]).0 == record(corpus_lines(corpus)[i]).0
                && record(corpus_lines(corpus)[j]).1 == record(corpus_lines(corpus)[i]).1
                && record(corpus_lines(corpus)[j]).2 == record(corpus_lines(corpus)[i]).2),
    ensures
        ({
            let r = record(corpus_lines(corpus)[i]);
            &&& idx.book_at(r.0) is Some
            &&& idx.chapter_at(r.0, r.1) is Some
            &&& idx.text_at(r.0, r.1, r.2) == Some(r.3)
        }),
        !book_in(corpus_lines(corpus), b) ==> idx.book_at(b) is None,
        !chapter_in(corpus_lines(corpus), b, c) ==> idx.chapter_at(b, c) is None,
{
    let lines = corpus_lines(corpus);
    let r = record(lines[i]);
    lemma_text_in_last(lines, i);
    assert(line_in_book(lines[i], r.0));
    assert(line_in_chapter(lines[i], r.0, r.1));
}

} // verus!
