//! Paths that scope queries to a book, chapter or verse, and the texts that
//! come back: decoding their places, picking out spans, canonical order.

use vstd::prelude::*;
use vstd::multiset::Multiset;
use vstd::seq_lib::to_multiset_insert;

use crate::book::Book;
use crate::location::{Location, PartialLocation, Verse};
use crate::strings::{
    all_digits, append_chars, chars_of, decimal, decimal_string, digit_char, digits_value, find_from, is_digit, parse_u16,
    parse_u8, parse_uint, split_once, split_once_at, string_of, unsigned_digits, IntError,
};

verus! {

/// The path that scopes a query: `/book`, then `/chapter` where one is given,
/// then `/verse` where a single verse is given. A span stops at the chapter:
/// its verses are picked out afterwards.
pub open spec fn path_of(book: Book, location: Option<PartialLocation>) -> Seq<char> {
    let b = seq!['/'] + decimal(book.ordinal() as nat);
    match location {
        None => b,
        Some(l) => {
            let c = b + seq!['/'] + decimal(l.chapter as nat);
            match l.verse {
                Some(v) => if v.end is None {
                    c + seq!['/'] + decimal(v.start as nat)
                } else {
                    c
                },
                None => c,
            }
        },
    }
}

/// The path of one verse: `/book/chapter/verse`.
pub open spec fn location_path(l: Location) -> Seq<char> {
    seq!['/'] + decimal(l.book.ordinal() as nat) + seq!['/'] + decimal(l.chapter as nat) + seq![
        '/',
    ] + decimal(l.verse as nat)
}

/// The path that scopes a query for `book` and, where given, a location in it.
pub fn encode_path(book: Book, location: Option<PartialLocation>) -> (r: String)
    ensures
        r@ == path_of(book, location),
{
    let mut v: Vec<char> = Vec::new();
    v.push('/');
    append_chars(&mut v, &decimal_string(book.to_u8() as u64));
    assert(v@ =~= seq!['/'] + decimal(book.ordinal() as nat));
    if let Some(l) = location {
        v.push('/');
        append_chars(&mut v, &decimal_string(l.chapter as u64));
        if let Some(verse) = l.verse {
            if verse.end.is_none() {
                v.push('/');
                append_chars(&mut v, &decimal_string(verse.start as u64));
            }
        }
    }
    string_of(&v)
}

/// The path of one verse.
pub fn encode_location(l: Location) -> (r: String)
    ensures
        r@ == location_path(l),
{
    let mut v: Vec<char> = Vec::new();
    v.push('/');
    append_chars(&mut v, &decimal_string(l.book.to_u8() as u64));
    v.push('/');
    append_chars(&mut v, &decimal_string(l.chapter as u64));
    v.push('/');
    append_chars(&mut v, &decimal_string(l.verse as u64));
    string_of(&v)
}

pub open spec fn strip_slashes(s: Seq<char>) -> Seq<char>
    decreases s.len(),
{
    if s.len() > 0 && s[0] == '/' {
        strip_slashes(s.drop_first())
    } else {
        s
    }
}

/// The next segment of a path and what follows it.
pub open spec fn segment(s: Seq<char>) -> (Seq<char>, Seq<char>) {
    match split_once(s, '/') {
        Some(p) => p,
        None => (s, Seq::empty()),
    }
}

/// Book ordinal, chapter and verse of a path: leading slashes dropped, then
/// the first three segments; `None` where one of them is not a number or
/// the book is not from 1 to 66.
pub open spec fn path_fields(p: Seq<char>) -> Option<(u8, u16, u16)> {
    let s = strip_slashes(p);
    let b = segment(s).0;
    let c = segment(segment(s).1).0;
    let v = segment(segment(segment(s).1).1).0;
    match parse_uint(b, 0xff) {
        Ok(bn) => match parse_uint(c, 0xffff) {
            Ok(cn) => match parse_uint(v, 0xffff) {
                Ok(vn) => if 1 <= bn <= 66 {
                    Some((bn as u8, cn as u16, vn as u16))
                } else {
                    None
                },
                Err(_) => None,
            },
            Err(_) => None,
        },
        Err(_) => None,
    }
}

fn segment_of(s: &[char]) -> (r: (Vec<char>, Vec<char>))
    ensures
        r.0@ == segment(s@).0,
        r.1@ == segment(s@).1,
{
    match split_once_at(s, '/') {
        Some((a, b)) => (a, b),
        None => {
            let mut a: Vec<char> = Vec::new();
            let mut i: usize = 0;
            while i < s.len()
                invariant
                    i <= s@.len(),
                    a@ == s@.take(i as int),
                decreases s@.len() - i,
            {
                a.push(s[i]);
                i = i + 1;
                assert(a@ =~= s@.take(i as int));
            }
            assert(a@ =~= s@);
            (a, Vec::new())
        },
    }
}

/// Reads the location that a verse path names.
pub fn decode_path(path: &str) -> (r: Option<Location>)
    ensures
        match path_fields(path@) {
            Some(f) => r is Some && r->0.book.ordinal() == f.0 && r->0.chapter == f.1
                && r->0.verse == f.2,
            None => r is None,
        },
{
    let c = chars_of(path);
    let mut a: usize = 0;
    assert(c@.skip(0) =~= c@);
    while a < c.len() && c[a] == '/'
        invariant
            a <= c@.len(),
            strip_slashes(c@) == strip_slashes(c@.skip(a as int)),
        decreases c@.len() - a,
    {
        assert(c@.skip(a as int).drop_first() =~= c@.skip(a + 1));
        a = a + 1;
    }
    let mut s: Vec<char> = Vec::new();
    let mut i: usize = a;
    while i < c.len()
        invariant
            a <= i <= c@.len(),
            s@ == c@.subrange(a as int, i as int),
        decreases c@.len() - i,
    {
        s.push(c[i]);
        i = i + 1;
        assert(s@ =~= c@.subrange(a as int, i as int));
    }
    assert(s@ =~= c@.skip(a as int));
    let (b, rest) = segment_of(&s);
    let (ch, rest2) = segment_of(&rest);
    let (v, _) = segment_of(&rest2);
    let bn = match parse_u8(&b) {
        Ok(n) => n,
        Err(_) => {
            return None;
        },
    };
    let cn = match parse_u16(&ch) {
        Ok(n) => n,
        Err(_) => {
            return None;
        },
    };
    let vn = match parse_u16(&v) {
        Ok(n) => n,
        Err(_) => {
            return None;
        },
    };
    if bn < 1 || bn > 66 {
        return None;
    }
    Some(Location { book: Book::from_u8(bn), chapter: cn, verse: vn })
}

/// One verse's text, with its place.
#[derive(Clone, Debug)]
pub struct Text {
    pub book: Book,
    pub chapter: u16,
    pub verse: u16,
    pub content: String,
}

/// A book and a chapter in it.
#[derive(Clone, Copy, Debug, PartialEq, Eq, Structural)]
pub struct Chapter {
    pub book: Book,
    pub chapter: u16,
}

/// Canonical order of places: book, then chapter, then verse.
pub open spec fn text_le(a: Text, b: Text) -> bool {
    a.book.ordinal() < b.book.ordinal() || (a.book.ordinal() == b.book.ordinal() && (a.chapter
        < b.chapter || (a.chapter == b.chapter && a.verse <= b.verse)))
}

pub open spec fn sorted_texts(s: Seq<Text>) -> bool {
    forall|i: int, j: int| 0 <= i < j < s.len() ==> text_le(s[i], s[j])
}

/// Whether `t` is kept for a query that names `verse`, if any.
pub open spec fn kept(t: Text, verse: Option<Verse>) -> bool {
    match verse {
        Some(v) => v.spec_contains(t.verse),
        None => true,
    }
}

/// The texts of `s` that a query naming `verse` keeps.
pub open spec fn kept_texts(s: Seq<Text>, verse: Option<Verse>) -> Multiset<Text>
    decreases s.len(),
{
    if s.len() == 0 {
        Multiset::empty()
    } else if kept(s.last(), verse) {
        kept_texts(s.drop_last(), verse).insert(s.last())
    } else {
        kept_texts(s.drop_last(), verse)
    }
}

impl Text {
    /// The text at the verse that `path` names.
    pub fn from_parts(path: &str, content: String) -> (r: Option<Text>)
        ensures
            match path_fields(path@) {
                Some(f) => r is Some && r->0.book.ordinal() == f.0 && r->0.chapter == f.1
                    && r->0.verse == f.2 && r->0.content == content,
                None => r is None,
            },
    {
        match decode_path(path) {
            Some(l) => Some(Text { book: l.book, chapter: l.chapter, verse: l.verse, content }),
            None => None,
        }
    }

    /// A copy of this text.
    pub fn duplicate(&self) -> (r: Text)
        ensures
            r == *self,
    {
        Text {
            book: self.book,
            chapter: self.chapter,
            verse: self.verse,
            content: self.content.clone(),
        }
    }

    /// The book and chapter of this text.
    pub fn chapter(&self) -> (r: Chapter)
        ensures
            r.book == self.book && r.chapter == self.chapter,
    {
        Chapter { book: self.book, chapter: self.chapter }
    }

    /// Whether this text comes before `other`, or at the same place, in canonical order.
    pub fn le(&self, other: &Text) -> (r: bool)
        ensures
            r == text_le(*self, *other),
    {
        let a = self.book.to_u8();
        let b = other.book.to_u8();
        a < b || (a == b && (self.chapter < other.chapter || (self.chapter == other.chapter
            && self.verse <= other.verse)))
    }
}

/// Keeps the texts in `verse`, where a verse or span is given, and puts them
/// in canonical order, texts at the same place in the order they came.
pub fn select_texts(texts: Vec<Text>, verse: Option<Verse>) -> (r: Vec<Text>)
    ensures
        sorted_texts(r@),
        r@.to_multiset() == kept_texts(texts@, verse),
{
    let mut out: Vec<Text> = Vec::new();
    let mut i: usize = 0;
    proof {
        broadcast use vstd::seq_lib::group_to_multiset_ensures;
        assert(out@.to_multiset() =~= kept_texts(texts@.take(0), verse));
    }
    while i < texts.len()
        invariant
            i <= texts@.len(),
            sorted_texts(out@),
            out@.to_multiset() == kept_texts(texts@.take(i as int), verse),
        decreases texts@.len() - i,
    {
        let t = texts[i].duplicate();
        let keep = match verse {
            Some(v) => v.contains(t.verse),
            None => true,
        };
        proof {
            assert(texts@.take(i + 1).drop_last() =~= texts@.take(i as int));
            assert(texts@.take(i + 1).last() == texts@[i as int]);
        }
        if keep {
            let mut pos: usize = 0;
            while pos < out.len() && out[pos].le(&t)
                invariant
                    pos <= out@.len(),
                    forall|k: int| 0 <= k < pos ==> text_le(#[trigger] out@[k], t),
                decreases out@.len() - pos,
            {
                pos = pos + 1;
            }
            let ghost o = out@;
            out.insert(pos, t);
            proof {
                to_multiset_insert(o, pos as int, t);
                assert forall|a: int, b: int| 0 <= a < b < out@.len() implies text_le(
                    out@[a],
                    out@[b],
                ) by {
                    if pos < o.len() {
                        assert(!text_le(o[pos as int], t));
                    }
                    if a < pos && b > pos {
                        assert(out@[a] == o[a]);
                        assert(out@[b] == o[b - 1]);
                    } else if a == pos && b > pos {
                        assert(out@[b] == o[b - 1]);
                        if b - 1 > pos {
                            assert(text_le(o[pos as int], o[b - 1]));
                        }
                    } else if a < pos && b == pos {
                        assert(out@[a] == o[a]);
                    } else if a > pos {
                        assert(out@[a] == o[a - 1]);
                        assert(out@[b] == o[b - 1]);
                    } else {
                        assert(out@[a] == o[a]);
                        assert(out@[b] == o[b]);
                    }
                }
            }
        }
        i = i + 1;
    }
    assert(texts@.take(texts@.len() as int) =~= texts@);
    out
}

} // verus!

verus! {

proof fn lemma_decimal_digits(n: nat)
    ensures
        decimal(n).len() > 0,
        all_digits(decimal(n)),
        digits_value(decimal(n)) == n,
    decreases n,
{
    let s = decimal(n);
    if n < 10 {
        assert(s.drop_last() =~= Seq::<char>::empty());
        assert(digits_value(s.drop_last()) == 0);
        assert((s.last() as u32) - ('0' as u32) == n);
    } else {
        lemma_decimal_digits(n / 10);
        assert(s.drop_last() =~= decimal(n / 10));
        assert(s.last() == digit_char(n % 10));
        assert((s.last() as u32) - ('0' as u32) == n % 10);
        assert(n == (n / 10) * 10 + n % 10) by (nonlinear_arith);
        assert forall|i: int| 0 <= i < s.len() implies is_digit(#[trigger] s[i]) by {
            if i < s.len() - 1 {
                assert(s[i] == decimal(n / 10)[i]);
            }
        }
    }
}

proof fn lemma_find_after(a: Seq<char>, b: Seq<char>, i: int)
    requires
        0 <= i <= a.len(),
        all_digits(a),
    ensures
        find_from(a + seq!['/'] + b, '/', i) == Some(a.len() as int),
    decreases a.len() - i,
{
    let s = a + seq!['/'] + b;
    if i < a.len() {
        assert(s[i] == a[i]);
        assert(is_digit(a[i]));
        lemma_find_after(a, b, i + 1);
    } else {
        assert(s[i] == '/');
    }
}

proof fn lemma_find_none(a: Seq<char>, i: int)
    requires
        0 <= i <= a.len(),
        all_digits(a),
    ensures
        find_from(a, '/', i) is None,
    decreases a.len() - i,
{
    if i < a.len() {
        assert(is_digit(a[i]));
        lemma_find_none(a, i + 1);
    }
}

/// Splitting `a/b` at its first slash, where `a` is all digits, gives `a` and `b`.
proof fn lemma_segment(a: Seq<char>, b: Seq<char>)
    requires
        all_digits(a),
    ensures
        segment(a + seq!['/'] + b) == (a, b),
{
    let s = a + seq!['/'] + b;
    lemma_find_after(a, b, 0);
    assert(s.take(a.len() as int) =~= a);
    assert(s.skip(a.len() as int + 1) =~= b);
}

proof fn lemma_parse_decimal(n: nat, max: nat)
    requires
        n <= max,
    ensures
        parse_uint(decimal(n), max) == Ok::<nat, IntError>(n),
{
    lemma_decimal_digits(n);
    assert(is_digit(decimal(n)[0]));
    assert(unsigned_digits(decimal(n)) == decimal(n));
}

/// Decoding the path of a verse gives that verse back.
pub proof fn law_location_path_round_trip(l: Location)
    ensures
        path_fields(location_path(l)) == Some((l.book.ordinal(), l.chapter, l.verse)),
{
    let b = decimal(l.book.ordinal() as nat);
    let c = decimal(l.chapter as nat);
    let v = decimal(l.verse as nat);
    lemma_decimal_digits(l.book.ordinal() as nat);
    lemma_decimal_digits(l.chapter as nat);
    lemma_decimal_digits(l.verse as nat);
    let p = location_path(l);
    let s = b + seq!['/'] + c + seq!['/'] + v;
    assert(p.drop_first() =~= s);
    assert(is_digit(s[0]));
    assert(strip_slashes(p) == strip_slashes(s));
    assert(strip_slashes(s) == s);
    assert(s =~= b + seq!['/'] + (c + seq!['/'] + v));
    lemma_segment(b, c + seq!['/'] + v);
    lemma_segment(c, v);
    lemma_find_none(v, 0);
    lemma_parse_decimal(l.book.ordinal() as nat, 0xff);
    lemma_parse_decimal(l.chapter as nat, 0xffff);
    lemma_parse_decimal(l.verse as nat, 0xffff);
}

} // verus!
