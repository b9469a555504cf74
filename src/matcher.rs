//! Approximate matching: fixed-width, word-aligned windows scored by the
//! number of differing bytes.

use vstd::prelude::*;
use regex::Regex;
use vstd::string::StringSliceAdditionalSpecFns;
use vstd::utf8::{encode_utf8, is_char_boundary};

verus! {

#[verifier::external_type_specification]
#[verifier::external_body]
pub struct ExRegex(Regex);

/// Relies on regex::Regex::new: compiles `pattern`, `None` where it is not a
/// valid expression.
#[verifier::external_body]
fn regex_new(pattern: &str) -> (r: Option<Regex>) {
    Regex::new(pattern).ok()
}

/// Finds where words begin in a text: at its start, and after each boundary
/// between a non-word and a word character.
pub struct SplitWindows {
    expr: Regex,
}

/// ASCII upper case of one byte.
pub open spec fn upper_byte(b: u8) -> u8 {
    if 97 <= b <= 122 {
        (b - 32) as u8
    } else {
        b
    }
}

/// The number of positions below `n` at which `a` and `b` differ.
pub open spec fn mismatches(a: Seq<u8>, b: Seq<u8>, n: int) -> nat
    decreases n,
{
    if n <= 0 {
        0
    } else {
        mismatches(a, b, n - 1) + if a[n - 1] != b[n - 1] {
            1nat
        } else {
            0nat
        }
    }
}

/// The Hamming distance of `a` and `b` over the shorter one's length.
pub open spec fn hamming(a: Seq<u8>, b: Seq<u8>) -> nat {
    mismatches(a, b, if a.len() <= b.len() { a.len() as int } else { b.len() as int })
}

/// Whether the window of `text` at `p`, as long as `query`, fits and begins
/// with the query's first byte.
pub open spec fn window_fits(query: Seq<u8>, text: Seq<u8>, p: int) -> bool {
    0 < query.len() && 0 <= p && p + query.len() <= text.len() && text[p] == query[0]
}

/// The window of `text` at `p`, as long as `query`.
pub open spec fn window(query: Seq<u8>, text: Seq<u8>, p: int) -> Seq<u8> {
    text.subrange(p, p + query.len())
}

pub open spec fn min_opt(a: Option<nat>, b: nat) -> Option<nat> {
    match a {
        Some(x) => if x <= b { Some(x) } else { Some(b) },
        None => Some(b),
    }
}

/// The least distance of `query` to the windows at the first `k` of `starts`
/// that fit, `None` where none does.
pub open spec fn best_distance(query: Seq<u8>, text: Seq<u8>, starts: Seq<usize>, k: int) -> Option<
    nat,
>
    decreases k,
{
    if k <= 0 {
        None
    } else if window_fits(query, text, starts[k - 1] as int) {
        min_opt(
            best_distance(query, text, starts, k - 1),
            hamming(query, window(query, text, starts[k - 1] as int)),
        )
    } else {
        best_distance(query, text, starts, k - 1)
    }
}

proof fn lemma_mismatches_bound(a: Seq<u8>, b: Seq<u8>, n: int)
    requires
        n >= 0,
    ensures
        mismatches(a, b, n) <= n,
    decreases n,
{
    if n > 0 {
        lemma_mismatches_bound(a, b, n - 1);
    }
}

/// The number of positions at which `a` and `b` differ, over the shorter length.
pub fn get_distance(a: &[u8], b: &[u8]) -> (r: usize)
    ensures
        r == hamming(a@, b@),
{
    let n: usize = if a.len() <= b.len() { a.len() } else { b.len() };
    let mut count: usize = 0;
    let mut i: usize = 0;
    while i < n
        invariant
            i <= n,
            n <= a@.len(),
            n <= b@.len(),
            n == if a@.len() <= b@.len() { a@.len() } else { b@.len() },
            count == mismatches(a@, b@, i as int),
            count <= i,
        decreases n - i,
    {
        if a[i] != b[i] {
            count = count + 1;
        }
        i = i + 1;
    }
    count
}

/// The least Hamming distance of `query` to a window of `text` as long as it,
/// taken at one of `starts` and beginning with the query's first byte; `None`
/// where there is no such window.
pub fn edit_distance(query: &[u8], text: &[u8], starts: &[usize]) -> (r: Option<usize>)
    ensures
        match best_distance(query@, text@, starts@, starts@.len() as int) {
            Some(d) => r == Some(d as usize) && d <= query@.len(),
            None => r is None,
        },
        match r {
            Some(x) => best_distance(query@, text@, starts@, starts@.len() as int) == Some(x as nat),
            None => best_distance(query@, text@, starts@, starts@.len() as int) is None,
        },
{
    let mut best: Option<usize> = None;
    let mut k: usize = 0;
    while k < starts.len()
        invariant
            k <= starts@.len(),
            match best_distance(query@, text@, starts@, k as int) {
                Some(d) => best == Some(d as usize) && d <= query@.len() && d <= usize::MAX,
                None => best is None,
            },
        decreases starts@.len() - k,
    {
        let p = starts[k];
        if query.len() > 0 && p <= text.len() && query.len() <= text.len() - p && text[p]
            == query[0] {
            let w = slice_bytes(text, p, p + query.len());
            let d = get_distance(query, &w);
            proof {
                assert(w@ == window(query@, text@, p as int));
                lemma_mismatches_bound(query@, w@, query@.len() as int);
            }
            best = match best {
                Some(x) => if x <= d { Some(x) } else { Some(d) },
                None => Some(d),
            };
        }
        k = k + 1;
    }
    best
}

/// The bytes of `s` from `a` up to `b`.
fn slice_bytes(s: &[u8], a: usize, b: usize) -> (r: Vec<u8>)
    requires
        a <= b <= s@.len(),
    ensures
        r@ == s@.subrange(a as int, b as int),
{
    let mut r: Vec<u8> = Vec::new();
    let mut i: usize = a;
    while i < b
        invariant
            a <= i <= b,
            b <= s@.len(),
            r@ == s@.subrange(a as int, i as int),
        decreases b - i,
    {
        r.push(s[i]);
        i = i + 1;
        assert(r@ =~= s@.subrange(a as int, i as int));
    }
    r
}

pub open spec fn upper_bytes(s: Seq<u8>) -> Seq<u8> {
    Seq::new(s.len(), |i: int| upper_byte(s[i]))
}

/// `s` with ASCII lower-case letters made upper-case.
pub fn to_upper_bytes(s: &[u8]) -> (r: Vec<u8>)
    ensures
        r@ == upper_bytes(s@),
{
    let mut r: Vec<u8> = Vec::new();
    let mut i: usize = 0;
    while i < s.len()
        invariant
            i <= s@.len(),
            r@ == upper_bytes(s@.take(i as int)),
        decreases s@.len() - i,
    {
        let b = s[i];
        let u = if 97 <= b && b <= 122 { b - 32 } else { b };
        r.push(u);
        i = i + 1;
        assert(r@ =~= upper_bytes(s@.take(i as int)));
    }
    assert(s@.take(s@.len() as int) =~= s@);
    r
}

} // verus!

verus! {

/// Whether ranked entry `a` (distance, line) comes before `b`.
pub open spec fn ranks_before(a: (usize, usize), b: (usize, usize)) -> bool {
    a.0 < b.0 || (a.0 == b.0 && a.1 < b.1)
}

/// Whether `out` is `cands` ranked by distance, ties in line order, cut to
/// `limit` entries.
pub open spec fn is_ranking(cands: Seq<(usize, usize)>, out: Seq<(usize, usize)>, limit: nat) -> bool {
    &&& out.len() <= limit
    &&& forall|i: int, j: int| 0 <= i < j < out.len() ==> ranks_before(out[i], out[j])
    &&& forall|i: int| 0 <= i < out.len() ==> cands.contains(#[trigger] out[i])
    &&& forall|c: (usize, usize)|
        #![trigger cands.contains(c)]
        cands.contains(c) && !out.contains(c) ==> out.len() == limit && forall|i: int|
            0 <= i < out.len() ==> ranks_before(#[trigger] out[i], c)
}

/// Ranks candidates (distance, line) by distance, ties in line order, and
/// keeps the first `limit`.
pub fn rank(cands: &[(usize, usize)], limit: usize) -> (r: Vec<(usize, usize)>)
    ensures
        is_ranking(cands@, r@, limit as nat),
{
    let mut out: Vec<(usize, usize)> = Vec::new();
    while out.len() < limit
        invariant
            out@.len() <= limit,
            forall|i: int, j: int| 0 <= i < j < out@.len() ==> ranks_before(out@[i], out@[j]),
            forall|i: int| 0 <= i < out@.len() ==> cands@.contains(#[trigger] out@[i]),
            out@.len() > 0 ==> forall|c: (usize, usize)|
                #![trigger cands@.contains(c)]
                cands@.contains(c) && !ranks_before(out@.last(), c) ==> out@.contains(c),
        decreases limit - out@.len(),
    {
        let mut best: Option<usize> = None;
        let mut j: usize = 0;
        while j < cands.len()
            invariant
                j <= cands@.len(),
                out@.len() <= limit,
                match best {
                    Some(b) => b < j && (out@.len() == 0 || ranks_before(out@.last(), cands@[b as int]))
                        && forall|k: int|
                        0 <= k < j && (out@.len() == 0 || ranks_before(out@.last(), #[trigger] cands@[k]))
                            ==> !ranks_before(cands@[k], cands@[b as int]),
                    None => forall|k: int|
                        0 <= k < j ==> !(out@.len() == 0 || ranks_before(out@.last(), #[trigger] cands@[k])),
                },
            decreases cands@.len() - j,
        {
            let c = cands[j];
            let after = out.len() == 0 || {
                let last = out[out.len() - 1];
                last.0 < c.0 || (last.0 == c.0 && last.1 < c.1)
            };
            if after {
                match best {
                    Some(b) => {
                        let cb = cands[b];
                        if c.0 < cb.0 || (c.0 == cb.0 && c.1 < cb.1) {
                            best = Some(j);
                        }
                    },
                    None => {
                        best = Some(j);
                    },
                }
            }
            j = j + 1;
        }
        match best {
            Some(b) => {
                let ghost old_out = out@;
                let c = cands[b];
                out.push(c);
                proof {
                    assert(cands@.contains(c));
                    assert forall|i: int, j: int| 0 <= i < j < out@.len() implies ranks_before(
                        out@[i],
                        out@[j],
                    ) by {
                        if j == old_out.len() && i < old_out.len() - 1 {
                            assert(ranks_before(old_out[i], old_out.last()));
                        }
                    }
                    assert forall|c2: (usize, usize)|
                        #![trigger cands@.contains(c2)]
                        cands@.contains(c2) && !ranks_before(out@.last(), c2) implies out@.contains(c2) by {
                        let k = choose|k: int| 0 <= k < cands@.len() && cands@[k] == c2;
                        if old_out.len() > 0 && !ranks_before(old_out.last(), c2) {
                            assert(old_out.contains(c2));
                            let i = choose|i: int| 0 <= i < old_out.len() && old_out[i] == c2;
                            assert(out@[i] == c2);
                        } else {
                            assert(out@[old_out.len() as int] == c);
                        }
                    }
                }
            },
            None => {
                proof {
                    assert forall|c2: (usize, usize)|
                        #![trigger cands@.contains(c2)]
                        cands@.contains(c2) && !out@.contains(c2) implies out@.len() == limit && forall|i: int|
                            0 <= i < out@.len() ==> ranks_before(#[trigger] out@[i], c2) by {
                        let k = choose|k: int| 0 <= k < cands@.len() && cands@[k] == c2;
                        assert(out@.len() > 0);
                    }
                }
                return out;
            },
        }
    }
    proof {
        assert forall|c2: (usize, usize)|
            #![trigger cands@.contains(c2)]
            cands@.contains(c2) && !out@.contains(c2) implies out@.len() == limit && forall|i: int|
                0 <= i < out@.len() ==> ranks_before(#[trigger] out@[i], c2) by {
            if out@.len() > 0 {
                assert forall|i: int| 0 <= i < out@.len() implies ranks_before(#[trigger] out@[i], c2) by {
                    if i < out@.len() - 1 {
                        assert(ranks_before(out@[i], out@.last()));
                    }
                }
            }
        }
    }
    out
}

} // verus!

verus! {

/// The byte offsets in `text` at which the matches of `(^\w|\b\w)` begin,
/// in order: where words begin.
pub uninterp spec fn word_starts(text: Seq<u8>) -> Seq<usize>;

/// Relies on regex::Regex::find_iter and regex::Match::start: the byte offsets
/// in `text` at which successive matches of `w`'s expression begin. That
/// expression is `(^\w|\b\w)`, the one that `SplitWindows::new` compiles
/// into the private field.
#[verifier::external_body]
fn find_word_starts(w: &SplitWindows, text: &str) -> (r: Vec<usize>)
    ensures
        r@ == word_starts(text.spec_bytes()),
        forall|i: int| 0 <= i < r@.len() ==> #[trigger] r@[i] <= text.spec_bytes().len(),
{
    w.expr.find_iter(text).map(|m| m.start()).collect()
}

/// The distance of upper-cased `query` to the upper-cased `text`, over the
/// windows at the text's word starts.
pub open spec fn text_distance(query: Seq<u8>, text: Seq<u8>) -> Option<nat> {
    best_distance(upper_bytes(query), upper_bytes(text), word_starts(text), word_starts(text).len() as int)
}

/// The distance of upper-cased `query` to corpus line `line`: to what follows
/// its eight-digit header and separator. `None` for a line without such a text.
pub open spec fn line_distance(query: Seq<u8>, line: Seq<u8>) -> Option<nat> {
    if line.len() >= 9 && is_char_boundary(line, 9) {
        text_distance(query, line.subrange(9, line.len() as int))
    } else {
        None
    }
}

/// The candidates among the first `k` lines: (distance, line number) for each
/// line with a distance, in line order.
pub open spec fn candidates(query: Seq<u8>, lines: Seq<String>, k: int) -> Seq<(usize, usize)>
    decreases k,
{
    if k <= 0 {
        seq![]
    } else {
        let prev = candidates(query, lines, k - 1);
        match line_distance(query, encode_utf8(lines[k - 1]@)) {
            Some(d) => prev.push((d as usize, (k - 1) as usize)),
            None => prev,
        }
    }
}

impl SplitWindows {
    /// The word-start finder; `None` only if the expression would not compile.
    pub fn new() -> (r: Option<SplitWindows>) {
        match regex_new("(^\\w|\\b\\w)") {
            Some(expr) => Some(SplitWindows { expr }),
            None => None,
        }
    }

    /// The byte offsets in `text` at which words begin.
    pub fn starts(&self, text: &str) -> (r: Vec<usize>)
        ensures
            r@ == word_starts(text.spec_bytes()),
    {
        find_word_starts(self, text)
    }

    /// The windows of `len` bytes of `text` that begin where a word begins and
    /// fit in it, in order.
    pub fn windows(&self, text: &str, len: usize) -> (r: Vec<Vec<u8>>)
        ensures
            r@.map_values(|w: Vec<u8>| w@) =~= windows_at(
                text.spec_bytes(),
                word_starts(text.spec_bytes()),
                len as int,
                word_starts(text.spec_bytes()).len() as int,
            ),
    {
        let starts = self.starts(text);
        windows_of(text.as_bytes(), &starts, len)
    }

    /// The least distance of `query` to a word-start window of `text`, both
    /// upper-cased; `None` where no window fits and begins with the query's
    /// first byte.
    pub fn distance(&self, query: &str, text: &str) -> (r: Option<usize>)
        ensures
            match text_distance(query.spec_bytes(), text.spec_bytes()) {
                Some(d) => r == Some(d as usize),
                None => r is None,
            },
    {
        let starts = self.starts(text);
        let q = to_upper_bytes(query.as_bytes());
        let t = to_upper_bytes(text.as_bytes());
        edit_distance(&q, &t, &starts)
    }

    /// Ranks corpus lines by their distance to `query`, least first, ties in
    /// line order, and keeps `limit` of them: pairs of distance and line
    /// number. A line without text after its header is never a candidate.
    pub fn search(&self, query: &str, lines: &[String], limit: usize) -> (r: Vec<(usize, usize)>)
        ensures
            is_ranking(candidates(query.spec_bytes(), lines@, lines@.len() as int), r@, limit as nat),
    {
        let q = to_upper_bytes(query.as_bytes());
        let mut cands: Vec<(usize, usize)> = Vec::new();
        let mut idx: usize = 0;
        while idx < lines.len()
            invariant
                idx <= lines@.len(),
                q@ == upper_bytes(query.spec_bytes()),
                cands@ == candidates(query.spec_bytes(), lines@, idx as int),
            decreases lines@.len() - idx,
        {
            let line = lines[idx].as_str();
            assert(line.spec_bytes() == encode_utf8(lines@[idx as int]@));
            if line.as_bytes().len() >= 9 && line.is_char_boundary(9) {
                let (_, text) = line.split_at(9);
                let starts = self.starts(text);
                let t = to_upper_bytes(text.as_bytes());
                assert(text.spec_bytes() =~= line.spec_bytes().subrange(9, line.spec_bytes().len() as int));
                let ghost lb = encode_utf8(lines@[idx as int]@);
                assert(line_distance(query.spec_bytes(), lb) == best_distance(
                    q@,
                    t@,
                    starts@,
                    starts@.len() as int,
                ));
                match edit_distance(&q, &t, &starts) {
                    Some(d) => {
                        cands.push((d, idx));
                    },
                    None => {},
                }
            } else {
                assert(line_distance(query.spec_bytes(), encode_utf8(lines@[idx as int]@)) is None);
            }
            idx = idx + 1;
        }
        rank(&cands, limit)
    }
}

pub open spec fn windows_at(text: Seq<u8>, starts: Seq<usize>, len: int, k: int) -> Seq<Seq<u8>>
    decreases k,
{
    if k <= 0 {
        seq![]
    } else if starts[k - 1] + len <= text.len() {
        windows_at(text, starts, len, k - 1).push(
            text.subrange(starts[k - 1] as int, starts[k - 1] + len),
        )
    } else {
        windows_at(text, starts, len, k - 1)
    }
}

/// The windows of `len` bytes of `text` at `starts`, those that fit.
pub fn windows_of(text: &[u8], starts: &[usize], len: usize) -> (r: Vec<Vec<u8>>)
    ensures
        r@.map_values(|w: Vec<u8>| w@) =~= windows_at(text@, starts@, len as int, starts@.len() as int),
{
    let mut r: Vec<Vec<u8>> = Vec::new();
    let mut k: usize = 0;
    while k < starts.len()
        invariant
            k <= starts@.len(),
            r@.map_values(|w: Vec<u8>| w@) =~= windows_at(text@, starts@, len as int, k as int),
        decreases starts@.len() - k,
    {
        let p = starts[k];
        if p <= text.len() && len <= text.len() - p {
            let w = slice_bytes(text, p, p + len);
            r.push(w);
            assert(r@.map_values(|w: Vec<u8>| w@) =~= windows_at(text@, starts@, len as int, k + 1));
        }
        k = k + 1;
    }
    r
}

/// A best window always begins with the query's first byte, and a window that
/// equals the query gives distance zero.
pub proof fn law_best_window(query: Seq<u8>, text: Seq<u8>, starts: Seq<usize>, k: int)
    requires
        0 <= k <= starts.len(),
    ensures
        best_distance(query, text, starts, k) matches Some(d) ==> exists|i: int|
            0 <= i < k && window_fits(query, text, #[trigger] starts[i] as int) && text[starts[i]
                as int] == query[0] && hamming(query, window(query, text, starts[i] as int)) == d,
        (exists|i: int|
            0 <= i < k && window_fits(query, text, #[trigger] starts[i] as int) && window(
                query,
                text,
                starts[i] as int,
            ) == query) ==> best_distance(query, text, starts, k) == Some(0nat),
    decreases k,
{
    if k > 0 {
        law_best_window(query, text, starts, k - 1);
        let p = starts[k - 1] as int;
        if window_fits(query, text, p) {
            if window(query, text, p) == query {
                lemma_mismatches_self(query, query.len() as int);
            }
        }
        if exists|i: int|
            0 <= i < k && window_fits(query, text, #[trigger] starts[i] as int) && window(
                query,
                text,
                starts[i] as int,
            ) == query {
            let i = choose|i: int|
                0 <= i < k && window_fits(query, text, #[trigger] starts[i] as int) && window(
                    query,
                    text,
                    starts[i] as int,
                ) == query;
            if i < k - 1 {
                assert(best_distance(query, text, starts, k - 1) == Some(0nat));
            } else {
                lemma_mismatches_self(query, query.len() as int);
            }
        }
    }
}

proof fn lemma_mismatches_self(a: Seq<u8>, n: int)
    requires
        0 <= n <= a.len(),
    ensures
        mismatches(a, a, n) == 0,
    decreases n,
{
    if n > 0 {
        lemma_mismatches_self(a, n - 1);
    }
}

} // verus!
