use bible::matcher::{edit_distance, get_distance, rank, SplitWindows};

static TEXT: &str = "HOW NOW BROWN COW";

#[test]
fn windows() {
    let splitter = SplitWindows::new().unwrap();
    let windows: Vec<String> = splitter
        .windows(TEXT, 3)
        .into_iter()
        .map(|w| String::from_utf8(w).unwrap())
        .collect();
    assert_eq!(&["HOW", "NOW", "BRO", "COW",], &*windows)
}

#[test]
fn word_starts() {
    let splitter = SplitWindows::new().unwrap();
    assert_eq!(splitter.starts(TEXT), vec![0, 4, 8, 14]);
    assert_eq!(splitter.starts("  (in) the-end"), vec![3, 7, 11]);
}

#[test]
fn hamming_distance() {
    assert_eq!(get_distance(b"KAROLIN", b"KATHRIN"), 3);
    assert_eq!(get_distance(b"ABC", b"ABC"), 0);
    assert_eq!(get_distance(b"ABC", b"AB"), 0);
    assert_eq!(get_distance(b"", b"XYZ"), 0);
}

#[test]
fn distance_over_given_starts() {
    assert_eq!(edit_distance(b"NOW", b"HOW NOW", &[0, 4]), Some(0));
    assert_eq!(edit_distance(b"NEW", b"HOW NOW", &[0, 4]), Some(1));
    assert_eq!(edit_distance(b"BOW", b"HOW NOW", &[0, 4]), None);
    assert_eq!(edit_distance(b"NOWS", b"HOW NOW", &[0, 4]), None);
    assert_eq!(edit_distance(b"", b"HOW NOW", &[0, 4]), None);
}

#[test]
fn distance_is_case_blind_and_word_aligned() {
    let splitter = SplitWindows::new().unwrap();
    assert_eq!(splitter.distance("lord", "The earth is the LORD's"), Some(0));
    assert_eq!(splitter.distance("eart", "The earth is the LORD's"), Some(0));
    assert_eq!(splitter.distance("arth", "The earth is the LORD's"), None);
    assert_eq!(splitter.distance("LARD", "The earth is the LORD's"), Some(1));
    assert_eq!(splitter.distance("a much longer query", "short"), None);
}

#[test]
fn ranking_is_stable_and_limited() {
    let ranked = rank(&[(2, 0), (1, 1), (2, 2), (0, 3)], 3);
    assert_eq!(ranked, vec![(0, 3), (1, 1), (2, 0)]);
    let ranked = rank(&[(1, 0), (1, 1)], 10);
    assert_eq!(ranked, vec![(1, 0), (1, 1)]);
    assert_eq!(rank(&[], 5), vec![]);
    assert_eq!(rank(&[(1, 0)], 0), vec![]);
}

#[test]
fn search_ranks_lines() {
    let splitter = SplitWindows::new().unwrap();
    let lines: Vec<String> = vec![
        "19023001 The earth is the LORD's".to_string(),
        "19023002 For he hath founded it".to_string(),
        "19023003 Who shall ascend into the hill of the LORD".to_string(),
        "short".to_string(),
    ];
    let found = splitter.search("lord", &lines, 10);
    assert_eq!(found, vec![(0, 0), (0, 2)]);
    let found = splitter.search("hath", &lines, 1);
    assert_eq!(found, vec![(0, 1)]);
    let found = splitter.search("hill", &lines, 10);
    assert_eq!(found[0], (0, 2));
    assert!(found.iter().all(|&(_, i)| i != 3));
}

#[test]
fn search_skips_lines_without_a_match() {
    let splitter = SplitWindows::new().unwrap();
    let lines: Vec<String> = vec![
        "01001001 In the beginning God created".to_string(),
        "01001002 And the earth was without form".to_string(),
    ];
    assert_eq!(splitter.search("zzz", &lines, 10), vec![]);
    assert_eq!(splitter.search("gad", &lines, 10), vec![(1, 0)]);
}
