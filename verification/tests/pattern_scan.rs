use schedule_hook::pattern::{Pattern, PatternError, Token};

#[test]
fn scan_finds_every_match_in_ascending_order() {
    let haystack = [0x11, 0x22, 0x33, 0x0, 0x0, 0x11, 0x22, 0x33, 0x11, 0x0, 0x33];
    let pattern = Pattern::new(vec![Token::Byte(0x11), Token::Any, Token::Byte(0x33)]);
    assert_eq!(pattern.scan(&haystack), vec![0, 5, 8]);
}

#[test]
fn scan_is_the_same_on_every_run() {
    let mut buffer = Vec::new();
    let mut state: u32 = 0x1234_5678;
    for _ in 0..4096 {
        state = state.wrapping_mul(1_664_525).wrapping_add(1_013_904_223);
        buffer.push((state >> 24) as u8 & 0x0f);
    }
    let pattern = Pattern::from_ida("03 ?? 0A ?? ?? 01").unwrap();
    let first = pattern.scan(&buffer);
    for _ in 0..10 {
        assert_eq!(pattern.scan(&buffer), first);
    }
    for pair in first.windows(2) {
        assert!(pair[0] < pair[1]);
    }
    for at in 0..buffer.len() {
        let is_match = at + 6 <= buffer.len()
            && buffer[at] == 0x03
            && buffer[at + 2] == 0x0a
            && buffer[at + 5] == 0x01;
        assert_eq!(first.contains(&at), is_match);
        assert_eq!(pattern.is_matching_at(&buffer, at), is_match);
    }
}

#[test]
fn scan_without_match_is_empty() {
    let pattern = Pattern::from_ida("AA ?? BB").unwrap();
    assert_eq!(pattern.scan(&[1, 2, 3, 4, 5]), Vec::<usize>::new());
    assert_eq!(pattern.find_first(&[1, 2, 3, 4, 5]), None);
}

#[test]
fn scan_of_an_image_shorter_than_the_pattern_is_empty() {
    let pattern = Pattern::from_ida("AA BB CC").unwrap();
    assert_eq!(pattern.scan(&[0xaa, 0xbb]), Vec::<usize>::new());
    assert_eq!(pattern.scan(&[]), Vec::<usize>::new());
    assert!(!pattern.is_matching_at(&[0xaa, 0xbb], 0));
    assert!(!pattern.is_matching_at(&[0xaa, 0xbb, 0xcc], usize::MAX));
}

#[test]
fn scan_reports_overlapping_matches() {
    let pattern = Pattern::from_ida("01 01").unwrap();
    assert_eq!(pattern.scan(&[1, 1, 1, 1]), vec![0, 1, 2]);
}

#[test]
fn scan_matches_at_the_very_end() {
    let pattern = Pattern::from_ida("?? FF").unwrap();
    assert_eq!(pattern.scan(&[0, 1, 2, 0xff]), vec![2]);
}

#[test]
fn a_pattern_of_wildcards_matches_wherever_it_fits() {
    let pattern = Pattern::new(vec![Token::Any, Token::Any]);
    assert_eq!(pattern.scan(&[9, 8, 7, 6]), vec![0, 1, 2]);
}

#[test]
fn find_from_walks_the_matches_one_by_one() {
    let haystack = [0x11, 0x22, 0x33, 0x0, 0x0, 0x11, 0x22, 0x33, 0x11, 0x0, 0x33];
    let pattern = Pattern::from_ida("11 ?? 33").unwrap();
    let mut seen = Vec::new();
    let mut start = 0;
    while let Some(at) = pattern.find_from(&haystack, start) {
        seen.push(at);
        start = at + 1;
    }
    assert_eq!(seen, pattern.scan(&haystack));
    assert_eq!(pattern.find_first(&haystack), Some(0));
    assert_eq!(pattern.find_from(&haystack, 1), Some(5));
    assert_eq!(pattern.find_from(&haystack, 9), None);
    assert_eq!(pattern.find_from(&haystack, 1000), None);
}

#[test]
fn from_ida_reads_bytes_and_wildcards() {
    let pattern = Pattern::from_ida("48 89 ?? 24 e8").unwrap();
    assert_eq!(pattern.size(), 5);
    assert_eq!(pattern.token(0), Some(Token::Byte(0x48)));
    assert_eq!(pattern.token(1), Some(Token::Byte(0x89)));
    assert_eq!(pattern.token(2), Some(Token::Any));
    assert_eq!(pattern.token(3), Some(Token::Byte(0x24)));
    assert_eq!(pattern.token(4), Some(Token::Byte(0xe8)));
    assert_eq!(pattern.token(5), None);
}

#[test]
fn from_ida_reads_every_hex_digit() {
    let pattern = Pattern::from_ida("01 23 45 67 89 ab cd ef AB CD EF 00 ff").unwrap();
    let expected = [
        0x01, 0x23, 0x45, 0x67, 0x89, 0xab, 0xcd, 0xef, 0xab, 0xcd, 0xef, 0x00, 0xff,
    ];
    assert_eq!(pattern.size(), expected.len());
    for (i, byte) in expected.iter().enumerate() {
        assert_eq!(pattern.token(i), Some(Token::Byte(*byte)));
    }
}

#[test]
fn from_ida_rejects_malformed_text() {
    assert_eq!(Pattern::from_ida("").unwrap_err(), PatternError::Empty);
    assert_eq!(Pattern::from_ida("4").unwrap_err(), PatternError::InvalidToken { index: 0 });
    assert_eq!(Pattern::from_ida(" 48").unwrap_err(), PatternError::InvalidToken { index: 0 });
    assert_eq!(Pattern::from_ida("48 8").unwrap_err(), PatternError::InvalidToken { index: 1 });
    assert_eq!(Pattern::from_ida("48 ").unwrap_err(), PatternError::InvalidToken { index: 1 });
    assert_eq!(Pattern::from_ida("48 ?9").unwrap_err(), PatternError::InvalidToken { index: 1 });
    assert_eq!(Pattern::from_ida("48 zz").unwrap_err(), PatternError::InvalidToken { index: 1 });
    assert_eq!(Pattern::from_ida("48 +1").unwrap_err(), PatternError::InvalidToken { index: 1 });
    assert_eq!(Pattern::from_ida("48  89").unwrap_err(), PatternError::InvalidToken { index: 1 });
    assert_eq!(Pattern::from_ida("4889").unwrap_err(), PatternError::MissingSeparator { index: 0 });
    assert_eq!(
        Pattern::from_ida("48 89-??").unwrap_err(),
        PatternError::MissingSeparator { index: 1 }
    );
    assert_eq!(
        Pattern::parse(&[0x34, 0x38, 0x20, 0xc3, 0xa9]).unwrap_err(),
        PatternError::InvalidToken { index: 1 }
    );
}

#[test]
fn token_matches_its_byte_or_any() {
    assert!(Token::Byte(7).matches(7));
    assert!(!Token::Byte(7).matches(8));
    assert!(Token::Any.matches(0));
    assert!(Token::Any.matches(255));
}
