use servermark::text::{
    decimal_string, parse_number_of, replace, split, split_lines,
    split_words, strip_end_of, strip_of, strip_prefixes, strip_start_of, strip_suffixes, trim,
    whitespace, CharSet,
};

fn texts_over(alphabet: &[char], longest: usize) -> Vec<String> {
    let mut all = vec![String::new()];
    let mut last = vec![String::new()];
    for _ in 0..longest {
        let mut next = Vec::new();
        for text in &last {
            for c in alphabet {
                let mut longer = text.clone();
                longer.push(*c);
                next.push(longer);
            }
        }
        all.extend(next.iter().cloned());
        last = next;
    }
    all
}

#[test]
fn white_space_is_what_the_standard_library_says() {
    for code in 0..=0x10ffffu32 {
        if let Some(c) = char::from_u32(code) {
            assert_eq!(whitespace(c), c.is_whitespace(), "U+{:04X}", code);
        }
    }
}

#[test]
fn numbers_parse_as_the_standard_library_parses_them() {
    for text in texts_over(&['+', '-', '0', '1', '6', '9', ' ', 'a'], 4) {
        assert_eq!(parse_number_of(&text, 65535), text.parse::<u16>().ok().map(|n| n as u32), "{:?}", text);
        assert_eq!(parse_number_of(&text, 4294967295), text.parse::<u32>().ok(), "{:?}", text);
        assert_eq!(parse_number_of(&text, 255), text.parse::<u8>().ok().map(|n| n as u32), "{:?}", text);
    }
    for text in ["65535", "65536", "065535", "+65535", "4294967295", "4294967296", "42949672950", "00000000000000000001"] {
        assert_eq!(parse_number_of(text, 65535), text.parse::<u16>().ok().map(|n| n as u32), "{:?}", text);
        assert_eq!(parse_number_of(text, 4294967295), text.parse::<u32>().ok(), "{:?}", text);
    }
}

#[test]
fn numbers_print_as_the_standard_library_prints_them() {
    for n in (0..100000u64).chain([u64::MAX, u64::MAX - 1, 1 << 32, 999999999999]) {
        assert_eq!(decimal_string(n), n.to_string());
    }
}

#[test]
fn texts_split_as_the_standard_library_splits_them() {
    for text in texts_over(&['a', '\n', '\r', ' ', ','], 5) {
        let lines: Vec<String> = text.lines().map(|l| l.to_string()).collect();
        assert_eq!(split_lines(&text), lines, "lines of {:?}", text);
        let pieces: Vec<String> = text.split(',').map(|l| l.to_string()).collect();
        assert_eq!(split(&text, ','), pieces, "pieces of {:?}", text);
        let words: Vec<String> = text.split_whitespace().map(|l| l.to_string()).collect();
        assert_eq!(split_words(&text), words, "words of {:?}", text);
        assert_eq!(trim(&text), text.trim(), "trim of {:?}", text);
        assert_eq!(strip_end_of(&text, CharSet::Whitespace), text.trim_end(), "end of {:?}", text);
        assert_eq!(strip_start_of(&text, CharSet::Whitespace), text.trim_start(), "start of {:?}", text);
        assert_eq!(strip_of(&text, CharSet::Only('a')), text.trim_matches('a'), "strip of {:?}", text);
        assert_eq!(strip_end_of(&text, CharSet::Only(',')), text.trim_end_matches(','), "strip of {:?}", text);
    }
}

#[test]
fn texts_are_replaced_as_the_standard_library_replaces_them() {
    let patterns = ["a", "ab", "aa", "aba", "b"];
    for text in texts_over(&['a', 'b', 'c'], 6) {
        for pattern in patterns {
            assert_eq!(replace(&text, pattern, "-"), text.replace(pattern, "-"), "{:?} {:?}", text, pattern);
            assert_eq!(replace(&text, pattern, ""), text.replace(pattern, ""), "{:?} {:?}", text, pattern);
            assert_eq!(strip_prefixes(&text, pattern), text.trim_start_matches(pattern), "{:?} {:?}", text, pattern);
            assert_eq!(strip_suffixes(&text, pattern), text.trim_end_matches(pattern), "{:?} {:?}", text, pattern);
        }
    }
}
