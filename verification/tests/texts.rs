use stackymcstackface::text::{
    chars_of, contains, decimal_text, is_before, is_white_space, join, lines, lower_chars,
    matches_at, nth_word, parse_count, rsplit_once, same, same_ignoring_case, signed_decimal_text,
    split_once, starts_with, strip_suffix, trim, trim_end, trim_end_matches, trim_start, up_to, CountError,
};

const SAMPLES: [&str; 16] = [
    "",
    " ",
    "a",
    " a ",
    "\t\n a b \r\n",
    "a\nb\r\nc\n",
    "\n",
    "\r\n\r\n",
    "a\rb",
    "\u{a0}x\u{3000}",
    "\u{200b}x\u{200b}",
    "one  two\tthree",
    "Straße ÄÖ",
    "\u{1680}\u{2028}\u{2029}\u{202f}\u{205f}z\u{85}",
    "a\n\nb",
    "❤️ x",
];

#[test]
fn white_space_is_that_of_std() {
    for c in (0..=0x3100u32).filter_map(char::from_u32) {
        assert_eq!(is_white_space(c), c.is_whitespace(), "{:?}", c);
    }
    assert!(!is_white_space('\u{10ffff}'));
}

#[test]
fn trimming_is_that_of_std() {
    for s in SAMPLES {
        assert_eq!(trim(s), s.trim(), "{:?}", s);
        assert_eq!(trim_start(s), s.trim_start(), "{:?}", s);
        assert_eq!(trim_end(s), s.trim_end(), "{:?}", s);
    }
    for s in ["a.git", "a.git.git", ".git", "a", "", "a/.git/", "git.gitx"] {
        assert_eq!(trim_end_matches(s, ".git"), s.trim_end_matches(".git"));
        assert_eq!(trim_end_matches(s, "/"), s.trim_end_matches('/'));
        assert_eq!(strip_suffix(s, ".git"), s.strip_suffix(".git").unwrap_or(s));
        assert_eq!(strip_suffix(s, ""), s);
    }
}

#[test]
fn lines_are_those_of_std() {
    for s in SAMPLES {
        let expected: Vec<&str> = s.lines().collect();
        assert_eq!(lines(s), expected, "{:?}", s);
    }
}

#[test]
fn words_are_those_of_std() {
    for s in SAMPLES {
        for n in 0..4 {
            assert_eq!(nth_word(s, n), s.split_whitespace().nth(n), "{:?}", s);
        }
    }
}

#[test]
fn splitting_is_that_of_std() {
    for s in ["", "/", "a", "a/b", "a/b/c", "/b", "a/", "ä/ö"] {
        assert_eq!(split_once(s, '/'), s.split_once('/'));
        assert_eq!(rsplit_once(s, '/'), s.rsplit_once('/'));
        assert_eq!(up_to(s, '/'), s.split('/').next().unwrap());
    }
}

#[test]
fn searching_is_that_of_std() {
    for s in ["", "(push)", "pushpush", "pus", "(fetch)", "xpush"] {
        assert_eq!(contains(s, "push"), s.contains("push"));
        assert_eq!(starts_with(s, "push"), s.starts_with("push"));
        assert!(contains(s, ""));
        assert!(starts_with(s, ""));
    }
    assert!(matches_at(&chars_of("abcd"), 1, &chars_of("bc")));
    assert!(!matches_at(&chars_of("abcd"), 3, &chars_of("de")));
    assert!(matches_at(&chars_of("abcd"), 4, &chars_of("")));
}

#[test]
fn only_ascii_is_lowered() {
    let lowered: String = lower_chars("FoO/ÄÖ-Z[").into_iter().collect();
    assert_eq!(lowered, "FoO/ÄÖ-Z[".to_ascii_lowercase());
    assert!(same_ignoring_case("OctoCat", "octocat"));
    assert!(!same_ignoring_case("Ä", "ä"));
    assert!(!same_ignoring_case("octocat", "octocats"));
    assert!(same("a", "a"));
    assert!(!same("a", "A"));
}

#[test]
fn joining_is_that_of_std() {
    for parts in [vec![], vec!["a"], vec!["a", "", "c"]] {
        let owned: Vec<String> = parts.iter().map(|p: &&str| p.to_string()).collect();
        assert_eq!(join(&owned, ", "), owned.join(", "));
    }
}

#[test]
fn numbers_are_those_of_std() {
    for n in [0, 7, 10, 99, 100, 421, u64::MAX] {
        assert_eq!(decimal_text(n), n.to_string());
    }
    for i in [0, 1, -1, 128, i32::MAX, i32::MIN] {
        assert_eq!(signed_decimal_text(i), i.to_string());
    }
    assert!(matches!(parse_count("12"), Ok(12)));
    assert!(matches!(parse_count(""), Err(CountError::Empty)));
    assert!(matches!(parse_count("x"), Err(CountError::InvalidDigit)));
    assert!(matches!(
        parse_count("99999999999999999999999"),
        Err(CountError::TooLarge)
    ));
    // The first fault counts, from the left.
    assert!(matches!(
        parse_count("99999999999999999999999x"),
        Err(CountError::TooLarge)
    ));
}

#[test]
fn order_is_that_of_std() {
    let words = ["", "a", "ab", "b", "A", "é", "𝄞", "\u{ffff}"];
    for a in words {
        for b in words {
            assert_eq!(is_before(a, b), a < b, "{:?} {:?}", a, b);
        }
    }
}
