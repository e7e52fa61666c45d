use enterprise_code_memory::numparse::parse_unsigned_str;
use enterprise_code_memory::text::{
    contains_str, count_char_str, ends_with_str, eq_str, find_any_str, i64_to_string, is_whitespace,
    join_str, lines_str, remove_char_str, split_once_str, split_str, starts_with_str, strip_prefix_str,
    to_lowercase, trim_str, u64_to_string, words_str,
};

const SAMPLES: &[&str] = &[
    "",
    " ",
    "a",
    "  padded\t",
    "\u{3000}wide\u{a0}",
    "a,b,,c,",
    ",",
    "line1\nline2\r\nline3",
    "ends\n",
    "\n",
    "\n\n",
    "cr\r",
    "trail\r\n",
    "one  two\tthree\nfour ",
    "x\u{85}y\u{2028}z",
    "ümlaut/dir/file",
];

#[test]
fn trim_matches_std() {
    for s in SAMPLES {
        assert_eq!(trim_str(s), s.trim(), "{s:?}");
    }
}

#[test]
fn split_matches_std() {
    for s in SAMPLES {
        for sep in [',', '\n', '/', ' '] {
            let ours = split_str(s, sep);
            let std: Vec<String> = s.split(sep).map(|x| x.to_string()).collect();
            assert_eq!(ours, std, "{s:?} {sep:?}");
            let once = split_once_str(s, sep);
            let std_once = s.split_once(sep).map(|(a, b)| (a.to_string(), b.to_string()));
            assert_eq!(once, std_once, "{s:?} {sep:?}");
        }
    }
}

#[test]
fn lines_and_words_match_std() {
    for s in SAMPLES {
        let std_lines: Vec<String> = s.lines().map(|x| x.to_string()).collect();
        assert_eq!(lines_str(s), std_lines, "{s:?}");
        let std_words: Vec<String> = s.split_whitespace().map(|x| x.to_string()).collect();
        assert_eq!(words_str(s), std_words, "{s:?}");
    }
}

#[test]
fn searches_match_std() {
    for s in SAMPLES {
        for p in ["", "a", "line", "\n", "ü", "two\tthree"] {
            assert_eq!(starts_with_str(s, p), s.starts_with(p), "{s:?} {p:?}");
            assert_eq!(ends_with_str(s, p), s.ends_with(p), "{s:?} {p:?}");
            assert_eq!(contains_str(s, p), s.contains(p), "{s:?} {p:?}");
            assert_eq!(eq_str(s, p), *s == p, "{s:?} {p:?}");
            assert_eq!(strip_prefix_str(s, p), s.strip_prefix(p).map(|x| x.to_string()), "{s:?} {p:?}");
        }
        assert_eq!(count_char_str(s, '/'), s.matches('/').count());
        assert_eq!(remove_char_str(s, '\n'), s.replace('\n', ""));
        let set = vec![',', '\n'];
        let ours = find_any_str(s, &set);
        let std = s.char_indices().position(|(_, c)| c == ',' || c == '\n');
        assert_eq!(ours, std, "{s:?}");
    }
}

#[test]
fn whitespace_matches_std() {
    for c in ['\t', '\n', '\u{b}', '\u{c}', '\r', ' ', '\u{85}', '\u{a0}', '\u{1680}', '\u{2000}',
        '\u{200a}', '\u{200b}', '\u{2028}', '\u{2029}', '\u{202f}', '\u{205f}', '\u{3000}', 'a',
        '\u{feff}', '\u{180e}']
    {
        assert_eq!(is_whitespace(c), c.is_whitespace(), "{c:?}");
    }
}

#[test]
fn numbers_render_like_std() {
    for n in [0u64, 1, 9, 10, 99, 100, 12345, u64::MAX] {
        assert_eq!(u64_to_string(n), n.to_string());
    }
    for i in [0i64, -1, 7, -10, i64::MIN, i64::MAX] {
        assert_eq!(i64_to_string(i), i.to_string());
    }
    for s in ["0", "18446744073709551615", "18446744073709551616", "+5", "-5", "", "+", "1a"] {
        assert_eq!(parse_unsigned_str(s, u64::MAX), s.parse::<u64>().ok(), "{s:?}");
    }
}

#[test]
fn join_and_lowercase() {
    let parts = vec!["a".to_string(), "b".to_string(), "c".to_string()];
    assert_eq!(join_str(&parts, ", "), "a, b, c");
    assert_eq!(join_str(&Vec::new(), ", "), "");
    assert_eq!(to_lowercase("README.MD"), "readme.md");
    assert_eq!(to_lowercase("ÄÖ"), "äö");
}
