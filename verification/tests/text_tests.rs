use goldagent::number::{decimal, parse_unsigned, signed_decimal};
use goldagent::pattern::{contains, replace, split_once, strip_prefix, strip_suffix};
use goldagent::text::{chars_of, is_space_char, shorter_than, str_eq, trim};
use goldagent::words::{find_nonblank_line, split_whitespace, to_ascii_lowercase};

fn chars(s: &str) -> Vec<char> {
    s.chars().collect()
}

fn text(v: Vec<char>) -> String {
    v.into_iter().collect()
}

#[test]
fn white_space_is_what_std_says() {
    for n in 0u32..0x11_0000 {
        if let Some(c) = char::from_u32(n) {
            assert_eq!(is_space_char(c), c.is_whitespace(), "U+{n:04X}");
        }
    }
}

#[test]
fn trims_like_std() {
    for s in ["", " ", "a", " a ", "\t\r\n x y \u{3000}\u{85}", "\u{a0}z", "  \n "] {
        assert_eq!(text(trim(&chars(s))), s.trim(), "{s:?}");
    }
}

#[test]
fn splits_words_like_std() {
    for s in ["", " ", "a", " a  b\tc\n", "0 13 * * *", "x\u{2003}y", "one"] {
        let got: Vec<String> = split_whitespace(&chars(s)).into_iter().map(text).collect();
        let want: Vec<String> = s.split_whitespace().map(|w| w.to_string()).collect();
        assert_eq!(got, want, "{s:?}");
    }
}

#[test]
fn replaces_like_std() {
    for (s, from, to) in [
        ("aaa", "aa", "b"),
        ("abcabc", "bc", ""),
        ("${X}${X}", "${X}", "${X}${X}"),
        ("", "x", "y"),
        ("xyz", "xyzw", "q"),
        ("a'b'", "'", "'\"'\"'"),
    ] {
        assert_eq!(text(replace(&chars(s), &chars(from), &chars(to))), s.replace(from, to));
    }
}

#[test]
fn an_empty_pattern_occurs_nowhere() {
    assert_eq!(text(replace(&chars("abc"), &chars(""), &chars("x"))), "abc");
    assert_eq!(text(replace(&chars(""), &chars(""), &chars("x"))), "");
}

#[test]
fn lowers_ascii_like_std() {
    for s in ["", "ABC xyz", "ÀÉ Ω", "Remind", "[\\]^_`@{"] {
        assert_eq!(text(to_ascii_lowercase(&chars(s))), s.to_ascii_lowercase());
    }
}

#[test]
fn parses_unsigned_like_std() {
    for s in ["0", "7", "+7", "007", "255", "256", "", "+", "-1", "1 ", "１２", "4294967295", "4294967296", "99999999999999999999"] {
        assert_eq!(parse_unsigned(&chars(s), 255), s.parse::<u8>().ok().map(u32::from), "{s:?}");
        assert_eq!(parse_unsigned(&chars(s), u32::MAX), s.parse::<u32>().ok(), "{s:?}");
    }
}

#[test]
fn writes_numbers_like_std() {
    for n in [0u64, 9, 10, 99, 100, 12345, u64::MAX] {
        assert_eq!(text(decimal(n)), n.to_string());
    }
    for n in [0i64, -1, 1, -10, i64::MIN, i64::MAX] {
        assert_eq!(text(signed_decimal(n)), n.to_string());
    }
}

#[test]
fn splits_at_characters_like_std() {
    for s in ["13:00", ":", "a:b:c", "abc", ""] {
        let got = split_once(&chars(s), ':').map(|(a, b)| (text(a), text(b)));
        let want = s.split_once(':').map(|(a, b)| (a.to_string(), b.to_string()));
        assert_eq!(got, want);
    }
}

#[test]
fn strips_and_finds_like_std() {
    assert_eq!(strip_prefix(&chars("daily@1"), &chars("daily@")).map(text), Some("1".to_string()));
    assert_eq!(strip_prefix(&chars("dail"), &chars("daily@")).map(text), None);
    assert_eq!(strip_suffix(&chars("x\""), &chars("\"")).map(text), Some("x".to_string()));
    assert_eq!(strip_suffix(&chars(""), &chars("\"")).map(text), None);
    assert!(contains(&chars("a-codex"), &chars("-codex")));
    assert!(contains(&chars("abc"), &chars("")));
    assert!(!contains(&chars("ab"), &chars("abc")));
}

#[test]
fn first_nonblank_line_like_std() {
    for s in ["", "\n\n", "a", "\n a \r\nb", " \r\n\t\n  x  ", "x\n", "\r"] {
        let want = s.lines().map(str::trim).find(|l| !l.is_empty()).map(|l| l.to_string());
        assert_eq!(find_nonblank_line(&chars(s)).map(text), want, "{s:?}");
    }
}

#[test]
fn byte_lengths_like_std() {
    for s in ["", "a", "sk-0123456789abcdefg", "智谱智谱智谱", "é", "😀😀😀😀😀"] {
        for limit in [0u32, 1, 8, 9, 16, 20, 21] {
            assert_eq!(shorter_than(&chars(s), limit), (s.len() as u64) < limit as u64);
        }
    }
}

#[test]
fn conversions() {
    assert_eq!(chars_of("提醒 a"), chars("提醒 a"));
    assert!(str_eq("a", "a"));
    assert!(!str_eq("a", "b"));
    assert!(!str_eq("a", "ab"));
}
