//! Text and paths, held against the standard library.

use agent_browser::path::LocalPath;
use agent_browser::text::{
    chars_of, find_first, find_last, has_prefix, has_suffix, is_blank, is_text, is_white_space,
    joined, joined3, parse_u16, text_of, to_decimal, to_lower, to_lower_char, trim,
};

#[test]
fn white_space_is_that_of_unicode() {
    for c in '\0'..=char::MAX {
        assert_eq!(is_white_space(c), c.is_whitespace(), "{:x}", c as u32);
        assert_eq!(to_lower_char(c), c.to_ascii_lowercase(), "{:x}", c as u32);
    }
}

#[test]
fn trimming() {
    for s in ["", " ", " a ", "a", "\ta b\n", "\u{3000}x\u{a0}", "\u{200b}x"] {
        assert_eq!(trim(s), s.trim());
        assert_eq!(is_blank(s), s.trim().is_empty());
    }
}

#[test]
fn prefixes_and_suffixes() {
    let s = chars_of("héllo");
    assert_eq!(s.len(), 5);
    assert!(has_prefix(&s, ""));
    assert!(has_prefix(&s, "hé"));
    assert!(!has_prefix(&s, "he"));
    assert!(!has_prefix(&s, "héllo!"));
    assert!(has_suffix(&s, "llo"));
    assert!(has_suffix(&s, ""));
    assert!(!has_suffix(&s, "xllo"));
    assert!(is_text(&s, "héllo"));
    assert!(!is_text(&s, "hél"));
    assert!(!is_text(&s, "hello"));
    assert_eq!(find_first(&s, 'l'), 2);
    assert_eq!(find_first(&s, 'x'), 5);
    assert_eq!(find_last(&s, 'l'), Some(3));
    assert_eq!(find_last(&s, 'x'), None);
    assert_eq!(text_of(&s, 1, 3), "él");
    assert_eq!(joined("a", "é"), "aé");
    assert_eq!(joined3("a", "é", "c"), "aéc");
    assert_eq!(text_of(&to_lower(&chars_of("AbÉ")), 0, 3), "abÉ");
}

#[test]
fn numbers() {
    for s in [
        "", "+", "0", "80", "+80", "-1", "65535", "65536", "99999999999", "007", "1a", "++1", "１",
    ] {
        assert_eq!(parse_u16(&chars_of(s), 0), s.parse().ok(), "{s}");
    }
    assert_eq!(parse_u16(&chars_of("x:443"), 2), Some(443));
    for n in [0, 1, 9, 10, 99, 100, 4711, u32::MAX] {
        assert_eq!(to_decimal(n), n.to_string());
    }
}

fn std_path(path: &LocalPath) -> &std::path::Path {
    std::path::Path::new(std::str::from_utf8(&path.bytes).unwrap())
}

#[test]
fn joining_paths() {
    for base in ["", "/", "a", "a/", "/a/b", "a//"] {
        for path in ["", "x", "/x", "x/y", "./x", "é"] {
            let joined = LocalPath::from_text(base).entry(path);
            let expected = std::path::Path::new(base).join(path);
            assert_eq!(joined.to_text().as_deref(), expected.to_str(), "{base} {path}");
            assert_eq!(joined.is_absolute(), std_path(&joined).is_absolute());
        }
    }
}

#[test]
fn cleaning_paths() {
    for (path, expected) in [
        ("", "."),
        ("/", "/"),
        ("/..", "/"),
        ("a/./b", "a/b"),
        ("a/..", "."),
        ("../a/..", ".."),
        ("/a//b/../é.html/", "/a/é.html"),
        ("...", "..."),
        ("/a.b/..c/d", "/a.b/..c/d"),
        ("/a/b/", "/a/b"),
        ("/a/b/../c", "/a/c"),
        ("/a/b/..", "/a"),
        ("/a/..", "/"),
        ("a/b/../../../c", "../c"),
        ("../../a", "../../a"),
        ("./a", "a"),
        ("/../../a", "/a"),
    ] {
        assert_eq!(LocalPath::from_text(path).clean().to_text().unwrap(), expected, "{path}");
    }
    let path = LocalPath { bytes: b"/\xff/./\xc3/../\xe9".to_vec() };
    assert_eq!(path.clean().bytes, b"/\xff/\xe9".to_vec());
}

#[test]
fn showing_paths() {
    let path = LocalPath { bytes: b"/a\xffb\xc3\xa9".to_vec() };
    assert_eq!(path.to_text(), None);
    assert_eq!(path.display(), "/a\u{fffd}bé");
    assert_eq!(path.copy().bytes, path.bytes);
    let path = LocalPath::from_text("/é");
    assert_eq!(path.to_text().unwrap(), "/é");
    assert_eq!(path.display(), "/é");
}
