//! The text operations against those of `str` and `char`.

use winit_gtk4::text::{chars_of, find_from, is_whitespace, range_eq_ignore_ascii_case, split_once_from, trim_bounds};

#[test]
fn whitespace_agrees_with_std() {
    for code in 0..=0x10ffffu32 {
        if let Some(c) = char::from_u32(code) {
            assert_eq!(is_whitespace(c), c.is_whitespace(), "code point {code:#x}");
        }
    }
}

#[test]
fn characters_of_text() {
    assert_eq!(chars_of("aé€"), vec!['a', 'é', '€']);
    assert_eq!(chars_of(""), Vec::<char>::new());
}

#[test]
fn finding_patterns() {
    let text = chars_of("a;b;c");
    assert_eq!(find_from(&text, &vec![';'], 0), Some(1));
    assert_eq!(find_from(&text, &vec![';'], 2), Some(3));
    assert_eq!(find_from(&text, &vec![';'], 4), None);
    assert_eq!(find_from(&text, &chars_of("b;c"), 0), Some(2));
    assert_eq!(find_from(&text, &chars_of("b;c;"), 0), None);
    assert_eq!(find_from(&text, &vec![], 5), Some(5));
}

#[test]
fn split_once_agrees_with_std() {
    for (text, pattern) in [("a;b;c", ";"), ("abc", ";"), ("x=charset=y", "charset="), (";", ";"), ("", ",")] {
        let chars = chars_of(text);
        let found = split_once_from(&chars, 0, &chars_of(pattern));
        let ours = found.map(|i| {
            let before: String = chars[..i].iter().collect();
            let after: String = chars[i + chars_of(pattern).len()..].iter().collect();
            (before, after)
        });
        let std = text.split_once(pattern).map(|(a, b)| (a.to_string(), b.to_string()));
        assert_eq!(ours, std, "{text:?} split at {pattern:?}");
    }
}

#[test]
fn trim_agrees_with_std() {
    for text in ["  a b  ", "\t\n x\u{3000}", "", "   ", "x", "\u{a0}y\u{2028}"] {
        let chars = chars_of(text);
        let (start, end) = trim_bounds(&chars, 0, chars.len());
        let ours: String = chars[start..end].iter().collect();
        assert_eq!(ours, text.trim(), "{text:?}");
    }
}

#[test]
fn ascii_case_insensitive_comparison() {
    let text = chars_of("xUtF-8y");
    assert!(range_eq_ignore_ascii_case(&text, 1, 6, &chars_of("utf-8")));
    assert!(!range_eq_ignore_ascii_case(&text, 1, 5, &chars_of("utf-8")));
    assert!(!range_eq_ignore_ascii_case(&chars_of("ÉA"), 0, 2, &chars_of("éa")));
}
