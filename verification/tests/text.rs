use switch_relay::text::{
    chars_of, find, find_line_end, includes, is_space_char, last_word_bounds, matches_at,
    strip_trailing_len, text_of, trim_bounds, trim_end_len, trim_start_len,
};

fn chars(s: &str) -> Vec<char> {
    s.chars().collect()
}

#[test]
fn chars_and_text_are_inverse() {
    let s = "✅ déjà vu\n";
    let v = chars_of(s);
    assert_eq!(v, chars(s));
    assert_eq!(v.len(), 10);
    assert_eq!(text_of(&v), s);
    assert_eq!(text_of(&[]), "");
}

#[test]
fn white_space_is_what_the_standard_library_says() {
    let mut code: u32 = 0;
    while code <= 0x10FFFF {
        if let Some(c) = char::from_u32(code) {
            assert_eq!(is_space_char(c), c.is_whitespace(), "U+{:04X}", code);
        }
        code += 1;
    }
}

#[test]
fn find_gives_the_first_occurrence() {
    let hay = chars("abcabcabd");
    assert_eq!(find(&hay, &chars("abd")), Some(6));
    assert_eq!(find(&hay, &chars("abc")), Some(0));
    assert_eq!(find(&hay, &chars("bca")), Some(1));
    assert_eq!(find(&hay, &chars("abe")), None);
    assert_eq!(find(&hay, &chars("abcabcabda")), None);
    assert_eq!(find(&hay, &chars("")), Some(0));
    assert_eq!(find(&chars(""), &chars("")), Some(0));
    assert_eq!(find(&chars(""), &chars("a")), None);
    assert_eq!(find(&hay, &hay), Some(0));
}

#[test]
fn includes_agrees_with_the_standard_library() {
    let texts = ["", "a", "ab", "aab", "aaab", "abab", "📄 Fichier généré: x", "généré"];
    for hay in texts {
        for needle in texts {
            assert_eq!(includes(&chars(hay), &chars(needle)), hay.contains(needle), "{hay:?} {needle:?}");
        }
    }
}

#[test]
fn matches_at_checks_bounds() {
    let hay = chars("hello");
    assert!(matches_at(&hay, &chars("llo"), 2));
    assert!(!matches_at(&hay, &chars("llo"), 3));
    assert!(!matches_at(&hay, &chars("llo"), 9));
    assert!(matches_at(&hay, &chars(""), 5));
    assert!(!matches_at(&hay, &chars(""), 6));
}

#[test]
fn line_end_is_the_next_line_feed() {
    let text = chars("ab\ncd\n\nef");
    assert_eq!(find_line_end(&text, 0), 2);
    assert_eq!(find_line_end(&text, 2), 2);
    assert_eq!(find_line_end(&text, 3), 5);
    assert_eq!(find_line_end(&text, 6), 6);
    assert_eq!(find_line_end(&text, 7), 9);
    assert_eq!(find_line_end(&text, 9), 9);
}

#[test]
fn trimming_agrees_with_the_standard_library() {
    let texts = ["", " ", "a", "  a b \t", "\u{00A0}x\u{2003}", "\r\n", " /tmp/conf.txt\r", "x  "];
    for s in texts {
        let v = chars(s);
        let (start, end) = trim_bounds(&v);
        assert_eq!(text_of(&v[start..end]), s.trim(), "{s:?}");
        assert_eq!(text_of(&v[..trim_end_len(&v)]), s.trim_end(), "{s:?}");
        assert_eq!(text_of(&v[trim_start_len(&v)..]), s.trim_start(), "{s:?}");
    }
}

#[test]
fn last_word_agrees_with_the_standard_library() {
    let texts = ["", "   ", "one", "one two", " one  two \t", "set system host-name SW-01;\r", "a\u{3000}b"];
    for s in texts {
        let v = chars(s);
        let (start, end) = last_word_bounds(&v);
        assert_eq!(text_of(&v[start..end]), s.split_whitespace().last().unwrap_or(""), "{s:?}");
    }
}

#[test]
fn strip_trailing_removes_only_the_end() {
    for s in ["", ";", ";;", "a;", "a;;", "a;b", "a;b;", ";a"] {
        let v = chars(s);
        assert_eq!(text_of(&v[..strip_trailing_len(&v, ';')]), s.trim_end_matches(';'), "{s:?}");
    }
}
