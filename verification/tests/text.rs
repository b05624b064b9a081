use xhs_rs::text::{
    clone_text, followed_by, eq_ignoring_ascii_case, find_char, find_char_from, find_text, has_prefix,
    is_space_char, join_pairs, matches_at, push_pair, same_chars, same_text, split_chars,
    split_once_chars, string_of, sub_chars, text_or_empty, to_ascii_lower, to_ascii_upper,
    to_chars, trim_chars, Pair,
};

fn chars(s: &str) -> Vec<char> {
    s.chars().collect()
}

fn text(v: &[char]) -> String {
    v.iter().collect()
}

#[test]
fn characters_and_back() {
    for s in ["", "abc", "a\u{676d}\u{5dde}b", "\u{1f600}"] {
        assert_eq!(to_chars(s), chars(s));
        assert_eq!(string_of(&chars(s)), s);
    }
}

#[test]
fn sub_range_of_characters() {
    let v = chars("hello");
    assert_eq!(text(&sub_chars(&v, 1, 4)), "ell");
    assert_eq!(text(&sub_chars(&v, 0, 0)), "");
    assert_eq!(text(&sub_chars(&v, 5, 5)), "");
    assert_eq!(text(&sub_chars(&v, 0, 5)), "hello");
}

#[test]
fn equality_of_texts() {
    assert!(same_text("abc", "abc"));
    assert!(!same_text("abc", "abd"));
    assert!(!same_text("abc", "ab"));
    assert!(same_text("", ""));
    assert!(same_chars(&chars("ab"), &chars("ab")));
    assert!(!same_chars(&chars("ab"), &chars("ba")));
    assert!(!same_chars(&chars("ab"), &chars("abc")));
}

#[test]
fn equality_up_to_ascii_case() {
    assert!(eq_ignoring_ascii_case("post", "POST"));
    assert!(eq_ignoring_ascii_case("PoSt", "pOsT"));
    assert!(eq_ignoring_ascii_case("", ""));
    assert!(!eq_ignoring_ascii_case("post", "pos"));
    assert!(!eq_ignoring_ascii_case("get", "put"));
    // only ASCII letters are folded
    assert!(!eq_ignoring_ascii_case("\u{e9}", "\u{c9}"));
    assert!(eq_ignoring_ascii_case("a-1_\u{e9}", "A-1_\u{e9}"));
}

#[test]
fn ascii_case_of_characters() {
    assert_eq!(to_ascii_upper('a'), 'A');
    assert_eq!(to_ascii_upper('z'), 'Z');
    assert_eq!(to_ascii_upper('A'), 'A');
    assert_eq!(to_ascii_upper('1'), '1');
    assert_eq!(to_ascii_upper('{'), '{');
    assert_eq!(to_ascii_upper('`'), '`');
    assert_eq!(text(&to_ascii_lower(&chars("AbC-XyZ09[@\u{c9}"))), "abc-xyz09[@\u{c9}");
}

#[test]
fn finding_a_character() {
    let v = chars("a=b=c");
    assert_eq!(find_char(&v, '='), 1);
    assert_eq!(find_char(&v, 'a'), 0);
    assert_eq!(find_char(&v, 'x'), 5);
    assert_eq!(find_char_from(&v, 2, '='), 3);
    assert_eq!(find_char_from(&v, 4, '='), 5);
    assert_eq!(find_char_from(&v, 5, '='), 5);
    assert_eq!(find_char(&chars(""), '='), 0);
}

#[test]
fn splitting_at_a_separator() {
    let parts = |s: &str| -> Vec<String> {
        split_chars(&chars(s), ';').iter().map(|p| text(p)).collect()
    };
    assert_eq!(parts("a;b;c"), vec!["a", "b", "c"]);
    assert_eq!(parts(""), vec![""]);
    assert_eq!(parts(";"), vec!["", ""]);
    assert_eq!(parts("a;;b;"), vec!["a", "", "b", ""]);
    assert_eq!(parts("no separator"), vec!["no separator"]);
}

#[test]
fn splitting_once() {
    let (a, b) = split_once_chars(&chars("k=v=w"), '=').unwrap();
    assert_eq!((text(&a), text(&b)), ("k".to_string(), "v=w".to_string()));
    let (a, b) = split_once_chars(&chars("="), '=').unwrap();
    assert_eq!((text(&a), text(&b)), (String::new(), String::new()));
    assert!(split_once_chars(&chars("kv"), '=').is_none());
    assert!(split_once_chars(&chars(""), '=').is_none());
}

#[test]
fn white_space_is_that_of_unicode() {
    for c in ['\t', '\n', '\u{b}', '\u{c}', '\r', ' ', '\u{85}', '\u{a0}', '\u{1680}', '\u{2000}',
        '\u{200a}', '\u{2028}', '\u{2029}', '\u{202f}', '\u{205f}', '\u{3000}']
    {
        assert!(is_space_char(c), "{:?}", c);
        assert!(c.is_whitespace());
    }
    for c in ['a', '0', '\u{8}', '\u{e}', '\u{1f}', '!', '\u{84}', '\u{86}', '\u{200b}', '\u{feff}',
        '\u{180e}', '\u{2060}', '\u{3001}']
    {
        assert!(!is_space_char(c), "{:?}", c);
        assert!(!c.is_whitespace());
    }
}

#[test]
fn white_space_agrees_with_std_on_every_character() {
    let mut c = 0u32;
    while c <= 0x10ffff {
        if let Some(ch) = char::from_u32(c) {
            assert_eq!(is_space_char(ch), ch.is_whitespace(), "U+{:04X}", c);
        }
        c += 1;
    }
}

#[test]
fn trimming() {
    let trim = |s: &str| text(&trim_chars(&chars(s)));
    assert_eq!(trim("  a b \t\n"), "a b");
    assert_eq!(trim("a"), "a");
    assert_eq!(trim(""), "");
    assert_eq!(trim(" \u{3000}\r\n"), "");
    assert_eq!(trim("\u{a0}x\u{2003}y\u{85}"), "x\u{2003}y");
    for s in ["  a b \t\n", "", "   ", "x", " x", "x ", "\u{feff}x "] {
        assert_eq!(trim(s), s.trim());
    }
}

#[test]
fn finding_a_text() {
    let v = chars("abcabcabd");
    assert_eq!(find_text(&v, &chars("abd")), Some(6));
    assert_eq!(find_text(&v, &chars("abc")), Some(0));
    assert_eq!(find_text(&v, &chars("bca")), Some(1));
    assert_eq!(find_text(&v, &chars("")), Some(0));
    assert_eq!(find_text(&v, &chars("abe")), None);
    assert_eq!(find_text(&v, &chars("abcabcabdx")), None);
    assert_eq!(find_text(&chars(""), &chars("")), Some(0));
    assert_eq!(find_text(&chars(""), &chars("a")), None);
    assert_eq!(find_text(&v, &v.clone()), Some(0));
}

#[test]
fn matching_at_an_index() {
    let v = chars("hello");
    assert!(matches_at(&v, &chars("ell"), 1));
    assert!(!matches_at(&v, &chars("ell"), 2));
    assert!(matches_at(&v, &chars(""), 5));
    assert!(!matches_at(&v, &chars(""), 6));
    assert!(!matches_at(&v, &chars("lo!"), 3));
    assert!(!matches_at(&v, &chars("o"), usize::MAX));
    assert!(has_prefix(&v, &chars("he")));
    assert!(has_prefix(&v, &chars("")));
    assert!(has_prefix(&v, &chars("hello")));
    assert!(!has_prefix(&v, &chars("hello!")));
    assert!(!has_prefix(&v, &chars("el")));
}

#[test]
fn joining_pairs() {
    let mut pairs: Vec<Pair> = Vec::new();
    assert_eq!(join_pairs(&pairs, "&"), "");
    push_pair(&mut pairs, "a", "1");
    assert_eq!(join_pairs(&pairs, "&"), "a=1");
    push_pair(&mut pairs, "b", "");
    push_pair(&mut pairs, "", "3");
    assert_eq!(join_pairs(&pairs, "&"), "a=1&b=&=3");
    assert_eq!(join_pairs(&pairs, "; "), "a=1; b=; =3");
    assert_eq!(join_pairs(&pairs, ""), "a=1b==3");
    let copy = pairs[0].clone();
    assert_eq!((copy.name.as_str(), copy.value.as_str()), ("a", "1"));
}

#[test]
fn small_helpers() {
    assert_eq!(followed_by("ab", "cd"), "abcd");
    assert_eq!(followed_by("", ""), "");
    assert_eq!(clone_text(&Some("x".to_string())), Some("x".to_string()));
    assert_eq!(clone_text(&None), None);
    assert_eq!(text_or_empty(&Some("x".to_string())), "x");
    assert_eq!(text_or_empty(&None), "");
}
