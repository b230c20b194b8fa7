use heinzelmann::text::{first_char, join_with, parse_u32, split_at_char, starts_with};

#[test]
fn split_cuts_at_every_separator() {
    assert_eq!(split_at_char("a/b/c", '/'), vec!["a", "b", "c"]);
    assert_eq!(split_at_char("", '/'), vec![""]);
    assert_eq!(split_at_char("/", '/'), vec!["", ""]);
    assert_eq!(split_at_char("/a//b/", '/'), vec!["", "a", "", "b", ""]);
    assert_eq!(split_at_char("07:30", ':'), vec!["07", "30"]);
    assert_eq!(split_at_char("no separator", ':'), vec!["no separator"]);
}

#[test]
fn join_undoes_split() {
    for text in ["", "/", "a", "a/b", "/a//b/", "home/livingroom/light"] {
        assert_eq!(join_with(&split_at_char(text, '/'), '/'), text);
    }
    assert_eq!(join_with(&Vec::new(), '/'), "");
    assert_eq!(join_with(&vec!["a".to_string(), "b".to_string()], '/'), "a/b");
}

#[test]
fn split_agrees_with_the_standard_library() {
    for text in ["", "/", "a", "a/b", "/a//b/", "ä/ö", "//"] {
        let expected: Vec<String> = text.split('/').map(String::from).collect();
        assert_eq!(split_at_char(text, '/'), expected);
    }
}

#[test]
fn parse_u32_agrees_with_the_standard_library() {
    let cases = [
        "0", "7", "007", "+7", "+0", "4294967295", "4294967296", "42949672950", "", "+", "-", "-7",
        "++7", "7+", " 7", "7 ", "1_000", "٣", "12a", "00000000000000000000001",
        "99999999999999999999",
    ];
    for text in cases {
        assert_eq!(parse_u32(text), text.parse::<u32>().ok(), "{:?}", text);
    }
}

#[test]
fn parse_u32_reads_exact_values() {
    assert_eq!(parse_u32("1883"), Some(1883));
    assert_eq!(parse_u32("4294967295"), Some(u32::MAX));
    assert_eq!(parse_u32("4294967296"), None);
}

#[test]
fn first_char_and_prefixes() {
    assert_eq!(first_char(""), None);
    assert_eq!(first_char("/a"), Some('/'));
    assert_eq!(first_char("ä"), Some('ä'));
    assert!(starts_with("(quit)", "(quit)"));
    assert!(starts_with("(quit) x", "(quit)"));
    assert!(starts_with("x", ""));
    assert!(starts_with("", ""));
    assert!(!starts_with("(qui", "(quit)"));
    assert!(!starts_with("", "a"));
    assert!(!starts_with("ab", "ac"));
}
