use retrovert_player::text::{
    chars_of, ends_with, join, names, parse_number, same, split_entries, split_whitespace, text_of,
    to_decimal, to_lowercase, whitespace,
};

#[test]
fn white_space_is_what_unicode_says() {
    for point in 0..=0x10ffff_u32 {
        if let Some(c) = char::from_u32(point) {
            assert_eq!(whitespace(c), c.is_whitespace(), "{point:x}");
        }
    }
}

#[test]
fn only_ascii_capitals_turn_small() {
    for text in ["MOD", "mod", "Sid2", "\u{c9}T\u{c9}", "[@Z{`", ""] {
        assert_eq!(to_lowercase(text), text.to_ascii_lowercase());
    }
}

#[test]
fn entries_are_trimmed_and_small_and_never_empty() {
    assert_eq!(
        split_entries(" mod, S3M|xm ,, |\u{a0}It\u{3000}|,"),
        vec!["mod", "s3m", "xm", "it"]
    );
    assert!(split_entries("").is_empty());
    assert!(split_entries(" , | ").is_empty());
    assert_eq!(split_entries("a b,c"), vec!["a b", "c"]);
}

#[test]
fn words_are_what_white_space_parts() {
    for text in ["", "  ", "play 3", "\tplay\u{2003}a  b\n", "x"] {
        let expected: Vec<String> = text.split_whitespace().map(str::to_string).collect();
        assert_eq!(split_whitespace(text), expected);
    }
}

#[test]
fn numbers_are_read_as_std_reads_them() {
    for text in [
        "", "+", "-1", "-0", "+7", "++7", "007", "18446744073709551615", "18446744073709551616",
        "99999999999999999999999", "1_000", " 1", "1 ", "0", "+0", "\u{661}", "12a",
    ] {
        assert_eq!(parse_number(text, u64::MAX), text.parse::<u64>().ok(), "{text}");
    }
    assert_eq!(parse_number("255", 255), Some(255));
    assert_eq!(parse_number("256", 255), None);
    assert_eq!(parse_number("9", 3), None);
}

#[test]
fn numbers_are_written_in_decimal() {
    for n in [0, 7, 10, 64, 99, 100, 1_234_567, u64::MAX] {
        assert_eq!(to_decimal(n), n.to_string());
        assert_eq!(parse_number(&to_decimal(n), u64::MAX), Some(n));
    }
}

#[test]
fn strings_are_compared_joined_and_respelled() {
    assert!(same("play", "play"));
    assert!(!same("play", "Play"));
    assert!(ends_with("spu.tar.zst", ".tar.zst"));
    assert!(ends_with(".tar.zst", ".tar.zst"));
    assert!(!ends_with("tar.zst", ".tar.zst"));
    assert!(!ends_with("spu.tar.zst ", ".tar.zst"));
    assert!(ends_with("x", ""));
    let list = vec!["a".to_string(), "b".to_string(), "c".to_string()];
    assert_eq!(join(&list, "; "), "a; b; c");
    assert_eq!(join(&list[..1].to_vec(), "; "), "a");
    assert_eq!(join(&Vec::new(), "; "), "");
    assert!(names(&list, &"b".to_string()));
    assert!(!names(&list, &"d".to_string()));
    assert_eq!(text_of(&chars_of("\u{e9}t\u{e9}")), "\u{e9}t\u{e9}");
}
