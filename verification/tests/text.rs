use gcemeta::error::ErrorKind;
use gcemeta::text::{
    eq_ignore_ascii_case, is_whitespace, last_segment, lines, parse_instance_name, parse_zone,
    trim,
};

#[test]
fn trim_test() {
    assert_eq!(trim(""), "");
    assert_eq!(trim(" \r\n	abc \r\n	"), "abc");
}

#[test]
fn lines_test() {
    assert_eq!(lines(""), Vec::<String>::new());
    assert_eq!(
        lines(
            r#"
a
	b
"#
        ),
        vec!["a", "b"]
    );
}

#[test]
fn parse_instance_name_test() {
    match parse_instance_name("abc.c.ef.internal") {
        Ok(v) => assert_eq!(v, "abc"),
        _ => unreachable!(),
    }

    match parse_instance_name("").map_err(|e| e.into_kind()) {
        Ok(v) => unreachable!("parse_instance_name_test::2 {:?}", v),
        Err(ErrorKind::MetadataParse("instance name")) => {}
        _ => unreachable!(),
    }
}

#[test]
fn parse_zone_test() {
    match parse_zone("projects/123/zones/asia-northeast1-a") {
        Ok(v) => assert_eq!(v, "asia-northeast1-a"),
        _ => unreachable!("parse_zone_test::1"),
    }

    match parse_zone("").map_err(|e| e.into_kind()) {
        Ok(_) => unreachable!(),
        Err(ErrorKind::MetadataParse("zone")) => {}
        _ => unreachable!(),
    }
}

#[test]
fn trim_keeps_inner_white_space() {
    assert_eq!(trim("  a b\tc  "), "a b\tc");
    assert_eq!(trim("abc"), "abc");
}

#[test]
fn trim_of_white_space_is_empty() {
    assert_eq!(trim(" \t\r\n"), "");
    assert_eq!(trim("\u{3000}\u{2028}\u{85}"), "");
}

#[test]
fn trim_knows_unicode_white_space() {
    assert_eq!(trim("\u{a0}\u{1680}x\u{2000}\u{200a}\u{202f}\u{205f}"), "x");
    // U+200B, the zero width space, is no white space.
    assert_eq!(trim("\u{200b}x\u{200b}"), "\u{200b}x\u{200b}");
    assert_eq!(trim(" é "), "é");
}

#[test]
fn trim_agrees_with_std() {
    for s in ["", " ", "a", " a", "a ", "\n\na\tb\r\n", "\u{b}\u{c}x", "\u{1c}x\u{1f}"] {
        assert_eq!(trim(s), s.trim());
    }
}

#[test]
fn trim_is_idempotent() {
    let once = trim("  x y  ");
    assert_eq!(trim(&once), once);
}

#[test]
fn is_whitespace_agrees_with_std() {
    let mut code: u32 = 0;
    while code <= 0x3100 {
        if let Some(c) = char::from_u32(code) {
            assert_eq!(is_whitespace(c), c.is_whitespace());
        }
        code += 1;
    }
}

#[test]
fn lines_drops_empty_and_blank_lines() {
    assert_eq!(lines("a\n\n \t \nb"), vec!["a", "b"]);
    assert_eq!(lines("\n\n\n"), Vec::<String>::new());
}

#[test]
fn lines_trims_carriage_returns() {
    assert_eq!(lines("a\r\nb\r\n"), vec!["a", "b"]);
}

#[test]
fn lines_of_one_line() {
    assert_eq!(lines("only"), vec!["only"]);
    assert_eq!(lines("  only  \n"), vec!["only"]);
}

#[test]
fn lines_agrees_with_std() {
    for s in ["", "a", "a\nb", "\na\n\tb\n", "x\r\ny\r", " \n \n", "a\n\nb\n\n"] {
        let expected: Vec<String> =
            s.lines().map(|l| l.trim().to_owned()).filter(|l| !l.is_empty()).collect();
        assert_eq!(lines(s), expected);
    }
}

#[test]
fn parse_instance_name_without_dot() {
    assert_eq!(parse_instance_name("abc").unwrap(), "abc");
}

#[test]
fn parse_instance_name_with_leading_dot() {
    match parse_instance_name(".c.project.internal").map_err(|e| e.into_kind()) {
        Err(ErrorKind::MetadataParse("instance name")) => {}
        _ => unreachable!(),
    }
}

#[test]
fn parse_zone_without_slash() {
    assert_eq!(parse_zone("europe-west1-b").unwrap(), "europe-west1-b");
}

#[test]
fn parse_zone_with_trailing_slash() {
    match parse_zone("projects/123/zones/").map_err(|e| e.into_kind()) {
        Err(ErrorKind::MetadataParse("zone")) => {}
        _ => unreachable!(),
    }
}

#[test]
fn last_segment_of_a_path() {
    assert_eq!(last_segment("a/b/c", '/'), "c");
    assert_eq!(last_segment("abc", '/'), "abc");
    assert_eq!(last_segment("a/", '/'), "");
    assert_eq!(last_segment("", '/'), "");
}

#[test]
fn header_names_compare_without_case() {
    assert!(eq_ignore_ascii_case("Metadata-Flavor", "metadata-flavor"));
    assert!(eq_ignore_ascii_case("METADATA-FLAVOR", "Metadata-Flavor"));
    assert!(!eq_ignore_ascii_case("Metadata-Flavor", "Metadata_Flavor"));
    assert!(!eq_ignore_ascii_case("Metadata-Flavor", "Metadata-Flavo"));
    // `@` and `` ` `` differ by the same bit as `A` and `a`, but are no letters.
    assert!(!eq_ignore_ascii_case("@", "`"));
}
