use image_lab::parse_u32;
use image_lab::str_eq;
use image_lab::trim_str;
use image_lab::u64_to_string;

#[test]
fn parse_u32_accepts_what_std_accepts() {
    let cases = vec![
        "0",
        "1",
        "42",
        "800",
        "+64",
        "4294967295",
        "4294967296",
        "",
        "+",
        "-1",
        "abc",
        "1a",
        " 5",
        "5 ",
        "1.0",
        "007",
        "99999999999999999999",
    ];
    for text in cases {
        assert_eq!(parse_u32(text), text.parse::<u32>().ok(), "case {:?}", text);
    }
}

#[test]
fn decimal_formatting_matches_std() {
    let cases: Vec<u64> = vec![0, 1, 9, 10, 99, 100, 720, 1280, 1234567, u64::MAX];
    for n in cases {
        assert_eq!(u64_to_string(n), n.to_string());
    }
}

#[test]
fn trim_matches_std() {
    let cases = vec![
        "",
        "   ",
        "\t\n\r ",
        "abc",
        "  abc",
        "abc  ",
        "  a b c  ",
        " \u{00A0}x ",
        "x",
    ];
    for text in cases {
        assert_eq!(trim_str(text), text.trim(), "case {:?}", text);
    }
}

#[test]
fn str_eq_is_character_equality() {
    assert!(str_eq("", ""));
    assert!(str_eq("abc", "abc"));
    assert!(!str_eq("abc", "abd"));
    assert!(!str_eq("abc", "ab"));
    assert!(str_eq("naïve", "naïve"));
    assert!(!str_eq("naïve", "naive"));
}
