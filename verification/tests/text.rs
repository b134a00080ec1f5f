use cord::number::parse_u64;
use cord::text::{concat_text, contains_text, fill_placeholder, is_empty, starts_with, text_eq};

#[test]
fn fill_replaces_single_placeholder() {
    assert_eq!(fill_placeholder("Editing {}", "main.rs"), "Editing main.rs");
}

#[test]
fn fill_replaces_every_placeholder() {
    assert_eq!(fill_placeholder("{} and {}", "x"), "x and x");
}

#[test]
fn fill_without_placeholder_is_identity() {
    assert_eq!(fill_placeholder("Browsing files", "oil"), "Browsing files");
    assert_eq!(fill_placeholder("", "oil"), "");
    assert_eq!(fill_placeholder("{ }", "oil"), "{ }");
}

#[test]
fn fill_placeholder_only_gives_value() {
    assert_eq!(fill_placeholder("{}", "value"), "value");
    assert_eq!(fill_placeholder("{}", ""), "");
}

#[test]
fn fill_agrees_with_std_replace() {
    let templates = ["{{}}", "{}}", "{{}", "a{}b{}c", "}{", "{}{}", "Viewing {} now", "ünïcödé {} ✓"];
    let values = ["", "x", "{}", "long value"];
    for t in templates.iter() {
        for v in values.iter() {
            assert_eq!(fill_placeholder(t, v), t.replace("{}", v), "template {:?} value {:?}", t, v);
        }
    }
}

#[test]
fn text_helpers() {
    assert!(text_eq("abc", "abc"));
    assert!(!text_eq("abc", "abd"));
    assert!(is_empty(""));
    assert!(!is_empty(" "));
    assert_eq!(concat_text("lua", " file"), "lua file");
    assert!(starts_with("https://example.com/a.png", "https://"));
    assert!(!starts_with("http:/", "http://"));
    assert!(starts_with("abc", ""));
    let list = vec!["work".to_string(), "secret".to_string()];
    assert!(contains_text(&list, "secret"));
    assert!(!contains_text(&list, "secrets"));
    assert!(!contains_text(&Vec::new(), ""));
}

#[test]
fn parse_u64_reads_decimal_ids() {
    assert_eq!(parse_u64("1219918645770059796"), Some(1219918645770059796));
    assert_eq!(parse_u64("+7"), Some(7));
    assert_eq!(parse_u64("0"), Some(0));
    assert_eq!(parse_u64("18446744073709551615"), Some(u64::MAX));
    assert_eq!(parse_u64("18446744073709551616"), None);
    assert_eq!(parse_u64(""), None);
    assert_eq!(parse_u64("+"), None);
    assert_eq!(parse_u64("-1"), None);
    assert_eq!(parse_u64("12a"), None);
    assert_eq!(parse_u64(" 12"), None);
}

#[test]
fn parse_u64_agrees_with_std() {
    let inputs = [
        "", "+", "-", "0", "00", "+0", "++1", "1+", "42", "007", "99999999999999999999",
        "18446744073709551615", "18446744073709551616", "184467440737095516150", "9a", "１", "neovim",
    ];
    for s in inputs.iter() {
        assert_eq!(parse_u64(s), s.parse::<u64>().ok(), "input {:?}", s);
    }
}
