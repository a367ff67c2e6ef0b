use engine_builder::paths::{extension, file_name, text_lines};
use engine_builder::text::{decimal, eq_ignore_ascii_case, join, signed_decimal, trim};

fn chars(s: &str) -> Vec<char> {
    s.chars().collect()
}

#[test]
fn decimal_notation() {
    assert_eq!(decimal(0), "0");
    assert_eq!(decimal(1234567890), "1234567890");
    assert_eq!(decimal(u64::MAX), u64::MAX.to_string());
    assert_eq!(signed_decimal(-42), "-42");
    assert_eq!(signed_decimal(i64::MIN), i64::MIN.to_string());
}

#[test]
fn lines_like_str_lines() {
    for text in ["a\nb", "a\r\nb\n", "", "\n", "x\r", "one\n\ntwo\r\n\r\n"] {
        let got: Vec<String> = text_lines(&chars(text)).into_iter().map(|v| v.into_iter().collect()).collect();
        let want: Vec<String> = text.lines().map(|s| s.to_string()).collect();
        assert_eq!(got, want, "lines of {:?}", text);
    }
}

#[test]
fn joining_and_trimming() {
    let parts = vec!["a".to_string(), "b".to_string(), "c".to_string()];
    assert_eq!(join(&parts, ", "), "a, b, c");
    assert_eq!(join(&[], "-"), "");
    let t: String = trim(&chars("  x y \t\n")).into_iter().collect();
    assert_eq!(t, "x y");
    assert!(eq_ignore_ascii_case(&chars("HeLp"), &chars("help")));
    assert!(!eq_ignore_ascii_case(&chars("helps"), &chars("help")));
}

#[test]
fn file_names_and_extensions() {
    let name: Option<String> = file_name(&chars("a/b/c.tar.gz")).map(|v| v.into_iter().collect());
    assert_eq!(name, Some("c.tar.gz".to_string()));
    let ext: Option<String> = extension(&chars("a/b/c.tar.gz")).map(|v| v.into_iter().collect());
    assert_eq!(ext, Some("gz".to_string()));
    assert_eq!(extension(&chars(".bashrc")), None);
}
