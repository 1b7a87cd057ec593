use accelerator_node_lifecycle::json::{text_at, text_in};
use accelerator_node_lifecycle::path::{directory, file_name, parent, sibling};
use accelerator_node_lifecycle::process::join;
use accelerator_node_lifecycle::text::{
    blank, characters, contains, decimal, same_text, trim, white_space,
};
use std::path::Path;

#[test]
fn white_space_is_that_of_unicode() {
    for code in 0..=0x10ffffu32 {
        if let Some(c) = char::from_u32(code) {
            assert_eq!(white_space(c), c.is_whitespace(), "{:x}", code);
        }
    }
}

const TEXTS: [&str; 12] = [
    "",
    " ",
    "\t\n",
    "a",
    " a",
    "a ",
    "  a b\u{a0}c \u{3000}",
    "\u{e9}\u{20ac}",
    "\u{2028}x\u{85}",
    "path=/usr/bin/true ;",
    "aaab",
    "ab",
];

#[test]
fn texts_are_trimmed_and_searched_as_usual() {
    for left in TEXTS {
        assert_eq!(trim(left), left.trim());
        assert_eq!(blank(left), left.trim().is_empty());
        assert_eq!(characters(left), left.chars().collect::<Vec<char>>());
        for right in TEXTS {
            assert_eq!(same_text(left, right), left == right);
            assert_eq!(contains(left, right), left.contains(right));
        }
    }
}

#[test]
fn numbers_are_written_in_decimal() {
    for n in [0, 1, 9, 10, 99, 100, 12345, u64::MAX - 1, u64::MAX] {
        assert_eq!(decimal(n), n.to_string());
    }
    assert_eq!(decimal(u64::MAX), "18446744073709551615");
}

#[test]
fn lists_are_joined() {
    let texts = |items: &[&str]| items.iter().map(|item| item.to_string()).collect::<Vec<_>>();
    assert_eq!(join(&texts(&[]), " "), "");
    assert_eq!(join(&texts(&["a"]), " "), "a");
    assert_eq!(join(&texts(&["a", "", "c"]), ", "), "a, , c");
}

/// Every path of up to `length` characters out of `/`, `.` and `a`.
fn paths(length: usize) -> Vec<String> {
    let mut all = vec![String::new()];
    let mut last = vec![String::new()];
    for _ in 0..length {
        let mut next = Vec::new();
        for path in &last {
            for c in ['/', '.', 'a'] {
                next.push(format!("{}{}", path, c));
            }
        }
        all.extend(next.iter().cloned());
        last = next;
    }
    all
}

#[test]
fn paths_are_taken_apart_as_by_the_standard_library() {
    for path in paths(8) {
        let expected = Path::new(&path);
        let text = |bytes: Option<Vec<u8>>| bytes.map(|bytes| String::from_utf8(bytes).unwrap());
        assert_eq!(
            text(file_name(path.as_bytes())),
            expected
                .file_name()
                .map(|name| name.to_str().unwrap().to_string()),
            "{}",
            path
        );
        assert_eq!(
            text(parent(path.as_bytes())),
            expected
                .parent()
                .map(|parent| parent.to_str().unwrap().to_string()),
            "{}",
            path
        );
        let expected_directory = expected
            .parent()
            .filter(|parent| !parent.as_os_str().is_empty())
            .unwrap_or_else(|| Path::new("."));
        assert_eq!(
            directory(path.as_bytes()),
            expected_directory.to_str().unwrap().as_bytes(),
            "{}",
            path
        );
    }
}

#[test]
fn siblings_keep_every_byte() {
    assert_eq!(sibling(b"/a/\xff", ".lock"), b"/a/\xff.lock");
    assert_eq!(sibling(b"", ".\u{e9}"), b".\xc3\xa9");
}

#[test]
fn texts_are_found_in_documents() {
    let document = br#"{"a":{"b":"text","c":[true,"x"]},"":"empty","~/":"odd"}"#;
    assert_eq!(text_at(document, "/a/b"), Ok(Some("text".to_string())));
    assert_eq!(text_at(document, "/a/c/1"), Ok(Some("x".to_string())));
    assert_eq!(text_at(document, "/"), Ok(Some("empty".to_string())));
    assert_eq!(text_at(document, "/~0~1"), Ok(Some("odd".to_string())));
    assert_eq!(text_at(document, "/a/c/0"), Ok(None));
    assert_eq!(text_at(document, "/a"), Ok(None));
    assert_eq!(text_at(document, "a"), Ok(None));
    assert_eq!(text_at(document, "/missing"), Ok(None));
    assert_eq!(text_at(br#""whole""#, ""), Ok(Some("whole".to_string())));
    assert_eq!(
        text_at(b"nonsense", ""),
        Err("expected ident at line 1 column 2".to_string())
    );
    assert!(text_at(b"\"\xff\"", "").is_err());
}

#[test]
fn texts_are_found_in_values() {
    let mut object = serde_json::Map::new();
    object.insert(
        "name".to_string(),
        serde_json::Value::String("text".to_string()),
    );
    object.insert("flag".to_string(), serde_json::Value::Bool(true));
    let value = serde_json::Value::Object(object);
    assert_eq!(text_in(&value, "/name"), Some("text".to_string()));
    assert_eq!(text_in(&value, "/flag"), None);
    assert_eq!(text_in(&value, "/name/0"), None);
    assert_eq!(text_in(&value, ""), None);
    let text = serde_json::Value::String("whole".to_string());
    assert_eq!(text_in(&text, ""), Some("whole".to_string()));
}
