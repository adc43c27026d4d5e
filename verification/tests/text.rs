use alacritree::json::{object, text, text_or_null, Json};
use alacritree::paths::{components_of, deepest_workspace, file_name, starts_with};
use alacritree::side::Platform;
use alacritree::text::{
    after_prefix, before, blank, chars_of, concat3, contains, decimal_text, from_chars,
    from_range, has_prefix, has_suffix, insert_sorted, is_listed, join, owned_trim_end, same,
    same_opt, same_texts, sort_set, split, split_either, trim,
};

fn owned(items: &[&str]) -> Vec<String> {
    items.iter().map(|item| item.to_string()).collect()
}

#[test]
fn texts_are_cut_and_joined() {
    assert_eq!(trim(" \t a b\u{a0}\n"), "a b");
    assert_eq!(owned_trim_end(" a \n"), " a");
    assert_eq!(concat3("a", "b", "c"), "abc");
    assert_eq!(join(&owned(&["a", "b", "c"]), ", "), "a, b, c");
    assert_eq!(join(&vec![], ", "), "");
    assert_eq!(split("a::b", ':'), ["a", "", "b"]);
    assert_eq!(split("", ':'), [""]);
    assert_eq!(split_either(r"a/b\c", '/', '\\'), ["a", "b", "c"]);
    assert_eq!(after_prefix("wsl:d", "wsl:").as_deref(), Some("d"));
    assert_eq!(after_prefix("native", "wsl:"), None);
    let word = chars_of("héllo");
    assert_eq!(from_chars(&word), "héllo");
    assert_eq!(from_range(&word, 1, 3), "él");
    assert!(has_prefix(&word, "hé") && has_suffix(&word, "llo") && !has_suffix(&word, "lo!"));
    assert!(contains("a b c", " b ") && contains("abc", "") && !contains("abc", "ac"));
    assert!(blank(" \u{3000}\n") && !blank(" x "));
    assert_eq!(decimal_text(0), "0");
    assert_eq!(decimal_text(u64::MAX), "18446744073709551615");
}

/// Texts are ordered by their bytes, which is the order of their characters.
#[test]
fn texts_are_ordered() {
    let list = ["", "a", "aa", "ab", "b", "\u{e9}", "\u{ffff}", "\u{10000}"];
    for (i, x) in list.iter().enumerate() {
        for (j, y) in list.iter().enumerate() {
            assert_eq!(before(x, y), x < y, "{x} {y}");
            assert_eq!(same(x, y), i == j);
        }
    }
}

#[test]
fn a_sorted_set_is_the_list_in_order() {
    assert_eq!(sort_set(owned(&["b", "a", "b", "c", "a"])), ["a", "b", "c"]);
    let mut list = owned(&["a", "c"]);
    insert_sorted(&mut list, "b".into());
    insert_sorted(&mut list, "b".into());
    assert_eq!(list, ["a", "b", "c"]);
    assert!(is_listed(&list, "b") && !is_listed(&list, "d"));
    assert!(same_texts(&list, &owned(&["a", "b", "c"])));
    assert!(!same_texts(&list, &owned(&["a", "b"])));
    assert!(same_opt(&None, &None) && !same_opt(&None, &Some("a".into())));
}

#[test]
fn the_workspace_found_is_the_deepest() {
    let workspaces = owned(&["/repo", "/repo/wt", "/other"]);
    let find = |cwd: &str| deepest_workspace(cwd, &workspaces, Platform::Unix);
    assert_eq!(find("/repo/wt/src").as_deref(), Some("/repo/wt"));
    assert_eq!(find("/repo/wtx").as_deref(), Some("/repo"));
    assert_eq!(find("/"), None);
}

#[test]
fn a_path_is_read_by_its_components() {
    assert_eq!(components_of("/a//b/./c/", Platform::Unix), components_of("/a/b/c", Platform::Unix));
    assert!(starts_with("/a/b", "/a", Platform::Unix));
    assert!(!starts_with("/ab", "/a", Platform::Unix));
    assert!(starts_with(r"C:\a\b", r"C:\a", Platform::Windows));
    assert_eq!(file_name("/a/b.txt", Platform::Unix).as_deref(), Some("b.txt"));
    assert_eq!(file_name("/", Platform::Unix), None);
}

#[test]
fn a_document_reads_back() {
    let line = r#"{"a":[null,true,-3,18446744073709551615,1.5,"é\n"],"b":{}}"#;
    let json = Json::parse(line).expect("a document");
    assert_eq!(json.line(), line);
    assert_eq!(Json::parse(&json.pretty()), Some(json.copy()));
    assert_eq!(
        json.get("a"),
        Some(&Json::Array(vec![
            Json::Null,
            Json::Bool(true),
            Json::Signed(-3),
            Json::Unsigned(u64::MAX),
            Json::Real("1.5".into()),
            text("é\n"),
        ]))
    );
    assert_eq!(json.get("c"), None);
    assert!(Json::parse("{").is_none() && Json::read("{").is_err());
}

#[test]
fn a_member_is_read_as_its_kind() {
    let json = object(vec![
        ("on".to_string(), Json::Bool(true)),
        ("name".to_string(), text("x")),
        ("none".to_string(), text_or_null(&None)),
    ]);
    assert_eq!(json.text_at("name").as_deref(), Some("x"));
    assert_eq!(json.opt_bool("on", 0), Ok(Some(true)));
    assert!(json.opt_bool("name", 0).is_err());
    assert_eq!(json.opt_text("none", 0), Ok(None));
    assert_eq!(json.opt_text("missing", 0), Ok(None));
    assert!(json.opt_text("on", 0).is_err());
    assert_eq!(json.get("name").and_then(Json::as_text).map(String::as_str), Some("x"));
}

/// The components a Windows path is read as.
fn windows(path: &str) -> Vec<String> {
    components_of(path, Platform::Windows)
}

#[test]
fn a_windows_path_is_read_by_its_prefix() {
    assert_eq!(windows(r"C:\a/b"), ["C:", "\\", "a", "b"]);
    assert_eq!(windows("C:a"), ["C:", "a"]);
    assert_eq!(windows("C:."), ["C:"]);
    assert_eq!(windows(r"\\srv\share\a"), [r"\\srv\share", "\\", "a"]);
    assert_eq!(windows("//srv/share"), ["//srv/share", "\\"]);
    assert_eq!(windows(r"\\srv"), ["\\", "srv"]);
    assert_eq!(windows(r"\\srv\"), ["\\", "srv"]);
    assert_eq!(windows(r"\\.\COM1\x"), [r"\\.\COM1", "\\", "x"]);
    assert_eq!(windows("//./COM1"), ["//./COM1", "\\"]);
}

/// Below a verbatim prefix a slash is a character like any other, and a dot a
/// name.
#[test]
fn a_verbatim_path_is_taken_as_it_is_spelled() {
    assert_eq!(windows(r"\\?\C:\a/b\.\c"), [r"\\?\C:", "\\", "a/b", ".", "c"]);
    assert_eq!(windows(r"\\?\C:"), [r"\\?\C:"]);
    assert_eq!(windows(r"\\?\C:x\y"), [r"\\?\C:x", "\\", "y"]);
    assert_eq!(windows(r"\\?\UNC\srv\share\a"), [r"\\?\UNC\srv\share", "\\", "a"]);
    assert_eq!(windows(r"\\?\UNC\srv"), [r"\\?\UNC\srv"]);
    assert_eq!(windows(r"\\?\UNC\srv\"), [r"\\?\UNC\srv", "\\"]);
    assert_eq!(windows(r"\\?\pictures\kittens"), [r"\\?\pictures", "\\", "kittens"]);
    assert_eq!(windows("//?/C:/a"), ["//?/C:", "\\", "a"]);
    assert_eq!(file_name(r"\\?\C:\a\.", Platform::Windows), None);
    assert_eq!(file_name(r"\\?\C:\a/b", Platform::Windows).as_deref(), Some("a/b"));
    assert_eq!(file_name(r"\\srv\share", Platform::Windows), None);
    assert_eq!(file_name(r"\\srv", Platform::Windows).as_deref(), Some("srv"));
    assert!(!starts_with(r"\\?\C:\a/b", r"\\?\C:\a", Platform::Windows));
}
