use alacritree::path_style::{render, split, PathStyle};


/// The identity guarantee: an unmodified config renders every path
/// byte-for-byte, home directory included.
#[test]
fn full_is_the_identity() {
    let home = Some("/home/lev");
    for path in [
        "",
        "/",
        "src/app.rs",
        "/home/lev/Git/x/y.rs",
        r"C:\Program Files\Git",
        r"C:",
        r"C:foo\bar",
        r"\\server\share\x",
        r"\\wsl.localhost\kali-linux\home\lev",
        r"\\?\UNC\wsl.localhost\kali-linux\home\lev",
        r"\\?\C:\Users\Lev",
        r"dir/name\part.txt",
        "a/b/",
    ] {
        assert_eq!(render(path, PathStyle::Full, home), path, "Full changed {path:?}");
        assert_eq!(render(path, PathStyle::Full, None), path, "Full changed {path:?}");
    }
}

#[test]
fn split_recognizes_roots_before_separators() {
    let cases: &[(&str, (&str, &str, &str))] = &[
        ("", ("", "", "")),
        ("/", ("/", "", "")),
        (r"C:\", (r"C:\", "", "")),
        ("C:", ("C:", "", "")),
        ("C:foo", ("C:", "", "foo")),
        (r"C:foo\bar", ("C:", r"f\", "bar")),
        ("f.txt", ("", "", "f.txt")),
        ("/f.txt", ("/", "", "f.txt")),
        ("a/b/", ("", "a/", "b")),
        (r"C:\Program Files\Git", (r"C:\", r"P\", "Git")),
        (r"\\server\share\a\b.txt", (r"\\server\share\", r"a\", "b.txt")),
        (
            r"\\wsl.localhost\kali-linux\home\lev\x.rs",
            (r"\\wsl.localhost\kali-linux\", r"h\l\", "x.rs"),
        ),
        (r"\\?\C:\Users\Lev\x", (r"\\?\C:\", r"U\L\", "x")),
        (r"\\?\UNC\server\share\a\b", (r"\\?\UNC\server\share\", r"a\", "b")),
    ];
    for (input, (root, parent, name)) in cases {
        let parts = split(input, PathStyle::Fish, None);
        assert_eq!(
            (parts.root.as_str(), parts.parent.as_str(), parts.name.as_str()),
            (*root, *parent, *name),
            "split({input:?})"
        );
    }
}

/// Backslash and `:` are legal in a Unix filename, so a path that does
/// not match a Windows root prefix must split only on `/`.
#[test]
fn a_unix_filename_may_contain_a_backslash_or_colon() {
    let parts = split(r"dir/name\part.txt", PathStyle::Fish, None);
    assert_eq!(parts.root, "");
    assert_eq!(parts.parent, "d/");
    assert_eq!(parts.name, r"name\part.txt");

    let parts = split(r"dir/name:\part", PathStyle::Fish, None);
    assert_eq!(parts.name, r"name:\part");
}

/// Windows paths spelled with forward slashes split on either separator
/// and re-join with a backslash.
#[test]
fn a_drive_path_accepts_forward_slashes() {
    assert_eq!(render("C:/Users/Lev/x.rs", PathStyle::Fish, None), r"C:\U\L\x.rs");
}

#[test]
fn fish_abbreviates_parents_and_keeps_a_leading_dot() {
    assert_eq!(render("path/to/file.txt", PathStyle::Fish, None), "p/t/file.txt");
    assert_eq!(render("/a/.config/nvim/init.lua", PathStyle::Fish, None), "/a/.c/n/init.lua");
    assert_eq!(render("f.txt", PathStyle::Fish, None), "f.txt");
    assert_eq!(render("/", PathStyle::Fish, None), "/");
    assert_eq!(render("", PathStyle::Fish, None), "");
}

/// Zed gets the same input classes as Fish — drive-relative, UNC, dotted,
/// trailing separator, empty, root-only — because the reorder is where a
/// root can most easily be dropped or duplicated.
#[test]
fn zed_swaps_the_name_ahead_of_the_parent_and_keeps_the_root() {
    assert_eq!(render("path/to/file.txt", PathStyle::Zed, None), "file.txt path/to/");
    assert_eq!(render("/a/b/c.txt", PathStyle::Zed, None), "c.txt /a/b/");
    // No parent: the bare name, no trailing space — but the root stays.
    assert_eq!(render("f.txt", PathStyle::Zed, None), "f.txt");
    assert_eq!(render("/f.txt", PathStyle::Zed, None), "/f.txt");
    assert_eq!(render(r"C:\f.txt", PathStyle::Zed, None), r"C:\f.txt");
    assert_eq!(render("", PathStyle::Zed, None), "");
    assert_eq!(render("/", PathStyle::Zed, None), "/");
    assert_eq!(render("C:", PathStyle::Zed, None), "C:");
    // Drive-relative: no separator may appear after the root.
    assert_eq!(render(r"C:foo\bar", PathStyle::Zed, None), r"bar C:foo\");
    assert_eq!(render("a/b/", PathStyle::Zed, None), "b a/");
    assert_eq!(render("/a/.config/init.lua", PathStyle::Zed, None), "init.lua /a/.config/");
    assert_eq!(
        render(r"\\wsl.localhost\kali-linux\home\lev\x.rs", PathStyle::Zed, None),
        r"x.rs \\wsl.localhost\kali-linux\home\lev\"
    );
}

#[test]
fn home_collapses_for_fish_and_zed_only() {
    let home = Some("/home/lev");
    assert_eq!(render("/home/lev/Git/x/y.rs", PathStyle::Fish, home), "~/G/x/y.rs");
    assert_eq!(render("/home/lev/Git/x/y.rs", PathStyle::Zed, home), "y.rs ~/Git/x/");
    assert_eq!(render("/home/lev", PathStyle::Fish, home), "~");
    assert_eq!(render("/home/lev/Git/x/y.rs", PathStyle::Full, home), "/home/lev/Git/x/y.rs");
    // A sibling directory whose name merely starts with the home prefix
    // is not inside it.
    assert_eq!(render("/home/levi/x.rs", PathStyle::Fish, home), "/h/l/x.rs");
    // No home, no guess.
    assert_eq!(render("/home/lev/Git/y.rs", PathStyle::Fish, None), "/h/l/G/y.rs");
}

#[test]
fn home_matching_is_case_and_separator_insensitive_on_windows_paths() {
    let home = Some(r"C:\Users\Lev");
    assert_eq!(render(r"c:\users\lev\Git\y.rs", PathStyle::Fish, home), r"~\G\y.rs");
    assert_eq!(render("C:/Users/Lev/Git/y.rs", PathStyle::Fish, home), r"~\G\y.rs");
    // NTFS folds case past ASCII, so `to_ascii_lowercase` is not enough.
    assert_eq!(
        render(r"c:\üsers\lev\Git\y.rs", PathStyle::Fish, Some(r"C:\Üsers\Lev")),
        r"~\G\y.rs"
    );
    // POSIX paths compare exactly — case matters on a Unix filesystem.
    assert_eq!(render("/HOME/LEV/y.rs", PathStyle::Fish, Some("/home/lev")), "/H/L/y.rs");
    // A home of nothing but separators would collapse every absolute path.
    assert_eq!(render("/a/b.rs", PathStyle::Fish, Some("/")), "/a/b.rs");
}

/// The distro is the UNC *share*, so it is part of the root and never
/// abbreviates away.
#[test]
fn a_wsl_unc_root_is_never_abbreviated() {
    assert_eq!(
        render(r"\\wsl.localhost\kali-linux\home\lev\x.rs", PathStyle::Fish, None),
        r"\\wsl.localhost\kali-linux\h\l\x.rs"
    );
}

/// `split_root` and `strip_home` index by byte, and a slice landing mid
/// character panics rather than degrading — so a non-ASCII path is not an
/// edge case, it is a crash waiting for a user with an accent in a
/// directory name.
#[test]
fn multibyte_paths_do_not_panic() {
    for path in ["Ä/Ö/ü.rs", "/日本/語/x.rs", "Ä:foo", "日本語", "/Ä", "C:Ä\\ö"] {
        let _ = render(path, PathStyle::Fish, Some("/日本"));
        let _ = render(path, PathStyle::Zed, Some("Ä"));
        let _ = render(path, PathStyle::Fish, None);
    }
}
