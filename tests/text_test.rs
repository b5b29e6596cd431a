use ci_generate::text::{
    chars_of, comment_license, has_char, hyphens_to_underscores, join_path, same_text,
    string_of, text_concat, text_lines,
};

#[test]
fn hyphens_become_underscores() {
    assert_eq!(hyphens_to_underscores("my-lib-name"), "my_lib_name");
    assert_eq!(hyphens_to_underscores("plain"), "plain");
    assert_eq!(hyphens_to_underscores(""), "");
}

#[test]
fn lines_split_like_str_lines() {
    assert_eq!(text_lines(""), Vec::<String>::new());
    assert_eq!(text_lines("a\nb"), vec!["a", "b"]);
    assert_eq!(text_lines("a\r\nb\n"), vec!["a", "b"]);
    assert_eq!(text_lines("a\n\nb\n\n"), vec!["a", "", "b", ""]);
    assert_eq!(text_lines("\n"), vec![""]);
    for text in ["x\ny\r\nz", "\n\nq\n", "one", "a\rb\n"] {
        let expected: Vec<String> = text.lines().map(|l| l.to_string()).collect();
        assert_eq!(text_lines(text), expected);
    }
}

#[test]
fn comment_marks_every_line() {
    assert_eq!(comment_license("MIT License\n\nCopyright", "//"), "// MIT License\n//\n// Copyright");
    assert_eq!(comment_license("one line\n", "#"), "# one line");
    assert_eq!(comment_license("", "#"), "");
}

#[test]
fn paths_join_with_one_separator() {
    assert_eq!(join_path("/tmp/proj", "README.md"), "/tmp/proj/README.md");
    assert_eq!(join_path("/tmp", ".github"), "/tmp/.github");
}

#[test]
fn small_text_helpers() {
    assert_eq!(text_concat("proj", ".yml"), "proj.yml");
    assert!(same_text("abc", "abc"));
    assert!(!same_text("abc", "abd"));
    assert!(!same_text("abc", "ab"));
    assert!(has_char("a/b", '/'));
    assert!(!has_char("ab", '/'));
    assert_eq!(chars_of("héllo"), vec!['h', 'é', 'l', 'l', 'o']);
    assert_eq!(string_of(&vec!['o', 'k']), "ok");
}
