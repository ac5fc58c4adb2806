use blog_core::text::{join_path, str_eq, strip_extension};

#[test]
fn strip_extension_drops_last_extension() {
    assert_eq!(strip_extension("a.md"), "a");
    assert_eq!(strip_extension("archive.tar.gz"), "archive.tar");
    assert_eq!(strip_extension("noext"), "noext");
}

#[test]
fn strip_extension_takes_final_component() {
    assert_eq!(strip_extension("notes/b.md"), "b");
    assert_eq!(strip_extension("a.b/c"), "c");
    assert_eq!(strip_extension("deep/er/file.markdown"), "file");
}

#[test]
fn strip_extension_edge_cases() {
    assert_eq!(strip_extension(""), "");
    assert_eq!(strip_extension(".md"), "");
    assert_eq!(strip_extension("dir/"), "");
}

#[test]
fn join_path_inserts_one_separator() {
    assert_eq!(join_path("content", "a.md"), "content/a.md");
    assert_eq!(join_path("content/", "a.md"), "content/a.md");
    assert_eq!(join_path("", "a.md"), "a.md");
}

#[test]
fn str_eq_is_exact() {
    assert!(str_eq("key", "key"));
    assert!(!str_eq("key", "Key"));
    assert!(!str_eq("key", "key "));
    assert!(str_eq("", ""));
}
