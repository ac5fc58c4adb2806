use blog_core::blog::{fairing, BlogEntry, BlogIndex};
use blog_core::errors::{LoadError, RenderError};
use blog_core::manifest::{build_index, load_from_str, RawEntry};
use blog_core::render::render_read;

fn entry(key: &str, path: &str, title: &str) -> BlogEntry {
    BlogEntry { key: key.to_string(), path: path.to_string(), title: title.to_string() }
}

#[test]
fn load_keeps_manifest_order() {
    let text = r#"
entries = [
    { title = "A", filename = "a.md" },
    { title = "B", filename = "b.md" },
]
"#;
    let idx = load_from_str(text, "content").unwrap();
    let entries = idx.list();
    assert_eq!(entries.len(), 2);
    assert_eq!(entries[0].key, "a");
    assert_eq!(entries[0].path, "content/a.md");
    assert_eq!(entries[0].title, "A");
    assert_eq!(entries[1].key, "b");
    assert_eq!(entries[1].path, "content/b.md");
    assert_eq!(entries[1].title, "B");
}

#[test]
fn load_never_reorders() {
    // Deliberately not alphabetical by filename or by title.
    let text = r#"
entries = [
    { title = "Zebra", filename = "z.md" },
    { title = "Apple", filename = "a.md" },
    { title = "Mango", filename = "m.md" },
]
"#;
    let idx = load_from_str(text, "c").unwrap();
    let keys: Vec<&str> = idx.list().iter().map(|e| e.key.as_str()).collect();
    assert_eq!(keys, vec!["z", "a", "m"]);
}

#[test]
fn load_empty_manifest() {
    let idx = load_from_str("entries = []\n", "content").unwrap();
    assert_eq!(idx.list().len(), 0);
}

#[test]
fn load_rejects_missing_entries_field() {
    let r = load_from_str("title = \"not a manifest\"\n", "content");
    assert!(matches!(r, Err(LoadError::Parse(_))));
}

#[test]
fn load_rejects_wrong_field_types() {
    let r = load_from_str("entries = [ { title = 3, filename = \"a.md\" } ]\n", "content");
    assert!(matches!(r, Err(LoadError::Parse(_))));
    let r = load_from_str("entries = \"a.md\"\n", "content");
    assert!(matches!(r, Err(LoadError::Parse(_))));
    let r = load_from_str("entries = [ { title = \"A\" } ]\n", "content");
    assert!(matches!(r, Err(LoadError::Parse(_))));
}

#[test]
fn load_rejects_truncated_document() {
    let r = load_from_str("entries = [ { title = \"A\",", "content");
    assert!(matches!(r, Err(LoadError::Parse(_))));
}

#[test]
fn build_index_derives_descriptors() {
    let items = vec![
        RawEntry { title: "First".to_string(), filename: "first.md".to_string() },
        RawEntry { title: "Second".to_string(), filename: "notes/second.txt".to_string() },
    ];
    let idx = build_index(&items, "blog");
    let entries = idx.list();
    assert_eq!(entries.len(), 2);
    assert_eq!(entries[0].key, "first");
    assert_eq!(entries[0].path, "blog/first.md");
    assert_eq!(entries[0].title, "First");
    assert_eq!(entries[1].key, "second");
    assert_eq!(entries[1].path, "blog/notes/second.txt");
}

#[test]
fn find_matches_byte_for_byte() {
    let idx = BlogIndex {
        entries: vec![entry("a", "c/a.md", "A"), entry("b", "c/b.md", "B")],
    };
    assert_eq!(idx.find("b"), Some(1));
    assert_eq!(idx.find("B"), None);
    assert_eq!(idx.find(""), None);
}

#[test]
fn entry_source_not_found() {
    let idx = BlogIndex { entries: vec![entry("a", "c/a.md", "A")] };
    let r = idx.entry_source("missing");
    assert_eq!(r, Err(RenderError::NotFound("missing".to_string())));
}

#[test]
fn entry_source_resolves_path() {
    let idx = BlogIndex { entries: vec![entry("a", "c/a.md", "A")] };
    assert_eq!(idx.entry_source("a"), Ok("c/a.md".to_string()));
}

#[test]
fn render_present_key_succeeds() {
    let idx = BlogIndex { entries: vec![entry("post", "c/post.md", "Post")] };
    let path = idx.entry_source("post").unwrap();
    assert_eq!(path, "c/post.md");
    // The host reads the file at `path`; here the read hands back valid Markdown.
    let r = render_read(Ok("# Title".to_string()));
    assert!(r.unwrap().contains("<h1>Title</h1>"));
}

#[test]
fn duplicate_keys_first_match_wins() {
    let idx = BlogIndex {
        entries: vec![entry("a", "c/one/a.md", "One"), entry("a", "c/two/a.md", "Two")],
    };
    assert_eq!(idx.find("a"), Some(0));
    assert_eq!(idx.entry_source("a"), Ok("c/one/a.md".to_string()));
}

#[test]
fn fairing_loads_index() {
    let f = fairing();
    let idx = f.load("entries = [ { title = \"A\", filename = \"a.md\" } ]\n", "content")
        .unwrap();
    assert_eq!(idx.list().len(), 1);
    assert_eq!(idx.list()[0].key, "a");
    let r = f.load("entries = oops", "content");
    assert!(matches!(r, Err(LoadError::Parse(_))));
}

#[test]
fn resources_fairing_exists() {
    let _f = blog_core::resources::fairing();
}
