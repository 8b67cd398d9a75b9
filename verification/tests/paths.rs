use spinexus::paths::{cache_path, sanitize_entry_path};

fn comps(parts: &[&str]) -> Option<Vec<String>> {
    Some(parts.iter().map(|p| p.to_string()).collect())
}

#[test]
fn cache_path_plain_join() {
    assert_eq!(cache_path("cache", "x.zip"), "cache/x.zip");
}

#[test]
fn cache_path_keeps_single_separator() {
    assert_eq!(cache_path("cache/", "x.zip"), "cache/x.zip");
}

#[test]
fn cache_path_empty_directory() {
    assert_eq!(cache_path("", "x.zip"), "x.zip");
}

#[test]
fn cache_path_absolute_filename_wins() {
    assert_eq!(cache_path("cache", "/elsewhere/x.zip"), "/elsewhere/x.zip");
}

#[test]
fn sanitize_plain_name() {
    assert_eq!(sanitize_entry_path("a.txt"), comps(&["a.txt"]));
}

#[test]
fn sanitize_nested_name() {
    assert_eq!(sanitize_entry_path("dir/b.txt"), comps(&["dir", "b.txt"]));
}

#[test]
fn sanitize_directory_marker() {
    assert_eq!(sanitize_entry_path("dir/"), comps(&["dir"]));
}

#[test]
fn sanitize_rejects_traversal() {
    assert_eq!(sanitize_entry_path("../../evil.txt"), None);
}

#[test]
fn sanitize_rejects_traversal_after_descent() {
    assert_eq!(sanitize_entry_path("a/../../evil.txt"), None);
}

#[test]
fn sanitize_rejects_absolute_path() {
    assert_eq!(sanitize_entry_path("/etc/evil.txt"), None);
}

#[test]
fn sanitize_rejects_nul() {
    assert_eq!(sanitize_entry_path("a\0b.txt"), None);
}

#[test]
fn sanitize_neutralizes_balanced_parent_steps() {
    assert_eq!(sanitize_entry_path("a/../b.txt"), comps(&["b.txt"]));
}

#[test]
fn sanitize_drops_empty_and_current_components() {
    assert_eq!(sanitize_entry_path("./a//b.txt"), comps(&["a", "b.txt"]));
}

#[test]
fn sanitize_empty_name_resolves_to_root() {
    assert_eq!(sanitize_entry_path(""), comps(&[]));
}

#[test]
fn sanitize_fully_cancelled_name_resolves_to_root() {
    assert_eq!(sanitize_entry_path("a/.."), comps(&[]));
}

#[test]
fn sanitize_keeps_unicode_names() {
    assert_eq!(sanitize_entry_path("ärchiv/naïve.txt"), comps(&["ärchiv", "naïve.txt"]));
}

#[test]
fn sanitize_rejects_backslash_names() {
    assert_eq!(sanitize_entry_path("..\\..\\evil.txt"), None);
    assert_eq!(sanitize_entry_path("dir\\file.txt"), None);
}

#[test]
fn sanitize_rejects_lone_parent_step() {
    assert_eq!(sanitize_entry_path(".."), None);
}
