use prequery_preprocess::world::resolve;

#[test]
fn resolve_keeps_plain_paths_below_the_root() {
    assert_eq!(resolve("assets/example.png", ""), Some("assets/example.png".to_string()));
    assert_eq!(resolve("assets/example.png", "."), Some("./assets/example.png".to_string()));
    assert_eq!(resolve("assets/example.png", "root"), Some("root/assets/example.png".to_string()));
    assert_eq!(resolve("a.png", "root/"), Some("root/a.png".to_string()));
    assert_eq!(resolve("a.png", "/"), Some("/a.png".to_string()));
}

#[test]
fn resolve_ignores_empty_and_current_names() {
    assert_eq!(resolve("", "root"), Some("root".to_string()));
    assert_eq!(resolve(".", "root"), Some("root".to_string()));
    assert_eq!(resolve("/a//b/./c/", "root"), Some("root/a/b/c".to_string()));
    assert_eq!(resolve("./a", ""), Some("a".to_string()));
}

#[test]
fn resolve_follows_parent_names_inside_the_root() {
    assert_eq!(resolve("a/../b", "root"), Some("root/b".to_string()));
    assert_eq!(resolve("a/b/../../c", "root"), Some("root/c".to_string()));
    assert_eq!(resolve("a/..", "root"), Some("root".to_string()));
    assert_eq!(resolve("a/...", "root"), Some("root/a/...".to_string()));
}

#[test]
fn resolve_refuses_paths_that_leave_the_root() {
    assert_eq!(resolve("../example.png", ""), None);
    assert_eq!(resolve("..", "root"), None);
    assert_eq!(resolve("a/../../b", "root"), None);
    assert_eq!(resolve("a/../../b/c/d", "root"), None);
    assert_eq!(resolve("/..", "root"), None);
}
