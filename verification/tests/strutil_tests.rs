use devcontainer_core::config::resolve_local_workspace_placeholders;
use devcontainer_core::strutil::{
    i32_to_string, join_path, path_basename, path_parent, replace_str, str_contains, trim_str,
    u64_to_string,
};

#[test]
fn replace_substitutes_every_occurrence() {
    assert_eq!(replace_str("a-b-c", "-", "+"), "a+b+c");
    assert_eq!(replace_str("aaa", "aa", "b"), "ba");
    assert_eq!(replace_str("nothing here", "xyz", "!"), "nothing here");
}

#[test]
fn contains_finds_substrings() {
    assert!(str_contains("Error: No such network: net-1", "No such network"));
    assert!(!str_contains("permission denied", "No such network"));
    assert!(str_contains("anything", ""));
}

#[test]
fn trim_removes_surrounding_whitespace() {
    assert_eq!(trim_str("  hello \n"), "hello");
    assert_eq!(trim_str("\t\t"), "");
    assert_eq!(trim_str("no-trim"), "no-trim");
}

#[test]
fn join_path_handles_absolute_and_relative_children() {
    assert_eq!(join_path("/root", "child"), "/root/child");
    assert_eq!(join_path("/root/", "child"), "/root/child");
    assert_eq!(join_path("/root", "/abs"), "/abs");
    assert_eq!(join_path("", "child"), "child");
}

#[test]
fn basename_and_parent_follow_path_rules() {
    assert_eq!(path_basename("/a/b/c").as_deref(), Some("c"));
    assert_eq!(path_basename("/a/b/").as_deref(), Some("b"));
    assert_eq!(path_basename("/"), None);
    assert_eq!(path_basename("a/.."), None);

    assert_eq!(path_parent("/a/b").as_deref(), Some("/a"));
    assert_eq!(path_parent("/a").as_deref(), Some("/"));
    assert_eq!(path_parent("/"), None);
    assert_eq!(path_parent("plain").as_deref(), Some(""));
}

#[test]
fn decimal_formatting_is_exact() {
    assert_eq!(u64_to_string(0), "0");
    assert_eq!(u64_to_string(65535), "65535");
    assert_eq!(i32_to_string(-1), "-1");
    assert_eq!(i32_to_string(5), "5");
    assert_eq!(i32_to_string(i32::MIN), "-2147483648");
}

#[test]
fn placeholders_substitute_root_and_basename() {
    assert_eq!(
        resolve_local_workspace_placeholders(
            "/workspace/${localWorkspaceFolderBasename}",
            "/home/user/myproj"
        ),
        "/workspace/myproj"
    );
    assert_eq!(
        resolve_local_workspace_placeholders("${localWorkspaceFolder}/src", "/home/user/myproj"),
        "/home/user/myproj/src"
    );
    assert_eq!(
        resolve_local_workspace_placeholders("no placeholders", "/home/user/myproj"),
        "no placeholders"
    );
}
