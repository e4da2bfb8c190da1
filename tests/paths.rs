use strand::paths::{expand_user_path, starts_with_home_marker, str_eq};
use strand::{expand_path, get_config_dir, join_path};

#[test]
fn test_expand_path() {
    let home_dir = dirs::home_dir().unwrap();
    let home = home_dir.to_str().unwrap();

    assert_eq!(
        expand_path("~/foo.txt", home),
        home_dir.join("foo.txt").to_str().unwrap()
    );

    assert_eq!(
        expand_path("/home/person/foo.txt", home),
        "/home/person/foo.txt"
    );

    assert_eq!(
        expand_path("~/bar/baz/quux/foo.txt", home),
        home_dir.join("bar/baz/quux/foo.txt").to_str().unwrap()
    );
}

#[test]
fn expand_replaces_only_the_marker_segment() {
    assert_eq!(expand_path("~/a/b/c", "/home/u"), "/home/u/a/b/c");
    assert_eq!(expand_path("~/a/b/c", "/home/u/"), "/home/u/a/b/c");
    assert_eq!(expand_path("~", "/home/u"), "/home/u");
}

#[test]
fn expand_leaves_unmarked_paths_alone() {
    assert_eq!(expand_path("~foo/bar", "/home/u"), "~foo/bar");
    assert_eq!(expand_path("a/~/b", "/home/u"), "a/~/b");
    assert_eq!(expand_path("", "/home/u"), "");
    assert_eq!(expand_path("/abs/path", "/home/u"), "/abs/path");
}

#[test]
fn marker_detection() {
    assert!(starts_with_home_marker("~"));
    assert!(starts_with_home_marker("~/x"));
    assert!(!starts_with_home_marker("~x"));
    assert!(!starts_with_home_marker(""));
    assert!(!starts_with_home_marker("/~"));
}

#[test]
fn join_adds_one_separator() {
    assert_eq!(join_path("/etc", "strand"), "/etc/strand");
    assert_eq!(join_path("/etc/", "strand"), "/etc/strand");
    assert_eq!(join_path("", "strand"), "strand");
}

#[test]
fn string_equality() {
    assert!(str_eq("abc", "abc"));
    assert!(!str_eq("abc", "abd"));
    assert!(!str_eq("abc", "ab"));
    assert!(str_eq("", ""));
}

#[test]
fn unmarked_path_needs_no_home() {
    assert_eq!(expand_user_path("/opt/plugins"), Some(String::from("/opt/plugins")));
}

#[test]
fn marked_path_expands_against_home() {
    if let Some(home) = dirs::home_dir() {
        let expected = home.join("plugins");
        assert_eq!(
            expand_user_path("~/plugins"),
            Some(String::from(expected.to_str().unwrap()))
        );
    }
}

#[test]
fn config_dir_is_named_after_the_tool() {
    if let Some(dir) = get_config_dir() {
        assert!(dir.ends_with("/strand"));
        let root = dirs::config_dir().unwrap();
        assert_eq!(dir, root.join("strand").to_str().unwrap());
    }
}
