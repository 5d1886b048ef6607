use snescli::paths::{base_name, remote_name};

#[test]
fn base_name_plain() {
    assert_eq!(base_name("bar.bin"), Some("bar.bin".to_string()));
}

#[test]
fn base_name_nested_absolute() {
    assert_eq!(base_name("/a/b/c.bin"), Some("c.bin".to_string()));
}

#[test]
fn base_name_ignores_trailing_separator() {
    assert_eq!(base_name("a/b/"), Some("b".to_string()));
}

#[test]
fn base_name_empty() {
    assert_eq!(base_name(""), None);
}

#[test]
fn base_name_root() {
    assert_eq!(base_name("/"), None);
}

#[test]
fn base_name_all_separators() {
    assert_eq!(base_name("///"), None);
}

#[test]
fn base_name_current_dir() {
    assert_eq!(base_name("."), None);
}

#[test]
fn base_name_parent_dir() {
    assert_eq!(base_name(".."), None);
}

#[test]
fn base_name_ends_in_parent_dir() {
    assert_eq!(base_name("a/.."), None);
}

#[test]
fn base_name_hidden_file() {
    assert_eq!(base_name("/a/.config"), Some(".config".to_string()));
}

#[test]
fn remote_name_strips_one_trailing_separator() {
    assert_eq!(remote_name(&Some("foo/".to_string()), "bar.bin"), "foo/bar.bin");
}

#[test]
fn remote_name_strips_many_trailing_separators() {
    assert_eq!(remote_name(&Some("foo///".to_string()), "bar.bin"), "foo/bar.bin");
}

#[test]
fn remote_name_plain_directory() {
    assert_eq!(remote_name(&Some("foo".to_string()), "bar.bin"), "foo/bar.bin");
}

#[test]
fn remote_name_without_directory() {
    assert_eq!(remote_name(&None, "c.bin"), "c.bin");
}

#[test]
fn remote_name_empty_directory() {
    assert_eq!(remote_name(&Some("".to_string()), "x"), "/x");
}
