use zerolog::{trim_fn_path, trim_src_path};

#[test]
fn trim_src_after_first_src_component() {
    assert_eq!(trim_src_path("/home/u/proj/src/lib.rs"), "lib.rs");
    assert_eq!(trim_src_path("/a/src/b/src/c.rs"), "b/src/c.rs");
}

#[test]
fn trim_src_leading_prefix() {
    assert_eq!(trim_src_path("src/main.rs"), "main.rs");
}

#[test]
fn trim_src_without_marker_is_unchanged() {
    assert_eq!(trim_src_path("main.rs"), "main.rs");
    assert_eq!(trim_src_path(""), "");
    assert_eq!(trim_src_path("sr"), "sr");
}

#[test]
fn trim_fn_after_last_separator() {
    assert_eq!(trim_fn_path("app::io::handler"), "handler");
    assert_eq!(trim_fn_path("a::b"), "b");
}

#[test]
fn trim_fn_without_separator_is_unchanged() {
    assert_eq!(trim_fn_path("plain"), "plain");
    assert_eq!(trim_fn_path(""), "");
}
