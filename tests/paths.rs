use copper::path::{extension_of, file_name_of, find_last, join, object_path_for, stem_of};

#[test]
fn join_adds_one_separator() {
    assert_eq!(join("proj", "build"), "proj/build");
    assert_eq!(join("proj/", "build"), "proj/build");
    assert_eq!(join("", "build"), "build");
}

#[test]
fn join_keeps_absolute_path() {
    assert_eq!(join("proj", "/usr/include"), "/usr/include");
}

#[test]
fn file_name_is_last_component() {
    assert_eq!(file_name_of("src/app/main.c"), "main.c");
    assert_eq!(file_name_of("main.c"), "main.c");
}

#[test]
fn stem_and_extension_split_at_last_dot() {
    assert_eq!(stem_of("main.c"), "main");
    assert_eq!(stem_of("lib.test.cpp"), "lib.test");
    assert_eq!(stem_of(".hidden"), ".hidden");
    assert_eq!(extension_of("main.cpp"), Some("cpp".to_string()));
    assert_eq!(extension_of(".hidden"), None);
    assert_eq!(extension_of("Makefile"), None);
}

#[test]
fn object_path_replaces_extension() {
    assert_eq!(object_path_for("proj/build/obj", "proj/src/a.c"), "proj/build/obj/a.o");
    assert_eq!(object_path_for("obj", "x/util.cpp"), "obj/util.o");
}

#[test]
fn find_last_reports_position() {
    assert_eq!(find_last("a/b/c", '/'), Some(3));
    assert_eq!(find_last("abc", '/'), None);
}
