use std::path::MAIN_SEPARATOR;
use std::path::Path;

use folderwatch::joinPath;
use folderwatch::normalizePath;

#[test]
fn test_normalize_path() {
    assert_eq!(Path::new(""), Path::new(&normalizePath("")));
    assert_eq!(
        Path::new(&format!("{}", MAIN_SEPARATOR)),
        Path::new(&normalizePath(&format!("{}", MAIN_SEPARATOR)))
    );
    assert_eq!(Path::new("abc"), Path::new(&normalizePath("abc")));
    assert_eq!(Path::new(".abc"), Path::new(&normalizePath(".abc")));
    assert_eq!(
        Path::new(&format!("abc{}xxx", MAIN_SEPARATOR)),
        Path::new(&normalizePath(&format!("abc{}xxx", MAIN_SEPARATOR)))
    );
    assert_eq!(
        Path::new(&format!("abc{}xxx", MAIN_SEPARATOR)),
        Path::new(&normalizePath("abc/xxx"))
    );
}

#[test]
fn normalize_collapses_repeated_separators() {
    assert_eq!("abc/xxx", normalizePath("abc//xxx"));
    assert_eq!("/a/b/c", normalizePath("//a///b//c"));
}

#[test]
fn normalize_drops_trailing_separator_and_interior_dots() {
    assert_eq!("a/b", normalizePath("a/b/"));
    assert_eq!("a/b", normalizePath("a/./b/."));
    assert_eq!("/", normalizePath("/./"));
}

#[test]
fn normalize_keeps_leading_dot_and_parent_components() {
    assert_eq!("./a/b", normalizePath("./a/./b"));
    assert_eq!(".", normalizePath("."));
    assert_eq!("../a", normalizePath("../a"));
}

#[test]
fn normalize_agrees_with_std_path_components() {
    for case in [
        "", "/", ".", "./", "./a", "a/b/", "a//b", "a/./b", "/a/b/.", "..", "../x/..", ".hidden",
        "a/b/c/", "/x//y/",
    ] {
        let mut rebuilt = std::path::PathBuf::new();
        for comp in Path::new(case).components() {
            rebuilt.push(comp);
        }
        assert_eq!(rebuilt.to_str().unwrap(), normalizePath(case), "case {:?}", case);
    }
}

#[test]
fn join_path_inserts_exactly_one_separator() {
    assert_eq!("dir/a.txt", joinPath("dir", "a.txt"));
    assert_eq!("dir/a.txt", joinPath("dir/", "a.txt"));
    assert_eq!("a.txt", joinPath("", "a.txt"));
    assert_eq!("/abs/name", joinPath("ignored", "/abs/name"));
    assert_eq!(
        Path::new("base").join("leaf").to_str().unwrap(),
        joinPath("base", "leaf")
    );
}
