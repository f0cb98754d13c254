use nixos_updater::paths::{
    bytes_eq, path_components, path_is_absolute, path_join, paths_same_components,
};
use nixos_updater::text::{contains_bytes, decimal};
use std::path::{Component, Path, PathBuf};

#[test]
fn components_are_the_runs_between_separators() {
    let parts = path_components(b"/nix/store/abc-x/bin");
    assert_eq!(parts, vec![b"nix".to_vec(), b"store".to_vec(), b"abc-x".to_vec(), b"bin".to_vec()]);
    assert_eq!(path_components(b"a"), vec![b"a".to_vec()]);
    assert_eq!(path_components(b"a/b"), vec![b"a".to_vec(), b"b".to_vec()]);
}

#[test]
fn components_skip_empty_runs_and_single_dots() {
    assert!(path_components(b"").is_empty());
    assert!(path_components(b"/").is_empty());
    assert!(path_components(b"///").is_empty());
    assert!(path_components(b"/./.").is_empty());
    assert_eq!(path_components(b"//a///b/"), vec![b"a".to_vec(), b"b".to_vec()]);
    assert_eq!(path_components(b"/a/./b/."), vec![b"a".to_vec(), b"b".to_vec()]);
    assert_eq!(
        path_components(b"/a/../.b/..."),
        vec![b"a".to_vec(), b"..".to_vec(), b".b".to_vec(), b"...".to_vec()]
    );
}

#[test]
fn components_agree_with_std_on_absolute_paths() {
    let cases = [
        "/", "/a", "/a/", "//a//b", "/a/./b", "/./a", "/a/..", "/../a", "/a/.../b", "/.a/b.",
        "/nix/store/x-y/bin/switch-to-configuration", "/a/b/c/d/e/f/g",
    ];
    for c in cases {
        let expected: Vec<Vec<u8>> = Path::new(c)
            .components()
            .filter(|part| !matches!(part, Component::RootDir))
            .map(|part| part.as_os_str().to_str().unwrap().as_bytes().to_vec())
            .collect();
        assert_eq!(path_components(c.as_bytes()), expected, "{:?}", c);
    }
}

#[test]
fn absolute_paths_begin_with_a_separator() {
    assert!(path_is_absolute(b"/"));
    assert!(path_is_absolute(b"/a"));
    assert!(!path_is_absolute(b""));
    assert!(!path_is_absolute(b"a/"));
    assert!(!path_is_absolute(b"./a"));
}

#[test]
fn join_pushes_as_a_path_buffer_does() {
    let bases = ["", "/", "/a", "/a/", "a", "a/b/", "/a//"];
    let rels = ["", "b", "b/c", "/b", "./b", "../b", "b/", "//b"];
    for base in bases {
        for rel in rels {
            let mut expected = PathBuf::from(base);
            expected.push(rel);
            assert_eq!(
                path_join(base.as_bytes(), rel.as_bytes()),
                expected.to_str().unwrap().as_bytes(),
                "{:?} {:?}",
                base,
                rel
            );
        }
    }
}

#[test]
fn same_components_ignores_how_the_separators_stand() {
    assert!(paths_same_components(b"/a/b", b"/a/b"));
    assert!(paths_same_components(b"/a/b", b"//a/./b/"));
    assert!(paths_same_components(b"", b"/"));
    assert!(!paths_same_components(b"/a/b", b"/a"));
    assert!(!paths_same_components(b"/a/b", b"/a/c"));
    assert!(!paths_same_components(b"/a/b", b"/a/b/c"));
    assert!(!paths_same_components(b"/ab", b"/a/b"));
}

#[test]
fn bytes_are_equal_when_all_are() {
    assert!(bytes_eq(b"", b""));
    assert!(bytes_eq(b"abc", b"abc"));
    assert!(!bytes_eq(b"abc", b"abd"));
    assert!(!bytes_eq(b"abc", b"ab"));
    assert!(!bytes_eq(b"", b"a"));
}

#[test]
fn contains_finds_a_run_of_bytes() {
    assert!(contains_bytes(b"hello world", b"lo w"));
    assert!(contains_bytes(b"hello world", b"hello"));
    assert!(contains_bytes(b"hello world", b"world"));
    assert!(contains_bytes(b"hello world", b"hello world"));
    assert!(contains_bytes(b"hello world", b""));
    assert!(contains_bytes(b"", b""));
    assert!(!contains_bytes(b"", b"a"));
    assert!(!contains_bytes(b"hello world", b"worlds"));
    assert!(!contains_bytes(b"hello world", b"hello world!"));
    assert!(!contains_bytes(b"aaab", b"aab "));
    assert!(contains_bytes(b"aaab", b"aab"));
}

#[test]
fn contains_agrees_with_std() {
    let hays = ["", "a", "ab", "aab", "abab", "updating lock file", "xx updating  lock file"];
    let needles = ["", "a", "b", "ab", "ba", "aab", "lock", "updating lock file"];
    for hay in hays {
        for needle in needles {
            assert_eq!(
                contains_bytes(hay.as_bytes(), needle.as_bytes()),
                hay.contains(needle),
                "{:?} {:?}",
                hay,
                needle
            );
        }
    }
}

#[test]
fn decimal_writes_digits() {
    assert_eq!(decimal(0), "0");
    assert_eq!(decimal(7), "7");
    assert_eq!(decimal(10), "10");
    assert_eq!(decimal(109), "109");
    assert_eq!(decimal(65536), "65536");
    assert_eq!(decimal(usize::MAX), usize::MAX.to_string());
}
