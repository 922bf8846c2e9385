use kusabira::path::{binding_file, is_plain_extension};
use std::path::{Path, MAIN_SEPARATOR};

#[test]
fn test_is_plain_extension() {
    assert!(is_plain_extension(""));
    assert!(is_plain_extension("in"));
    assert!(is_plain_extension("tar.gz"));
    assert!(!is_plain_extension("/"));
    assert!(!is_plain_extension("a/b"));
    assert!(!is_plain_extension("in/"));
    let separator = String::from(MAIN_SEPARATOR);
    assert!(!is_plain_extension(&separator));
    assert_eq!(
        is_plain_extension("a\\b"),
        !std::path::is_separator('\\')
    );
}

#[test]
fn test_binding_file() {
    let expected = Path::new("out").join("header.in");
    assert_eq!(
        binding_file("out", "src/sub/header.h", "in"),
        Some(expected.to_str().unwrap().to_string())
    );
    let expected = Path::new("out").join("header.tar.rs");
    assert_eq!(
        binding_file("out", "header.tar.gz", "rs"),
        Some(expected.to_str().unwrap().to_string())
    );
    let expected = Path::new("out").join("header.in");
    assert_eq!(
        binding_file("out", "header", "in"),
        Some(expected.to_str().unwrap().to_string())
    );
    let expected = Path::new("out").join("header");
    assert_eq!(
        binding_file("out", "src/header.h", ""),
        Some(expected.to_str().unwrap().to_string())
    );
    let expected = Path::new("").join("header.in");
    assert_eq!(
        binding_file("", "src/header.h", "in"),
        Some(expected.to_str().unwrap().to_string())
    );
}

#[test]
fn test_binding_file_is_the_one_that_the_standard_library_names() {
    for (out_dir, header, extension) in [
        ("/tmp/out_dir", "src/hello_world_export_to_rust.h", "in"),
        ("out/", "a/b/c.hpp", "rs"),
        (".", "./x.y.z", "bindings"),
        ("../out", "dir.d/header", "in"),
    ] {
        let mut expected = Path::new(out_dir).join(Path::new(header).file_name().unwrap());
        expected.set_extension(extension);
        assert_eq!(
            binding_file(out_dir, header, extension),
            Some(expected.to_str().unwrap().to_string())
        );
    }
}

#[test]
fn test_binding_file_without_a_name() {
    assert_eq!(binding_file("out", "src/header.h", "a/b"), None);
    assert_eq!(binding_file("out", "..", "in"), None);
    assert_eq!(binding_file("out", "", "in"), None);
    assert_eq!(binding_file("out", "/", "in"), None);
}
