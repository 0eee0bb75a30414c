use void_mod_manager::paths::{sanitize_entry_name, is_dir_name, RelPath};
use void_mod_manager::download::{infer_extension, is_supported_container, staging_file_name};
use void_mod_manager::u32_to_string;
use void_mod_manager::ModManagerError;

fn parts(p: &RelPath) -> Vec<String> {
    p.parts.clone()
}

#[test]
fn renders_zero() {
    assert_eq!(u32_to_string(0), "0");
}

#[test]
fn renders_typical_id() {
    assert_eq!(u32_to_string(42), "42");
}

#[test]
fn renders_largest_id() {
    assert_eq!(u32_to_string(u32::MAX), "4294967295");
}

#[test]
fn sanitize_plain_entry() {
    let p = sanitize_entry_name("Foo/bar.txt").unwrap();
    assert_eq!(parts(&p), vec!["Foo".to_string(), "bar.txt".to_string()]);
}

#[test]
fn sanitize_skips_empty_and_dot_components() {
    let p = sanitize_entry_name("a//b/./c").unwrap();
    assert_eq!(
        parts(&p),
        vec!["a".to_string(), "b".to_string(), "c".to_string()]
    );
}

#[test]
fn sanitize_resolves_inner_traversal() {
    let p = sanitize_entry_name("foo/../bar.txt").unwrap();
    assert_eq!(parts(&p), vec!["bar.txt".to_string()]);
}

#[test]
fn sanitize_rejects_escape() {
    assert!(sanitize_entry_name("../evil.txt").is_none());
    assert!(sanitize_entry_name("foo/../../evil.txt").is_none());
}

#[test]
fn sanitize_rejects_nul() {
    assert!(sanitize_entry_name("fo\u{0}o").is_none());
}

#[test]
fn sanitize_handles_backslashes() {
    let p = sanitize_entry_name("Foo\\bar.txt").unwrap();
    assert_eq!(parts(&p), vec!["Foo".to_string(), "bar.txt".to_string()]);
}

#[test]
fn sanitize_absolute_becomes_relative() {
    let p = sanitize_entry_name("/Foo/bar.txt").unwrap();
    assert_eq!(parts(&p), vec!["Foo".to_string(), "bar.txt".to_string()]);
}

#[test]
fn dir_names_end_with_separator() {
    assert!(is_dir_name("Foo/"));
    assert!(is_dir_name("Foo\\"));
    assert!(!is_dir_name("Foo"));
    assert!(!is_dir_name(""));
}

#[test]
fn extension_of_typical_url() {
    assert_eq!(infer_extension("https://example/files/pack.zip"), "zip");
}

#[test]
fn extension_defaults_to_unknown() {
    assert_eq!(infer_extension("https://example/files/pack"), "unknown");
    assert_eq!(infer_extension(""), "unknown");
}

#[test]
fn extension_ignores_leading_dot_name() {
    assert_eq!(infer_extension("https://example/files/.hidden"), "unknown");
}

#[test]
fn extension_of_trailing_dot_is_empty() {
    assert_eq!(infer_extension("https://example/files/pack."), "");
}

#[test]
fn extension_uses_last_dot() {
    assert_eq!(infer_extension("https://example/files/pack.tar.gz"), "gz");
}

#[test]
fn extension_ignores_trailing_slashes() {
    assert_eq!(infer_extension("https://example/files/pack.zip//"), "zip");
}

#[test]
fn only_zip_is_supported() {
    assert!(is_supported_container(&"zip".to_string()));
    assert!(!is_supported_container(&"rar".to_string()));
    assert!(!is_supported_container(&"unknown".to_string()));
}

#[test]
fn staging_name_joins_id_and_extension() {
    assert_eq!(staging_file_name(42, &"zip".to_string()), "42.zip");
    assert_eq!(staging_file_name(7, &"unknown".to_string()), "7.unknown");
}

#[test]
fn relpath_prefix_operations() {
    let a = sanitize_entry_name("Foo/bar/baz.txt").unwrap();
    let foo = sanitize_entry_name("Foo").unwrap();
    let other = sanitize_entry_name("Bar").unwrap();
    assert!(a.starts_with(&foo));
    assert!(!a.starts_with(&other));
    let stripped = a.strip_prefix(&foo);
    assert_eq!(
        parts(&stripped),
        vec!["bar".to_string(), "baz.txt".to_string()]
    );
    let back = foo.concat(&stripped);
    assert_eq!(parts(&back), parts(&a));
    let parent = a.parent();
    assert_eq!(parts(&parent), vec!["Foo".to_string(), "bar".to_string()]);
}

#[test]
fn error_messages_name_their_kind() {
    let e = ModManagerError::NetworkError("host unreachable".to_string());
    assert_eq!(e.message(), "Network error: host unreachable");
    let e = ModManagerError::FileSystemError("disk full".to_string());
    assert_eq!(e.message(), "File system error: disk full");
    let e = ModManagerError::ParseError("bad json".to_string());
    assert_eq!(e.message(), "JSON Parse error: bad json");
}
