use nx_cache::paths::{is_valid_hash_dir_name, path_join, strip_dir_prefix};
use nx_cache::{CacheError, CachedResult};

#[test]
fn hash_dir_name_convention() {
    assert!(is_valid_hash_dir_name("123"));
    assert!(is_valid_hash_dir_name("0"));
    assert!(!is_valid_hash_dir_name(""));
    assert!(!is_valid_hash_dir_name("12a"));
    assert!(!is_valid_hash_dir_name("h1"));
    assert!(!is_valid_hash_dir_name("terminalOutputs"));
}

#[test]
fn join_and_strip_are_inverses() {
    let base = "/cache/root".to_string();
    let joined = path_join(&base, "42");
    assert_eq!(joined, "/cache/root/42");
    assert_eq!(strip_dir_prefix(&joined, &base), Some("42".to_string()));
    assert_eq!(strip_dir_prefix(&"/elsewhere/42".to_string(), &base), None);
    assert_eq!(strip_dir_prefix(&base, &base), None);
}

#[test]
fn default_cached_result_is_empty() {
    let d = CachedResult::default();
    assert_eq!(d.code, 0);
    assert_eq!(d.terminal_output, "");
    assert_eq!(d.outputs_path, "");
}

#[test]
fn default_ttl_is_seven_days() {
    assert_eq!(nx_cache::DEFAULT_TTL_SECONDS, 7 * 24 * 60 * 60);
}

#[test]
fn error_messages_carry_context() {
    assert_eq!(
        CacheError::DuplicateHash.message(),
        "an entry for this hash is already cached"
    );
    assert!(CacheError::DuplicateHash.is_index_failure());
    let e = CacheError::FilesystemFailure("disk gone".to_string());
    assert!(e.is_filesystem_failure());
    assert_eq!(e.message(), "disk gone");
}
