use nx_cache::{CachedResult, NxCache};

fn fresh_cache(name: &str) -> (String, String, NxCache) {
    let base = format!("/tmp/nx_cache_it_{}", name);
    fs_extra::remove_items(&[base.clone()]).unwrap();
    let workspace = format!("{}/workspace", base);
    let cache_dir = format!("{}/cache", base);
    fs_extra::dir::create_all(&workspace, true).unwrap();
    let conn = rusqlite::Connection::open_in_memory().unwrap();
    let cache = NxCache::new(workspace.clone(), cache_dir.clone(), conn).unwrap();
    (workspace, cache_dir, cache)
}

fn write_file(root: &str, rel: &str, content: &str) {
    let full = format!("{}/{}", root, rel);
    let (parent, _) = full.rsplit_once('/').unwrap();
    fs_extra::dir::create_all(parent, false).unwrap();
    fs_extra::file::write_all(&full, content).unwrap();
}

fn read_file(root: &str, rel: &str) -> String {
    fs_extra::file::read_to_string(format!("{}/{}", root, rel)).unwrap()
}

#[test]
fn miss_then_hit() {
    let (ws, cd, mut cache) = fresh_cache("miss_then_hit");
    assert!(cache.get("h1".to_string(), 100).unwrap().is_none());
    write_file(&ws, "dist/a.txt", "hello");
    cache
        .put("h1".to_string(), "ok".to_string(), vec!["dist/a.txt".to_string()], 0, 100)
        .unwrap();
    let res = cache.get("h1".to_string(), 101).unwrap().unwrap();
    assert_eq!(res.code, 0);
    assert_eq!(res.terminal_output, "ok");
    assert_eq!(res.outputs_path, format!("{}/h1", cd));
    assert_eq!(read_file(&cd, "h1/dist/a.txt"), "hello");
}

#[test]
fn duplicate_record_rejected() {
    let (_ws, _cd, mut cache) = fresh_cache("duplicate_record_rejected");
    cache
        .put("h1".to_string(), "first".to_string(), vec![], 7, 100)
        .unwrap();
    let err = cache
        .put("h1".to_string(), "second".to_string(), vec![], 9, 101)
        .unwrap_err();
    assert!(err.is_duplicate_hash());
    let res = cache.get("h1".to_string(), 102).unwrap().unwrap();
    assert_eq!(res.code, 7);
}

#[test]
fn access_bump_keeps_recently_read_entries() {
    let (_ws, _cd, mut cache) = fresh_cache("access_bump_keeps");
    cache.put("h1".to_string(), "ok".to_string(), vec![], 0, 100).unwrap();
    assert!(cache.get("h1".to_string(), 150).unwrap().is_some());
    cache.remove_old_cache_records(160, 30).unwrap();
    assert!(cache.get("h1".to_string(), 161).unwrap().is_some());
}

#[test]
fn access_bump_does_not_outlive_the_clock() {
    let (_ws, _cd, mut cache) = fresh_cache("access_bump_outlive");
    cache.put("h1".to_string(), "ok".to_string(), vec![], 0, 100).unwrap();
    assert!(cache.get("h1".to_string(), 110).unwrap().is_some());
    cache.remove_old_cache_records(120, 0).unwrap();
    assert!(cache.get("h1".to_string(), 121).unwrap().is_none());
}

#[test]
fn access_bump_resets_eviction_eligibility() {
    let (_ws, _cd, mut cache) = fresh_cache("access_bump_resets");
    cache.put("h1".to_string(), "ok".to_string(), vec![], 0, 100).unwrap();
    assert!(cache.get("h1".to_string(), 200).unwrap().is_some());
    cache.remove_old_cache_records(200, 50).unwrap();
    assert!(cache.get("h1".to_string(), 201).unwrap().is_some());
}

#[test]
fn eviction_removes_both_halves() {
    let (ws, cd, mut cache) = fresh_cache("eviction_removes_both_halves");
    write_file(&ws, "out/f.txt", "data");
    cache
        .put("h1".to_string(), "log".to_string(), vec!["out/f.txt".to_string()], 0, 100)
        .unwrap();
    assert!(std::path::Path::new(&format!("{}/h1", cd)).exists());
    assert!(std::path::Path::new(&format!("{}/terminalOutputs/h1", cd)).exists());
    cache.remove_old_cache_records(200, 0).unwrap();
    assert!(cache.get("h1".to_string(), 201).unwrap().is_none());
    assert!(!std::path::Path::new(&format!("{}/h1", cd)).exists());
    assert!(!std::path::Path::new(&format!("{}/terminalOutputs/h1", cd)).exists());
}

#[test]
fn sync_check() {
    let (_ws, cd, cache) = fresh_cache("sync_check");
    assert!(cache.check_cache_fs_in_sync().unwrap());
    let stray = format!("{}/12345", cd);
    fs_extra::dir::create_all(&stray, false).unwrap();
    assert!(!cache.check_cache_fs_in_sync().unwrap());
    fs_extra::remove_items(&[stray]).unwrap();
    assert!(cache.check_cache_fs_in_sync().unwrap());
}

#[test]
fn restoration_overwrite() {
    let (ws, _cd, mut cache) = fresh_cache("restoration_overwrite");
    write_file(&ws, "out/x", "v1");
    cache
        .put("h2".to_string(), "log".to_string(), vec!["out/x".to_string()], 0, 100)
        .unwrap();
    write_file(&ws, "out/x", "v2");
    assert_eq!(read_file(&ws, "out/x"), "v2");
    let res = cache.get("h2".to_string(), 101).unwrap().unwrap();
    cache
        .copy_files_from_cache(res, vec!["out/x".to_string()])
        .unwrap();
    assert_eq!(read_file(&ws, "out/x"), "v1");
}

#[test]
fn missing_terminal_output_defaults_to_empty() {
    let (_ws, cd, mut cache) = fresh_cache("missing_terminal_output");
    cache.put("h1".to_string(), "log".to_string(), vec![], 0, 100).unwrap();
    fs_extra::remove_items(&[format!("{}/terminalOutputs/h1", cd)]).unwrap();
    let res = cache.get("h1".to_string(), 101).unwrap().unwrap();
    assert_eq!(res.code, 0);
    assert_eq!(res.terminal_output, "");
}

#[test]
fn get_task_outputs_path_layout() {
    let (_ws, cd, cache) = fresh_cache("get_task_outputs_path_layout");
    assert_eq!(
        cache.get_task_outputs_path("77".to_string()),
        format!("{}/terminalOutputs/77", cd)
    );
}

#[test]
fn apply_remote_cache_results_hydrates_index_and_blob() {
    let (_ws, cd, mut cache) = fresh_cache("apply_remote_results");
    let remote = CachedResult {
        code: 3,
        terminal_output: "remote log".to_string(),
        outputs_path: String::new(),
    };
    cache
        .apply_remote_cache_results("55".to_string(), remote.clone(), 100)
        .unwrap();
    let res = cache.get("55".to_string(), 101).unwrap().unwrap();
    assert_eq!(res.code, 3);
    assert_eq!(res.terminal_output, "remote log");
    assert!(!std::path::Path::new(&format!("{}/55", cd)).exists());
    let err = cache
        .apply_remote_cache_results("55".to_string(), remote, 102)
        .unwrap_err();
    assert!(err.is_duplicate_hash());
}

#[test]
fn invalid_pattern_is_an_expansion_error() {
    let (_ws, _cd, mut cache) = fresh_cache("invalid_pattern");
    let err = cache
        .put("h1".to_string(), "log".to_string(), vec!["a[".to_string()], 0, 100)
        .unwrap_err();
    assert!(err.is_expansion_failure());
}

#[test]
fn unusable_cache_root_is_a_filesystem_error() {
    let base = "/tmp/nx_cache_it_unusable_root".to_string();
    fs_extra::remove_items(&[base.clone()]).unwrap();
    fs_extra::dir::create_all(&base, true).unwrap();
    fs_extra::file::write_all(format!("{}/occupied", base), "not a directory").unwrap();
    let conn = rusqlite::Connection::open_in_memory().unwrap();
    let err = match NxCache::new(
        format!("{}/workspace", base),
        format!("{}/occupied/cache", base),
        conn,
    ) {
        Ok(_) => panic!("a cache root under a plain file must be rejected"),
        Err(e) => e,
    };
    assert!(err.is_filesystem_failure());
}

#[test]
fn pattern_matching_nothing_is_tolerated() {
    let (_ws, _cd, mut cache) = fresh_cache("pattern_matching_nothing");
    cache
        .put("h1".to_string(), "log".to_string(), vec!["nope/**".to_string()], 0, 100)
        .unwrap();
    assert!(cache.get("h1".to_string(), 101).unwrap().is_some());
}

#[test]
fn sync_check_after_eviction() {
    let (_ws, _cd, mut cache) = fresh_cache("sync_check_after_eviction");
    cache.put("1".to_string(), "one".to_string(), vec![], 0, 100).unwrap();
    cache.put("2".to_string(), "two".to_string(), vec![], 0, 300).unwrap();
    assert!(cache.check_cache_fs_in_sync().unwrap());
    cache.remove_old_cache_records(300, 100).unwrap();
    assert!(cache.get("1".to_string(), 301).unwrap().is_none());
    assert!(cache.get("2".to_string(), 302).unwrap().is_some());
    assert!(cache.check_cache_fs_in_sync().unwrap());
}
