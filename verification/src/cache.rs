//! The cache engine: a content-hash-addressed store for build-task results.
//!
//! Per hash it keeps a row in the metadata index (exit code, creation time,
//! last access time), a terminal-output blob, and a mirrored directory of
//! the task's declared output files. The index is transactional and its
//! every change is stated against [`crate::model`]; the filesystem half is
//! mirrored best-effort, and [`NxCache::check_cache_fs_in_sync`] reports
//! whether the two halves still agree in size.

use vstd::prelude::*;

use crate::db::{db_count, db_delete_stale, db_record, db_setup, db_touch_and_get, index_rows};
use crate::errors::CacheError;
use crate::fsops::{
    fs_copy_file, fs_copy_tree_contents, fs_create_dir_all, fs_list_dirs, fs_read_text,
    fs_remove_paths, fs_write_text, glob_matches, path_exists, path_is_dir,
};
use crate::model::{can_record, evict_model, record_model, touch_model, IndexModel};
use crate::paths::{
    has_dir_prefix, is_valid_hash_dir_name, join_all, joined, path_join, rel_part,
    strip_dir_prefix, valid_hash_dir_name,
};
use crate::paths::parent_dir;

verus! {

/// The age, in seconds, past which an unread entry is evicted by default.
pub const DEFAULT_TTL_SECONDS: i64 = 7 * 24 * 60 * 60;

/// A served cache entry: the stored exit code, the captured terminal
/// output, and the path of the artifact directory holding the task's
/// declared outputs.
#[derive(Debug, Clone)]
pub struct CachedResult {
    pub code: i16,
    pub terminal_output: String,
    pub outputs_path: String,
}

impl Default for CachedResult {
    fn default() -> (r: Self)
        ensures
            r.code == 0,
            r.terminal_output@ == Seq::<char>::empty(),
            r.outputs_path@ == Seq::<char>::empty(),
    {
        CachedResult { code: 0, terminal_output: String::new(), outputs_path: String::new() }
    }
}

/// The path of the blob that stores a task's captured terminal output: it
/// sits in the `terminalOutputs` area beside the artifact directories, under
/// the hash's name.
pub open spec fn terminal_blob_path(cache_dir: Seq<char>, hash: Seq<char>) -> Seq<char> {
    joined(joined(cache_dir, "terminalOutputs"@), hash)
}

/// The path of the directory that mirrors a task's declared outputs: a
/// directory in the cache root named by the hash.
pub open spec fn artifact_dir_path(cache_dir: Seq<char>, hash: Seq<char>) -> Seq<char> {
    joined(cache_dir, hash)
}

/// Whether a full path names a cache-entry directory: it stands directly in
/// the cache root and its name follows the hash naming convention.
pub open spec fn is_cache_entry_path(cache_dir: Seq<char>, p: Seq<char>) -> bool {
    has_dir_prefix(cache_dir, p) && valid_hash_dir_name(rel_part(cache_dir, p))
}

/// How many of the listed paths name cache-entry directories.
pub open spec fn matching_entry_count(cache_dir: Seq<char>, entries: Seq<Seq<char>>) -> nat {
    entries.filter(|p: Seq<char>| is_cache_entry_path(cache_dir, p)).len()
}

proof fn lemma_matching_count_step(cache_dir: Seq<char>, entries: Seq<Seq<char>>, e: Seq<char>)
    ensures
        matching_entry_count(cache_dir, entries.push(e)) == matching_entry_count(cache_dir, entries)
            + (if is_cache_entry_path(cache_dir, e) {
            1nat
        } else {
            0nat
        }),
{
    reveal(Seq::filter);
    assert(entries.push(e).drop_last() =~= entries);
}

/// Counts the listed paths that name cache-entry directories.
fn count_cache_entry_dirs(cache_dir: &String, entries: &Vec<String>) -> (n: usize)
    ensures
        n as int == matching_entry_count(cache_dir@, entries.deep_view()),
{
    let mut n: usize = 0;
    let mut i: usize = 0;
    while i < entries.len()
        invariant
            0 <= i <= entries@.len(),
            n <= i,
            entries.deep_view().len() == entries@.len(),
            n as int == matching_entry_count(cache_dir@, entries.deep_view().subrange(0, i as int)),
        decreases entries@.len() - i,
    {
        let is_entry = match strip_dir_prefix(&entries[i], cache_dir) {
            Some(rel) => is_valid_hash_dir_name(rel.as_str()),
            None => false,
        };
        proof {
            let dv = entries.deep_view();
            assert(dv[i as int] == entries@[i as int]@);
            assert(dv.subrange(0, i as int + 1) =~= dv.subrange(0, i as int).push(dv[i as int]));
            lemma_matching_count_step(cache_dir@, dv.subrange(0, i as int), dv[i as int]);
        }
        if is_entry {
            n += 1;
        }
        i += 1;
    }
    proof {
        assert(entries.deep_view().subrange(0, entries@.len() as int) =~= entries.deep_view());
    }
    n
}

/// Resolves declared output patterns against `root` and hands back the
/// matches as paths relative to `root`, existing paths only.
fn expand_declared_outputs(root: &String, patterns: &Vec<String>) -> (r: Result<
    Vec<String>,
    CacheError,
>)
    ensures
        r is Err ==> r->Err_0 is ExpansionFailure,
{
    let mut rels: Vec<String> = Vec::new();
    let mut pi: usize = 0;
    while pi < patterns.len()
        decreases patterns@.len() - pi,
    {
        let full = path_join(root, patterns[pi].as_str());
        let matches = match glob_matches(&full) {
            Ok(m) => m,
            Err(e) => { return Err(e); },
        };
        let mut mi: usize = 0;
        while mi < matches.len()
            decreases matches@.len() - mi,
        {
            match strip_dir_prefix(&matches[mi], root) {
                Some(rel) => rels.push(rel),
                None => (),
            }
            mi += 1;
        }
        pi += 1;
    }
    Ok(rels)
}

/// Copies one existing workspace path, file or directory tree, to exactly
/// `dst`, creating missing parent directories.
fn copy_path_onto(src: &String, dst: &String) -> (r: Result<(), CacheError>)
    ensures
        r is Err ==> r->Err_0 is FilesystemFailure,
{
    if path_is_dir(src) {
        fs_copy_tree_contents(src, dst)
    } else {
        match parent_dir(dst) {
            Some(parent) => {
                match fs_create_dir_all(&parent) {
                    Ok(()) => (),
                    Err(e) => { return Err(e); },
                }
            },
            None => (),
        }
        fs_copy_file(src, dst)
    }
}

/// Copies every declared output that currently exists in the workspace into
/// the task's artifact directory, at the same relative path.
fn copy_outputs_into_cache(workspace: &String, task_dir: &String, rels: &Vec<String>) -> (r: Result<
    (),
    CacheError,
>)
    ensures
        r is Err ==> r->Err_0 is FilesystemFailure,
{
    let mut i: usize = 0;
    while i < rels.len()
        decreases rels@.len() - i,
    {
        let src = path_join(workspace, rels[i].as_str());
        if path_exists(&src) {
            let dst = path_join(task_dir, rels[i].as_str());
            match copy_path_onto(&src, &dst) {
                Ok(()) => (),
                Err(e) => { return Err(e); },
            }
        }
        i += 1;
    }
    Ok(())
}

/// Deletes the artifact directory and the terminal-output blob of each
/// evicted hash. Best-effort: a failure for one hash never stops the sweep
/// of the others.
fn remove_entry_files(cache_dir: &String, hashes: &Vec<String>) {
    let terminal_dir = path_join(cache_dir, "terminalOutputs");
    let mut i: usize = 0;
    while i < hashes.len()
        decreases hashes@.len() - i,
    {
        let mut victims: Vec<String> = Vec::new();
        victims.push(path_join(cache_dir, hashes[i].as_str()));
        victims.push(path_join(&terminal_dir, hashes[i].as_str()));
        match fs_remove_paths(&victims) {
            Ok(()) => (),
            Err(_) => (),
        }
        i += 1;
    }
}

/// The cache engine. It owns the index connection and derives every path it
/// touches from the two roots it was built with.
pub struct NxCache {
    /// The cache root: artifact directories and the terminal-output area
    /// live directly under it.
    pub cache_directory: String,
    workspace_root: String,
    db: rusqlite::Connection,
}

impl NxCache {
    /// The metadata index rows held by this cache.
    pub closed spec fn rows(&self) -> IndexModel {
        index_rows(self.db)
    }

    /// The cache root that every stored path derives from.
    pub closed spec fn cache_dir(&self) -> Seq<char> {
        self.cache_directory@
    }

    /// The workspace root that declared outputs are resolved against.
    pub closed spec fn workspace(&self) -> Seq<char> {
        self.workspace_root@
    }

    /// Opens the cache over an already-open index connection: creates the
    /// cache root and the terminal-output area if missing, and idempotently
    /// sets up the index table, leaving existing rows untouched.
    pub fn new(workspace_root: String, cache_path: String, db_connection: rusqlite::Connection)
        -> (r: Result<NxCache, CacheError>)
        ensures
            r matches Ok(cache) ==> cache.rows() == index_rows(db_connection)
                && cache.cache_dir() == cache_path@ && cache.workspace() == workspace_root@,
    {
        match fs_create_dir_all(&cache_path) {
            Ok(()) => (),
            Err(e) => { return Err(e); },
        }
        let terminal_dir = path_join(&cache_path, "terminalOutputs");
        match fs_create_dir_all(&terminal_dir) {
            Ok(()) => (),
            Err(e) => { return Err(e); },
        }
        let mut db = db_connection;
        match db_setup(&mut db) {
            Ok(()) => (),
            Err(e) => { return Err(e); },
        }
        Ok(NxCache { cache_directory: cache_path, workspace_root, db })
    }

    /// Serves the entry for `hash`, or `None` on a miss. A hit atomically
    /// stamps the row's access time with `now` and returns the stored exit
    /// code together with the artifact directory path; the terminal output
    /// is read best-effort and defaults to empty text where its blob is
    /// missing or unreadable, so a hit never fails for that reason alone.
    /// Only a failure of the index itself is an error.
    pub fn get(&mut self, hash: String, now: i64) -> (r: Result<Option<CachedResult>, CacheError>)
        ensures
            final(self).cache_dir() == old(self).cache_dir(),
            final(self).workspace() == old(self).workspace(),
            r matches Ok(Some(res)) ==> old(self).rows().contains_key(hash@) && res.code as int
                == old(self).rows()[hash@].0 && final(self).rows() == touch_model(
                old(self).rows(),
                hash@,
                now as int,
            ) && res.outputs_path@ == artifact_dir_path(old(self).cache_dir(), hash@),
            r matches Ok(None) ==> !old(self).rows().contains_key(hash@) && final(self).rows()
                == old(self).rows(),
            r is Err ==> final(self).rows() == old(self).rows() && r->Err_0 is IndexFailure,
    {
        let task_dir = path_join(&self.cache_directory, hash.as_str());
        let blob_path = self.get_task_outputs_path(hash.clone());
        match db_touch_and_get(&mut self.db, &hash, now) {
            Ok(Some(code)) => {
                let terminal_output = match fs_read_text(&blob_path) {
                    Ok(text) => text,
                    Err(_) => String::new(),
                };
                Ok(Some(CachedResult { code, terminal_output, outputs_path: task_dir }))
            },
            Ok(None) => Ok(None),
            Err(e) => Err(e),
        }
    }

    /// Stores a task's result under `hash`: wipes and recreates the
    /// artifact directory, writes the terminal-output blob, resolves the
    /// declared output patterns against the workspace and copies each match
    /// that exists into the artifact directory, and only then records the
    /// row. A duplicate hash is rejected by the index after the filesystem
    /// half was already replaced: that is the accepted inconsistency window,
    /// and the index rows themselves never change on any failure.
    pub fn put(
        &mut self,
        hash: String,
        terminal_output: String,
        outputs: Vec<String>,
        code: i16,
        now: i64,
    ) -> (r: Result<(), CacheError>)
        ensures
            final(self).cache_dir() == old(self).cache_dir(),
            final(self).workspace() == old(self).workspace(),
            r is Ok ==> can_record(old(self).rows(), hash@) && final(self).rows() == record_model(
                old(self).rows(),
                hash@,
                code as int,
                now as int,
            ),
            r is Err ==> final(self).rows() == old(self).rows(),
            old(self).rows().contains_key(hash@) ==> r is Err,
            r matches Err(e) && e is DuplicateHash ==> old(self).rows().contains_key(hash@),
    {
        let task_dir = path_join(&self.cache_directory, hash.as_str());
        let mut to_wipe: Vec<String> = Vec::new();
        to_wipe.push(task_dir.clone());
        match fs_remove_paths(&to_wipe) {
            Ok(()) => (),
            Err(e) => { return Err(e); },
        }
        match fs_create_dir_all(&task_dir) {
            Ok(()) => (),
            Err(e) => { return Err(e); },
        }
        let blob_path = self.get_task_outputs_path(hash.clone());
        match fs_write_text(&blob_path, &terminal_output) {
            Ok(()) => (),
            Err(e) => { return Err(e); },
        }
        let rels = match expand_declared_outputs(&self.workspace_root, &outputs) {
            Ok(rels) => rels,
            Err(e) => { return Err(e); },
        };
        match copy_outputs_into_cache(&self.workspace_root, &task_dir, &rels) {
            Ok(()) => (),
            Err(e) => { return Err(e); },
        }
        db_record(&mut self.db, &hash, code, now)
    }

    /// Hydrates the index-and-terminal-output half of an entry from a result
    /// obtained elsewhere: writes the blob from the supplied result and
    /// records the row. It never touches the artifact directory; the caller
    /// is expected to place the output files for `hash` separately, before
    /// or after this call.
    pub fn apply_remote_cache_results(
        &mut self,
        hash: String,
        result: CachedResult,
        now: i64,
    ) -> (r: Result<(), CacheError>)
        ensures
            final(self).cache_dir() == old(self).cache_dir(),
            final(self).workspace() == old(self).workspace(),
            r is Ok ==> can_record(old(self).rows(), hash@) && final(self).rows() == record_model(
                old(self).rows(),
                hash@,
                result.code as int,
                now as int,
            ),
            r is Err ==> final(self).rows() == old(self).rows(),
            old(self).rows().contains_key(hash@) ==> r is Err,
            r matches Err(e) && e is DuplicateHash ==> old(self).rows().contains_key(hash@),
    {
        let blob_path = self.get_task_outputs_path(hash.clone());
        match fs_write_text(&blob_path, &result.terminal_output) {
            Ok(()) => (),
            Err(e) => { return Err(e); },
        }
        db_record(&mut self.db, &hash, result.code, now)
    }

    /// The path of the terminal-output blob for `hash`. The blob need not
    /// exist.
    pub fn get_task_outputs_path(&self, hash: String) -> (r: String)
        ensures
            r@ == terminal_blob_path(self.cache_dir(), hash@),
    {
        let terminal_dir = path_join(&self.cache_directory, "terminalOutputs");
        path_join(&terminal_dir, hash.as_str())
    }

    /// Restores a served result's outputs onto the workspace: resolves the
    /// declared patterns against the result's artifact directory, removes
    /// the matching workspace paths so stale and restored content never mix,
    /// then overlays the whole artifact directory onto the workspace root,
    /// cached content winning over current workspace content.
    pub fn copy_files_from_cache(&self, cached_result: CachedResult, outputs: Vec<String>) -> (r:
        Result<(), CacheError>)
        ensures
            r is Err ==> r->Err_0 is ExpansionFailure || r->Err_0 is FilesystemFailure,
    {
        let rels = match expand_declared_outputs(&cached_result.outputs_path, &outputs) {
            Ok(rels) => rels,
            Err(e) => { return Err(e); },
        };
        let victims = join_all(&self.workspace_root, &rels);
        match fs_remove_paths(&victims) {
            Ok(()) => (),
            Err(e) => { return Err(e); },
        }
        fs_copy_tree_contents(&cached_result.outputs_path, &self.workspace_root)
    }

    /// Evicts every entry whose last access lies before `now - ttl`: the
    /// index rows go first, in one statement, then each evicted hash's
    /// artifact directory and terminal-output blob are deleted best-effort,
    /// a failure for one hash never stopping the rest. Only a failure of
    /// the delete statement itself is an error, and even then the index
    /// holds either all the old rows or exactly the swept ones.
    pub fn remove_old_cache_records(&mut self, now: i64, ttl: i64) -> (r: Result<(), CacheError>)
        requires
            0 <= ttl <= now,
        ensures
            final(self).cache_dir() == old(self).cache_dir(),
            final(self).workspace() == old(self).workspace(),
            r is Ok ==> final(self).rows() == evict_model(old(self).rows(), now - ttl),
            r is Err ==> (final(self).rows() == old(self).rows() || final(self).rows()
                == evict_model(old(self).rows(), now - ttl)) && r->Err_0 is IndexFailure,
    {
        let cutoff: i64 = now - ttl;
        let removed = match db_delete_stale(&mut self.db, cutoff) {
            Ok(removed) => removed,
            Err(e) => { return Err(e); },
        };
        remove_entry_files(&self.cache_directory, &removed);
        Ok(())
    }

    /// Decides, from a directory listing of the cache root, whether the
    /// index and the filesystem agree: true exactly when the number of index
    /// rows equals the number of listed paths that name cache-entry
    /// directories.
    pub fn index_matches_listing(&self, entries: &Vec<String>) -> (r: Result<bool, CacheError>)
        ensures
            r matches Ok(in_sync) ==> in_sync == (self.rows().dom().len() == matching_entry_count(
                self.cache_dir(),
                entries.deep_view(),
            )),
            r is Err ==> r->Err_0 is IndexFailure,
    {
        let row_count = match db_count(&self.db) {
            Ok(n) => n,
            Err(e) => { return Err(e); },
        };
        let dir_count = count_cache_entry_dirs(&self.cache_directory, entries);
        Ok((row_count as i128) == (dir_count as i128))
    }

    /// Compares the number of index rows to the number of directories in
    /// the cache root whose name follows the hash naming convention. Equal
    /// counts report the two halves as in sync. The verdict is advisory: it
    /// depends on what the listing of the cache root returned, so only
    /// [`NxCache::index_matches_listing`], which takes that listing as an
    /// argument, pins it down; an error reading either side surfaces as an
    /// error, never as a false verdict.
    pub fn check_cache_fs_in_sync(&self) -> (r: Result<bool, CacheError>)
        ensures
            r is Err ==> r->Err_0 is IndexFailure || r->Err_0 is FilesystemFailure,
    {
        let entries = match fs_list_dirs(&self.cache_directory) {
            Ok(entries) => entries,
            Err(e) => { return Err(e); },
        };
        self.index_matches_listing(&entries)
    }
}

} // verus!
