//! Mathematical model of the metadata index.
//!
//! The index is a finite map from a task hash (a sequence of characters) to
//! the row stored for it: the task's exit code, the time the row was created,
//! and the time it was last accessed. The transition functions below say what
//! each index operation does to that map; the cache engine's contracts are
//! stated in terms of them.

use vstd::prelude::*;

verus! {

/// A row of the metadata index, as `(exit_code, created_at, accessed_at)`.
pub type IndexRow = (int, int, int);

/// The whole metadata index: task hash to row.
pub type IndexModel = Map<Seq<char>, IndexRow>;

/// Recording a fresh entry stores the exit code and stamps both times with
/// the time of the write.
pub open spec fn record_model(rows: IndexModel, hash: Seq<char>, exit_code: int, now: int) -> IndexModel {
    rows.insert(hash, (exit_code, now, now))
}

/// A hash may be recorded only while the index holds no row for it.
pub open spec fn can_record(rows: IndexModel, hash: Seq<char>) -> bool {
    !rows.contains_key(hash)
}

/// A successful read bumps the row's access time and keeps everything else.
pub open spec fn touch_model(rows: IndexModel, hash: Seq<char>, now: int) -> IndexModel {
    if rows.contains_key(hash) {
        rows.insert(hash, (rows[hash].0, rows[hash].1, now))
    } else {
        rows
    }
}

/// A row is stale once its last access lies strictly before the cutoff.
pub open spec fn is_stale(rows: IndexModel, hash: Seq<char>, cutoff: int) -> bool {
    rows.contains_key(hash) && rows[hash].2 < cutoff
}

/// The hashes that an eviction sweep at `cutoff` removes.
pub open spec fn stale_keys(rows: IndexModel, cutoff: int) -> Set<Seq<char>> {
    rows.dom().filter(|hash: Seq<char>| rows[hash].2 < cutoff)
}

/// Eviction keeps exactly the rows whose last access is at or after the
/// cutoff, unchanged.
pub open spec fn evict_model(rows: IndexModel, cutoff: int) -> IndexModel {
    Map::new(
        |hash: Seq<char>| rows.contains_key(hash) && rows[hash].2 >= cutoff,
        |hash: Seq<char>| rows[hash],
    )
}

/// A recorded hash is present afterwards with the recorded exit code, and a
/// later read finds that same exit code: a `put` followed by a `get` serves
/// the stored result back.
pub proof fn lemma_record_then_found(
    rows: IndexModel,
    hash: Seq<char>,
    exit_code: int,
    t_put: int,
    t_get: int,
)
    ensures
        record_model(rows, hash, exit_code, t_put).contains_key(hash),
        record_model(rows, hash, exit_code, t_put)[hash].0 == exit_code,
        touch_model(record_model(rows, hash, exit_code, t_put), hash, t_get).contains_key(hash),
        touch_model(record_model(rows, hash, exit_code, t_put), hash, t_get)[hash].0 == exit_code,
{
}

/// Once a hash is recorded, it can never be recorded again, and whatever a
/// rejected second write attempted, the stored exit code is the first one.
pub proof fn lemma_duplicate_record_rejected(
    rows: IndexModel,
    hash: Seq<char>,
    exit_code: int,
    now: int,
)
    ensures
        !can_record(record_model(rows, hash, exit_code, now), hash),
        record_model(rows, hash, exit_code, now)[hash].0 == exit_code,
{
}

/// Sequential reads each advance the access time to the time of that read:
/// after two reads the row carries the second read's time, while the exit
/// code and the creation time never move.
pub proof fn lemma_reads_bump_access(rows: IndexModel, hash: Seq<char>, t1: int, t2: int)
    requires
        rows.contains_key(hash),
    ensures
        touch_model(rows, hash, t1)[hash].2 == t1,
        touch_model(touch_model(rows, hash, t1), hash, t2)[hash].2 == t2,
        touch_model(touch_model(rows, hash, t1), hash, t2)[hash].0 == rows[hash].0,
        touch_model(touch_model(rows, hash, t1), hash, t2)[hash].1 == rows[hash].1,
{
}

/// Eviction eligibility is decided by the most recent access alone: a row
/// last read at `t_access` survives a sweep at `cutoff` exactly when
/// `t_access >= cutoff`, whatever its creation time was.
pub proof fn lemma_eviction_uses_last_access(
    rows: IndexModel,
    hash: Seq<char>,
    t_access: int,
    cutoff: int,
)
    requires
        rows.contains_key(hash),
    ensures
        evict_model(touch_model(rows, hash, t_access), cutoff).contains_key(hash) <==> t_access
            >= cutoff,
{
}

/// An evicted hash is gone from the index: after a sweep, no row whose last
/// access lies before the cutoff remains, and the surviving rows are
/// untouched.
pub proof fn lemma_eviction_removes_stale(rows: IndexModel, hash: Seq<char>, cutoff: int)
    ensures
        is_stale(rows, hash, cutoff) ==> !evict_model(rows, cutoff).contains_key(hash),
        rows.contains_key(hash) && !is_stale(rows, hash, cutoff) ==> evict_model(
            rows,
            cutoff,
        ).contains_key(hash) && evict_model(rows, cutoff)[hash] == rows[hash],
{
}

} // verus!
