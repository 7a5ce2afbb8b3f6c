//! Trusted boundary to the metadata index.
//!
//! The index is the `cache_outputs` table of an already-open SQLite
//! connection. Each wrapper below runs one statement against it and states,
//! over [`index_rows`], what that statement does to the table. Verus believes
//! these contracts; everything built on them is proved.

use vstd::prelude::*;

use crate::errors::CacheError;
use crate::model::{evict_model, stale_keys, IndexModel};

verus! {

/// Declares `rusqlite::Connection`, the handle to the SQLite database that
/// holds the index, so that it can stand in signatures and fields. It is
/// opaque here: everything known about it goes through [`index_rows`].
#[verifier::external_type_specification]
#[verifier::external_body]
pub struct ExConnection(rusqlite::Connection);

/// The rows of the `cache_outputs` table held by this connection, keyed by
/// hash, each row carrying `(exit_code, created_at, accessed_at)`. A
/// connection whose schema has no such table holds the empty map.
pub uninterp spec fn index_rows(db: rusqlite::Connection) -> IndexModel;

/// Relies on `rusqlite::Connection::execute_batch` running a
/// `CREATE TABLE IF NOT EXISTS` statement: a missing table is created empty,
/// an existing one is left exactly as it is, so the rows are unchanged
/// either way.
#[verifier::external_body]
pub(crate) fn db_setup(db: &mut rusqlite::Connection) -> (r: Result<(), CacheError>)
    ensures
        index_rows(*final(db)) == index_rows(*old(db)),
        r is Err ==> r->Err_0 is IndexFailure,
{
    db.execute_batch(
        "CREATE TABLE IF NOT EXISTS cache_outputs (
            hash TEXT PRIMARY KEY NOT NULL,
            code INTEGER NOT NULL,
            created_at INTEGER NOT NULL,
            accessed_at INTEGER NOT NULL
        )",
    ).map_err(|e| CacheError::IndexFailure(e.to_string()))
}

/// Relies on `rusqlite::Connection::execute` running a single `INSERT`:
/// the statement applies in full or not at all, and the `PRIMARY KEY`
/// constraint on `hash` makes it fail, with a constraint-violation code,
/// whenever a row for that hash exists.
#[verifier::external_body]
pub(crate) fn db_record(
    db: &mut rusqlite::Connection,
    hash: &String,
    exit_code: i16,
    now: i64,
) -> (r: Result<(), CacheError>)
    ensures
        r is Ok ==> !index_rows(*old(db)).contains_key(hash@) && index_rows(*final(db))
            == index_rows(*old(db)).insert(hash@, (exit_code as int, now as int, now as int)),
        r is Err ==> index_rows(*final(db)) == index_rows(*old(db)),
        index_rows(*old(db)).contains_key(hash@) ==> r is Err,
        r matches Err(e) && e is DuplicateHash ==> index_rows(*old(db)).contains_key(hash@),
        r matches Err(e) ==> e is DuplicateHash || e is IndexFailure,
{
    match db.execute(
        "INSERT INTO cache_outputs (hash, code, created_at, accessed_at) VALUES (?1, ?2, ?3, ?4)",
        (hash.as_str(), exit_code, now, now),
    ) {
        Ok(_) => Ok(()),
        Err(rusqlite::Error::SqliteFailure(f, _)) if f.code
            == rusqlite::ErrorCode::ConstraintViolation => Err(CacheError::DuplicateHash),
        Err(e) => Err(CacheError::IndexFailure(e.to_string())),
    }
}

/// Relies on `rusqlite::Statement::query_map` over a single
/// `UPDATE .. RETURNING` statement: in one atomic step it stamps the row's
/// access time and reads its exit code, touches no other row, and matches
/// no row exactly when the hash is absent. The statement is finalized
/// before success is reported, so a change that failed to commit surfaces
/// as an error, not as a hit.
#[verifier::external_body]
pub(crate) fn db_touch_and_get(
    db: &mut rusqlite::Connection,
    hash: &String,
    now: i64,
) -> (r: Result<Option<i16>, CacheError>)
    ensures
        r matches Ok(Some(code)) ==> index_rows(*old(db)).contains_key(hash@) && code as int
            == index_rows(*old(db))[hash@].0 && index_rows(*final(db)) == index_rows(
            *old(db),
        ).insert(
            hash@,
            (
                index_rows(*old(db))[hash@].0,
                index_rows(*old(db))[hash@].1,
                now as int,
            ),
        ),
        r matches Ok(None) ==> !index_rows(*old(db)).contains_key(hash@) && index_rows(*final(db))
            == index_rows(*old(db)),
        r is Err ==> index_rows(*final(db)) == index_rows(*old(db)) && r->Err_0 is IndexFailure,
{
    let mut stmt = db.prepare(
        "UPDATE cache_outputs SET accessed_at = ?2 WHERE hash = ?1 RETURNING code",
    ).map_err(|e| CacheError::IndexFailure(e.to_string()))?;
    let rows = stmt.query_map((hash.as_str(), now), |row| row.get::<_, i16>(0)).map_err(
        |e| CacheError::IndexFailure(e.to_string()),
    )?;
    let codes: Result<Vec<i16>, rusqlite::Error> = rows.collect();
    let codes = codes.map_err(|e| CacheError::IndexFailure(e.to_string()))?;
    stmt.finalize().map_err(|e| CacheError::IndexFailure(e.to_string()))?;
    Ok(codes.into_iter().next())
}

/// Relies on `rusqlite::Connection::query_row` running `SELECT COUNT(*)`:
/// the count is the number of rows of the table.
#[verifier::external_body]
pub(crate) fn db_count(db: &rusqlite::Connection) -> (r: Result<i64, CacheError>)
    ensures
        r matches Ok(n) ==> n as int == index_rows(*db).dom().len(),
        r is Err ==> r->Err_0 is IndexFailure,
{
    db.query_row("SELECT COUNT(*) FROM cache_outputs", [], |row| row.get::<_, i64>(0)).map_err(
        |e| CacheError::IndexFailure(e.to_string()),
    )
}

/// Relies on `rusqlite::Statement::query_map` over a single
/// `DELETE .. RETURNING` statement: it removes exactly the rows whose access
/// time lies before the cutoff and hands back each removed hash once. SQLite
/// finishes the deletions before the first returned row is read, so a
/// failure while reading them leaves the table either untouched or fully
/// swept. The statement is finalized before success is reported, so a
/// sweep that failed to commit surfaces as an error.
#[verifier::external_body]
pub(crate) fn db_delete_stale(db: &mut rusqlite::Connection, cutoff: i64) -> (r: Result<
    Vec<String>,
    CacheError,
>)
    ensures
        r matches Ok(removed) ==> index_rows(*final(db)) == evict_model(
            index_rows(*old(db)),
            cutoff as int,
        ) && removed.deep_view().no_duplicates() && removed.deep_view().to_set() == stale_keys(
            index_rows(*old(db)),
            cutoff as int,
        ),
        r is Err ==> (index_rows(*final(db)) == index_rows(*old(db)) || index_rows(*final(db))
            == evict_model(index_rows(*old(db)), cutoff as int)) && r->Err_0 is IndexFailure,
{
    let mut stmt = db.prepare(
        "DELETE FROM cache_outputs WHERE accessed_at < ?1 RETURNING hash",
    ).map_err(|e| CacheError::IndexFailure(e.to_string()))?;
    let rows = stmt.query_map([cutoff], |row| row.get::<_, String>(0)).map_err(
        |e| CacheError::IndexFailure(e.to_string()),
    )?;
    let removed: Result<Vec<String>, rusqlite::Error> = rows.collect();
    let removed = removed.map_err(|e| CacheError::IndexFailure(e.to_string()))?;
    stmt.finalize().map_err(|e| CacheError::IndexFailure(e.to_string()))?;
    Ok(removed)
}

} // verus!
