//! Persistent index of generated previews: one row per source path, keyed
//! uniquely by it.  A row is reused only while the source file's size and
//! truncated modification time still match; a matching row whose preview
//! file is gone is purged and treated as a miss (self-healing).  Database
//! calls go through trusted wrappers; every decision over what they return
//! is verified.

use vstd::prelude::*;
use vstd::string::*;

verus! {

#[verifier::external_type_specification]
#[verifier::external_body]
pub struct ExConnection(rusqlite::Connection);

#[verifier::external_type_specification]
#[verifier::external_body]
pub struct ExSqliteError(rusqlite::Error);

/// Relies on `rusqlite::Connection::open`: opens or creates the database
/// file at `path`.
#[verifier::external_body]
pub(crate) fn db_open(path: &str) -> Result<rusqlite::Connection, rusqlite::Error> {
    rusqlite::Connection::open(path)
}

/// Relies on `rusqlite::Connection::execute_batch`: runs the statements
/// of `sql`.
#[verifier::external_body]
pub(crate) fn db_execute_batch(conn: &rusqlite::Connection, sql: &str) -> Result<
    (),
    rusqlite::Error,
> {
    conn.execute_batch(sql)
}

/// Relies on `rusqlite::Connection::execute` without parameters; returns
/// the number of changed rows.
#[verifier::external_body]
pub(crate) fn db_execute(conn: &rusqlite::Connection, sql: &str) -> Result<
    usize,
    rusqlite::Error,
> {
    conn.execute(sql, ())
}

/// Relies on `rusqlite::Connection::execute` with one text parameter.
#[verifier::external_body]
pub(crate) fn db_execute_text(conn: &rusqlite::Connection, sql: &str, p1: &str) -> Result<
    usize,
    rusqlite::Error,
> {
    conn.execute(sql, (p1,))
}

/// Relies on `rusqlite::Connection::execute` with the seven fields of a
/// thumbnail row as parameters.
#[verifier::external_body]
pub(crate) fn db_execute_record(
    conn: &rusqlite::Connection,
    sql: &str,
    path: &str,
    preview: &str,
    size: i64,
    modified: i64,
    width: i64,
    height: i64,
    created: i64,
) -> Result<usize, rusqlite::Error> {
    conn.execute(sql, (path, preview, size, modified, width, height, created))
}

/// Relies on `rusqlite::Connection::query_row` with one text parameter,
/// reading five columns; a query that returns no row becomes `Ok(None)`.
#[verifier::external_body]
pub(crate) fn db_query_row_text(conn: &rusqlite::Connection, sql: &str, p1: &str) -> Result<
    Option<(String, i64, i64, i64, i64)>,
    rusqlite::Error,
> {
    let r = conn.query_row(sql, (p1,), |row| {
        Ok((row.get(0)?, row.get(1)?, row.get(2)?, row.get(3)?, row.get(4)?))
    });
    match r {
        Ok(v) => Ok(Some(v)),
        Err(rusqlite::Error::QueryReturnedNoRows) => Ok(None),
        Err(e) => Err(e),
    }
}

/// Relies on `rusqlite::Connection::query_row` without parameters, reading
/// one integer column.
#[verifier::external_body]
pub(crate) fn db_query_i64(conn: &rusqlite::Connection, sql: &str) -> Result<
    i64,
    rusqlite::Error,
> {
    conn.query_row(sql, (), |row| row.get(0))
}

/// Relies on `std::path::Path::exists`: whether `path` names an existing
/// file or directory right now.
#[verifier::external_body]
pub(crate) fn path_exists(path: &str) -> bool {
    std::path::Path::new(path).exists()
}

/// A row of the index as the database hands it back: the preview's
/// location and dimensions, and the source identity it was generated for.
pub struct StoredRow {
    pub preview_path: String,
    pub size: i64,
    pub modified: i64,
    pub width: i64,
    pub height: i64,
}

/// A stored row is fresh for a live source exactly when the stored size
/// and modification time equal the live ones (under the store's signed
/// column type).
pub open spec fn spec_row_fresh(row: StoredRow, size: u64, modified: u64) -> bool {
    row.size == size as i64 && row.modified == modified as i64
}

/// A row's dimensions are sound when both fit the unsigned pixel type.
pub open spec fn spec_row_dims_valid(row: StoredRow) -> bool {
    0 <= row.width <= u32::MAX && 0 <= row.height <= u32::MAX
}

/// What a lookup decides to do with the row it found.
pub enum LookupAction {
    /// Fresh row, preview file present: reuse it.
    Hit { preview_path: String, width: u32, height: u32 },
    /// Fresh row, preview file gone: purge the row, treat as a miss.
    Purge,
    /// No reusable row: generate.
    Miss,
    /// A fresh row whose dimensions cannot be represented: report the store.
    Corrupt,
}

/// The lookup decision: miss on no row or a stale row; for a fresh row,
/// reuse it when its preview file exists, purge it when not.
pub open spec fn spec_classify(
    row: Option<StoredRow>,
    size: u64,
    modified: u64,
    preview_exists: bool,
) -> LookupAction {
    match row {
        None => LookupAction::Miss,
        Some(w) => {
            if !spec_row_fresh(w, size, modified) {
                LookupAction::Miss
            } else if !spec_row_dims_valid(w) {
                LookupAction::Corrupt
            } else if preview_exists {
                LookupAction::Hit {
                    preview_path: w.preview_path,
                    width: w.width as u32,
                    height: w.height as u32,
                }
            } else {
                LookupAction::Purge
            }
        },
    }
}

/// Decides what a lookup does with a fetched row.
pub fn classify_lookup(row: Option<StoredRow>, size: u64, modified: u64, preview_exists: bool) -> (r:
    LookupAction)
    ensures
        r == spec_classify(row, size, modified, preview_exists),
{
    match row {
        None => LookupAction::Miss,
        Some(w) => {
            #[verifier::truncate]
            let size_key: i64 = size as i64;
            #[verifier::truncate]
            let modified_key: i64 = modified as i64;
            if !(w.size == size_key && w.modified == modified_key) {
                LookupAction::Miss
            } else if !(0 <= w.width && w.width <= 4294967295i64 && 0 <= w.height
                && w.height <= 4294967295i64) {
                LookupAction::Corrupt
            } else if preview_exists {
                LookupAction::Hit {
                    preview_path: w.preview_path,
                    width: w.width as u32,
                    height: w.height as u32,
                }
            } else {
                LookupAction::Purge
            }
        },
    }
}

/// The existence check's decision over a fetch outcome: a thumbnail is
/// recorded exactly when the fetch produced a row that is fresh for the
/// live stat; no row, a stale row, and a failed fetch (swallowed, not
/// reported) all answer no.
pub fn fresh_row_present(
    outcome: Result<Option<StoredRow>, crate::thumbnail::ThumbnailError>,
    size: u64,
    modified: u64,
) -> (r: bool)
    ensures
        r == (outcome matches Ok(Some(w)) && spec_row_fresh(w, size, modified)),
{
    match outcome {
        Ok(Some(w)) => {
            #[verifier::truncate]
            let size_key: i64 = size as i64;
            #[verifier::truncate]
            let modified_key: i64 = modified as i64;
            w.size == size_key && w.modified == modified_key
        },
        _ => false,
    }
}

/// Idempotence of reuse: while the source file is unchanged, a row written
/// for it is fresh, and with the preview file intact the lookup reuses
/// exactly the stored preview and dimensions; nothing is regenerated.
pub proof fn lemma_unchanged_source_hits(row: StoredRow, size: u64, modified: u64)
    requires
        row.size == size as i64,
        row.modified == modified as i64,
        spec_row_dims_valid(row),
    ensures
        spec_classify(Some(row), size, modified, true) == (LookupAction::Hit {
            preview_path: row.preview_path,
            width: row.width as u32,
            height: row.height as u32,
        }),
{
}

/// Invalidation: once the live source's size or modification time differs
/// from what the row was written for, the lookup misses, whatever the
/// preview file's state; the stale row is never reused.
pub proof fn lemma_changed_source_misses(
    row: StoredRow,
    size0: u64,
    modified0: u64,
    size1: u64,
    modified1: u64,
    preview_exists: bool,
)
    requires
        row.size == size0 as i64,
        row.modified == modified0 as i64,
        size1 != size0 || modified1 != modified0,
    ensures
        spec_classify(Some(row), size1, modified1, preview_exists) == LookupAction::Miss,
{
    if size1 != size0 {
        assert(size0 as i64 != size1 as i64) by (bit_vector)
            requires
                size0 != size1,
        ;
    } else {
        assert(modified0 as i64 != modified1 as i64) by (bit_vector)
            requires
                modified0 != modified1,
        ;
    }
}

/// Self-healing: a fresh row whose preview file is gone is purged, and a
/// lookup that then finds no row misses, so the next get-or-create
/// regenerates instead of failing.
pub proof fn lemma_missing_preview_heals(row: StoredRow, size: u64, modified: u64)
    requires
        spec_row_fresh(row, size, modified),
        spec_row_dims_valid(row),
    ensures
        spec_classify(Some(row), size, modified, false) == LookupAction::Purge,
        spec_classify(None, size, modified, false) == LookupAction::Miss,
{
}

} // verus!
