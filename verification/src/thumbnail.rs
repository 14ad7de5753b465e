//! The thumbnail manager: get-or-create over the persistent store, the
//! existence check, cache clearing and statistics.  File reads, writes and
//! stats are events its caller performs and reports; every decision over
//! them is verified here.  One preview format is used throughout: WebP,
//! extension `webp`, media type `image/webp`, and the clear/stats filter
//! matches it by construction.

use vstd::prelude::*;
use vstd::string::*;

use crate::codec::base64_encode;
use crate::codec::base64_of;
use crate::codec::md5_hex;
use crate::codec::md5_hex_of;
use crate::codec::render_webp_from_image;
use crate::codec::render_webp_from_jxl;
use crate::codec::rendered_from_image;
use crate::codec::rendered_from_jxl;
use crate::mime::is_jxl_path;
use crate::mime::spec_is_jxl;
use crate::store::classify_lookup;
use crate::store::fresh_row_present;
use crate::store::db_execute;
use crate::store::db_execute_batch;
use crate::store::db_execute_record;
use crate::store::db_execute_text;
use crate::store::db_open;
use crate::store::db_query_i64;
use crate::store::db_query_row_text;
use crate::store::path_exists;
use crate::store::LookupAction;
use crate::store::StoredRow;
use crate::text::dec_rep;
use crate::text::extension_of;
use crate::text::file_name_of;
use crate::text::spec_extension;
use crate::text::spec_file_name;
use crate::text::str_eq;
use crate::text::u64_to_string;

verus! {

/// A generated preview handed to the UI.
pub struct ThumbnailInfo {
    pub base64: String,
    pub mime_type: String,
    pub width: u32,
    pub height: u32,
}

/// Why a thumbnail operation failed.
#[derive(Clone, Copy, Debug, PartialEq, Eq, Structural)]
pub enum ThumbnailError {
    /// The source file does not exist.
    NotFound,
    /// The source bytes could not be decoded or re-encoded.
    Decode,
    /// A file could not be read or written.
    Io,
    /// The persistent index could not be opened or queried.
    Store,
}

impl ThumbnailError {
    /// A short description, for display by the caller.
    pub fn message(&self) -> (r: &'static str)
        ensures
            (*self is NotFound) ==> r@ == "Image file not found"@,
    {
        match self {
            ThumbnailError::NotFound => "Image file not found",
            ThumbnailError::Decode => "Failed to decode image",
            ThumbnailError::Io => "File read or write failed",
            ThumbnailError::Store => "Thumbnail store failed",
        }
    }
}

/// The validity key of a source file: its byte length and modification
/// time in whole seconds.
#[derive(Clone, Copy, Debug, PartialEq, Eq, Structural)]
pub struct FileMeta {
    pub size: u64,
    pub modified: u64,
}

/// The manager: where the store and the previews live, and the bounding
/// box previews are fitted to.
#[derive(Clone)]
pub struct ThumbnailManager {
    pub cache_dir: String,
    pub db_path: String,
    pub thumbnail_size: u32,
}

/// What a get-or-create needs next from its caller.
pub enum ThumbnailStep {
    /// Finished unsuccessfully.
    Failed(ThumbnailError),
    /// A stored preview is valid: read this file and hand its bytes to
    /// `cached_info`.
    Cached { preview_path: String, width: u32, height: u32 },
    /// No reusable preview: read the source file and hand its bytes to
    /// `render_thumbnail`.
    NeedsSource,
}

/// A fresh row found by a lookup, with its preview's location.
pub struct CachedPreview {
    pub preview_path: String,
    pub width: u32,
    pub height: u32,
}

/// A rendered preview not yet written to disk: its destination, encoded
/// bytes and dimensions.
pub struct PendingThumbnail {
    pub preview_path: String,
    pub bytes: Vec<u8>,
    pub width: u32,
    pub height: u32,
}

/// The text hashed into a preview's file name: path, size and
/// modification time, dash-separated.
pub open spec fn spec_hash_input(path: Seq<char>, size: u64, modified: u64) -> Seq<char> {
    path + "-"@ + dec_rep(size as int) + "-"@ + dec_rep(modified as int)
}

/// A preview's file name: the key hash, then the source's file name for
/// human traceability, then the canonical extension.
pub open spec fn spec_preview_name(path: Seq<char>, size: u64, modified: u64) -> Seq<char> {
    md5_hex_of(spec_hash_input(path, size, modified)) + "_"@ + (if spec_file_name(path).len()
        > 0 {
        spec_file_name(path)
    } else {
        "unknown"@
    }) + ".webp"@
}

/// Where a preview for this source is written, under the cache directory.
pub open spec fn spec_preview_path(
    dir: Seq<char>,
    path: Seq<char>,
    size: u64,
    modified: u64,
) -> Seq<char> {
    dir + "/"@ + spec_preview_name(path, size, modified)
}

/// Whether a directory entry's name is a generated preview: it carries
/// exactly the extension the encoder writes.
pub fn is_preview_file(name: &str) -> (r: bool)
    ensures
        r == (spec_extension(name@) == Some("webp"@)),
{
    match extension_of(name) {
        Some(e) => str_eq(e, "webp"),
        None => false,
    }
}

/// Sum of the sizes of the entries that are generated previews.
pub open spec fn spec_preview_total(entries: Seq<(String, u64)>) -> int
    decreases entries.len(),
{
    if entries.len() == 0 {
        0
    } else {
        spec_preview_total(entries.drop_last()) + (if spec_extension(entries.last().0@)
            == Some("webp"@) {
            entries.last().1 as int
        } else {
            0
        })
    }
}

proof fn lemma_preview_total_nonneg(entries: Seq<(String, u64)>)
    ensures
        spec_preview_total(entries) >= 0,
    decreases entries.len(),
{
    if entries.len() > 0 {
        lemma_preview_total_nonneg(entries.drop_last());
    }
}

/// What rendering a preview for this source yields: the WebP bytes and
/// fitted dimensions of the pipeline the path's extension selects, or
/// nothing when the bytes do not decode.
pub open spec fn spec_rendered_preview(path: Seq<char>, data: Seq<u8>, max_size: u32) -> Option<
    (Seq<u8>, u32, u32),
> {
    if spec_is_jxl(path) {
        rendered_from_jxl(data, max_size)
    } else {
        rendered_from_image(data, max_size)
    }
}

/// `x` capped at the largest `u64`.
pub open spec fn spec_cap_u64(x: int) -> int {
    if x > u64::MAX {
        u64::MAX as int
    } else {
        x
    }
}

impl ThumbnailManager {
    /// A manager over `cache_dir`; the store sits beside the previews.
    pub fn new(cache_dir: String, thumbnail_size: u32) -> (r: ThumbnailManager)
        ensures
            r.cache_dir@ == cache_dir@,
            r.thumbnail_size == thumbnail_size,
            r.db_path@ == cache_dir@ + "/thumbnails.db"@,
    {
        let mut db_path = cache_dir.clone();
        db_path.append("/thumbnails.db");
        ThumbnailManager { cache_dir, db_path, thumbnail_size }
    }

    /// Creates the index table and its path index if they do not exist.
    pub fn init_database(&self) -> (r: Result<(), ThumbnailError>)
        ensures
            r matches Err(e) ==> e is Store,
    {
        let conn = match db_open(self.db_path.as_str()) {
            Ok(c) => c,
            Err(_) => {
                return Err(ThumbnailError::Store);
            },
        };
        let outcome = db_execute_batch(
            &conn,
            "CREATE TABLE IF NOT EXISTS thumbnails (
                id INTEGER PRIMARY KEY AUTOINCREMENT,
                image_path TEXT NOT NULL UNIQUE,
                thumbnail_path TEXT NOT NULL,
                image_size INTEGER NOT NULL,
                image_modified INTEGER NOT NULL,
                width INTEGER NOT NULL,
                height INTEGER NOT NULL,
                created_at INTEGER NOT NULL
            );
            CREATE INDEX IF NOT EXISTS idx_image_path ON thumbnails(image_path);",
        );
        match outcome {
            Ok(_) => Ok(()),
            Err(_) => Err(ThumbnailError::Store),
        }
    }

    /// Fetches the row for a source path, if one exists.
    fn fetch_row(&self, image_path: &str) -> (r: Result<Option<StoredRow>, ThumbnailError>)
        ensures
            r matches Err(e) ==> e is Store,
    {
        let conn = match db_open(self.db_path.as_str()) {
            Ok(c) => c,
            Err(_) => {
                return Err(ThumbnailError::Store);
            },
        };
        let row = db_query_row_text(
            &conn,
            "SELECT thumbnail_path, image_size, image_modified, width, height
             FROM thumbnails WHERE image_path = ?",
            image_path,
        );
        match row {
            Ok(None) => Ok(None),
            Ok(Some((preview_path, size, modified, width, height))) => Ok(
                Some(StoredRow { preview_path, size, modified, width, height }),
            ),
            Err(_) => Err(ThumbnailError::Store),
        }
    }

    /// Deletes the row for a source path.
    fn delete_row(&self, image_path: &str) -> (r: Result<(), ThumbnailError>)
        ensures
            r matches Err(e) ==> e is Store,
    {
        let conn = match db_open(self.db_path.as_str()) {
            Ok(c) => c,
            Err(_) => {
                return Err(ThumbnailError::Store);
            },
        };
        let outcome = db_execute_text(
            &conn,
            "DELETE FROM thumbnails WHERE image_path = ?",
            image_path,
        );
        match outcome {
            Ok(_) => Ok(()),
            Err(_) => Err(ThumbnailError::Store),
        }
    }

    /// The store lookup: a preview to reuse, or nothing after a miss, a
    /// stale row, or a purged row whose preview file had vanished.
    pub fn lookup_thumbnail(&self, image_path: &str, size: u64, modified: u64) -> (r: Result<
        Option<CachedPreview>,
        ThumbnailError,
    >)
        ensures
            r matches Err(e) ==> e is Store,
    {
        let row = match self.fetch_row(image_path) {
            Ok(row) => row,
            Err(e) => {
                return Err(e);
            },
        };
        let preview_there = match &row {
            Some(w) => path_exists(w.preview_path.as_str()),
            None => false,
        };
        match classify_lookup(row, size, modified, preview_there) {
            LookupAction::Hit { preview_path, width, height } => Ok(
                Some(CachedPreview { preview_path, width, height }),
            ),
            LookupAction::Purge => {
                match self.delete_row(image_path) {
                    Ok(_) => Ok(None),
                    Err(e) => Err(e),
                }
            },
            LookupAction::Miss => Ok(None),
            LookupAction::Corrupt => Err(ThumbnailError::Store),
        }
    }

    /// Get-or-create, first step.  `meta` is the live stat of the source
    /// file, `None` when it does not exist.
    pub fn get_or_create_thumbnail(&self, image_path: &str, meta: Option<FileMeta>) -> (r:
        ThumbnailStep)
        ensures
            meta is None ==> (r matches ThumbnailStep::Failed(e) && e is NotFound),
            meta is Some ==> (r matches ThumbnailStep::Failed(e) ==> e is Store),
    {
        let m = match meta {
            None => {
                return ThumbnailStep::Failed(ThumbnailError::NotFound);
            },
            Some(m) => m,
        };
        match self.lookup_thumbnail(image_path, m.size, m.modified) {
            Err(e) => ThumbnailStep::Failed(e),
            Ok(Some(p)) => ThumbnailStep::Cached {
                preview_path: p.preview_path,
                width: p.width,
                height: p.height,
            },
            Ok(None) => ThumbnailStep::NeedsSource,
        }
    }

    /// Renders a preview from the source bytes (`None` when the read
    /// failed): the decode-fit-encode pipeline, taking the dedicated JPEG
    /// XL path when the extension asks for it, succeeds exactly when the
    /// bytes decode, and the preview file is named from the key hash.
    pub fn render_thumbnail(
        &self,
        image_path: &str,
        meta: FileMeta,
        source: Option<Vec<u8>>,
    ) -> (r: Result<PendingThumbnail, ThumbnailError>)
        ensures
            source is None ==> (r matches Err(e) && e is Io),
            source is Some ==> match (
                r,
                spec_rendered_preview(image_path@, source->Some_0@, self.thumbnail_size),
            ) {
                (Ok(p), Some(t)) => p.bytes@ == t.0 && p.width == t.1 && p.height == t.2
                    && p.preview_path@ == spec_preview_path(
                    self.cache_dir@,
                    image_path@,
                    meta.size,
                    meta.modified,
                ),
                (Err(e), None) => e is Decode,
                _ => false,
            },
    {
        let data = match source {
            None => {
                return Err(ThumbnailError::Io);
            },
            Some(d) => d,
        };
        let rendered = if is_jxl_path(image_path) {
            render_webp_from_jxl(data.as_slice(), self.thumbnail_size)
        } else {
            render_webp_from_image(data.as_slice(), self.thumbnail_size)
        };
        let (bytes, width, height) = match rendered {
            Some(t) => t,
            None => {
                return Err(ThumbnailError::Decode);
            },
        };
        let mut hash_input = String::from_str(image_path);
        hash_input.append("-");
        let size_s = u64_to_string(meta.size);
        hash_input.append(size_s.as_str());
        hash_input.append("-");
        let modified_s = u64_to_string(meta.modified);
        hash_input.append(modified_s.as_str());
        let hash = md5_hex(hash_input.as_str());
        let name = file_name_of(image_path);
        let mut preview_path = self.cache_dir.clone();
        preview_path.append("/");
        preview_path.append(hash.as_str());
        preview_path.append("_");
        if name.unicode_len() > 0 {
            preview_path.append(name);
        } else {
            preview_path.append("unknown");
        }
        preview_path.append(".webp");
        proof {
            assert(preview_path@ =~= spec_preview_path(self.cache_dir@, image_path@,
                meta.size, meta.modified));
        }
        Ok(PendingThumbnail { preview_path, bytes, width, height })
    }

    /// Records a written preview: replaces any row for the path (the path
    /// column is unique) and returns the preview for the UI.
    pub fn store_thumbnail(
        &self,
        image_path: &str,
        meta: FileMeta,
        pending: &PendingThumbnail,
        created_at: u64,
    ) -> (r: Result<ThumbnailInfo, ThumbnailError>)
        ensures
            r matches Err(e) ==> e is Store,
            r matches Ok(i) ==> i.base64@ == base64_of(pending.bytes@)
                && i.mime_type@ == "image/webp"@
                && i.width == pending.width && i.height == pending.height,
    {
        let conn = match db_open(self.db_path.as_str()) {
            Ok(c) => c,
            Err(_) => {
                return Err(ThumbnailError::Store);
            },
        };
        #[verifier::truncate]
        let size_key: i64 = meta.size as i64;
        #[verifier::truncate]
        let modified_key: i64 = meta.modified as i64;
        #[verifier::truncate]
        let created_key: i64 = created_at as i64;
        let outcome = db_execute_record(
            &conn,
            "INSERT OR REPLACE INTO thumbnails
             (image_path, thumbnail_path, image_size, image_modified, width, height, created_at)
             VALUES (?, ?, ?, ?, ?, ?, ?)",
            image_path,
            pending.preview_path.as_str(),
            size_key,
            modified_key,
            pending.width as i64,
            pending.height as i64,
            created_key,
        );
        match outcome {
            Ok(_) => Ok(
                ThumbnailInfo {
                    base64: base64_encode(pending.bytes.as_slice()),
                    mime_type: String::from_str("image/webp"),
                    width: pending.width,
                    height: pending.height,
                },
            ),
            Err(_) => Err(ThumbnailError::Store),
        }
    }

    /// Whether a valid preview is recorded for the source: a row for the
    /// path whose key matches the live stat.  Never generates, never
    /// mutates the store, and swallows failures into `false`: the decision
    /// over the fetch outcome is `fresh_row_present`, whose contract is the
    /// if-and-only-if.
    pub fn has_thumbnail(&self, image_path: &str, meta: Option<FileMeta>) -> (r: bool)
        ensures
            meta is None ==> r == false,
    {
        let m = match meta {
            None => {
                return false;
            },
            Some(m) => m,
        };
        fresh_row_present(self.fetch_row(image_path), m.size, m.modified)
    }

    /// Removes every row.  The caller removes the preview files, keeping
    /// exactly those `is_preview_file` rejects.
    pub fn clear_cache(&self) -> (r: Result<(), ThumbnailError>)
        ensures
            r matches Err(e) ==> e is Store,
    {
        let conn = match db_open(self.db_path.as_str()) {
            Ok(c) => c,
            Err(_) => {
                return Err(ThumbnailError::Store);
            },
        };
        match db_execute(&conn, "DELETE FROM thumbnails") {
            Ok(_) => Ok(()),
            Err(_) => Err(ThumbnailError::Store),
        }
    }

    /// Statistics: the row count, and the bytes taken by the previews
    /// among the given directory entries (name and size), the same filter
    /// as clearing uses.  The byte total saturates at the largest `u64`.
    pub fn get_cache_stats(&self, entries: &Vec<(String, u64)>) -> (r: Result<
        (usize, u64),
        ThumbnailError,
    >)
        ensures
            r matches Err(e) ==> e is Store,
            r matches Ok(p) ==> p.1 as int == spec_cap_u64(spec_preview_total(entries@)),
    {
        let conn = match db_open(self.db_path.as_str()) {
            Ok(c) => c,
            Err(_) => {
                return Err(ThumbnailError::Store);
            },
        };
        let count_i64 = match db_query_i64(&conn, "SELECT COUNT(*) FROM thumbnails") {
            Ok(c) => c,
            Err(_) => {
                return Err(ThumbnailError::Store);
            },
        };
        if count_i64 < 0 {
            return Err(ThumbnailError::Store);
        }
        let count_u64: u64 = count_i64 as u64;
        if count_u64 > usize::MAX as u64 {
            return Err(ThumbnailError::Store);
        }
        let count: usize = count_u64 as usize;
        let n: usize = entries.len();
        let mut total: u64 = 0;
        let mut i: usize = 0;
        proof {
            assert(entries@.subrange(0, 0) =~= Seq::<(String, u64)>::empty());
        }
        while i < n
            invariant
                n == entries@.len(),
                0 <= i <= n,
                total as int == spec_cap_u64(spec_preview_total(entries@.subrange(0, i as int))),
            decreases n - i,
        {
            let ghost prefix = entries@.subrange(0, i as int);
            let ghost prefix1 = entries@.subrange(0, i as int + 1);
            proof {
                assert(prefix1.drop_last() =~= prefix);
                lemma_preview_total_nonneg(prefix);
            }
            let sz: u64 = entries[i].1;
            if is_preview_file(entries[i].0.as_str()) {
                if total > u64::MAX - sz {
                    total = u64::MAX;
                } else {
                    total = total + sz;
                }
            }
            i = i + 1;
        }
        proof {
            assert(entries@.subrange(0, n as int) =~= entries@);
        }
        Ok((count, total))
    }
}

/// Idempotence of get-or-create: the row recorded when a preview is
/// created for `(path, size, modified)` is fresh for that same stat, so
/// while the source is unchanged the next lookup reuses exactly the
/// written preview and dimensions, and serving the written bytes returns
/// the same content the creation reported.
pub proof fn lemma_written_row_is_reused(
    preview_path: String,
    width: u32,
    height: u32,
    size: u64,
    modified: u64,
)
    ensures
        ({
            let row = crate::store::StoredRow {
                preview_path: preview_path,
                size: size as i64,
                modified: modified as i64,
                width: width as i64,
                height: height as i64,
            };
            crate::store::spec_classify(Some(row), size, modified, true)
                == (crate::store::LookupAction::Hit { preview_path: preview_path, width, height })
        }),
{
}

/// Packages a stored preview read back from disk (`None` when the read
/// failed) with its recorded dimensions; cache hits are always served as
/// the canonical preview format.
pub fn cached_info(preview_bytes: Option<Vec<u8>>, width: u32, height: u32) -> (r: Result<
    ThumbnailInfo,
    ThumbnailError,
>)
    ensures
        preview_bytes is None ==> (r matches Err(e) && e is Io),
        preview_bytes matches Some(b) ==> (r matches Ok(i) && i.base64@ == base64_of(b@)
            && i.mime_type@ == "image/webp"@ && i.width == width && i.height == height),
{
    match preview_bytes {
        None => Err(ThumbnailError::Io),
        Some(b) => Ok(
            ThumbnailInfo {
                base64: base64_encode(b.as_slice()),
                mime_type: String::from_str("image/webp"),
                width,
                height,
            },
        ),
    }
}

/// A full image shown in place of a thumbnail when no manager is
/// available; the dimensions are unknown and reported as zero.
pub fn fallback_thumbnail(info: crate::codec::ImageInfo) -> (r: ThumbnailInfo)
    ensures
        r.base64@ == info.base64@,
        r.mime_type@ == info.mime_type@,
        r.width == 0 && r.height == 0,
{
    ThumbnailInfo { base64: info.base64, mime_type: info.mime_type, width: 0, height: 0 }
}

/// Whole percent of a batch done after `done` of `total` items.
pub fn progress_percent(done: usize, total: usize) -> (r: u32)
    requires
        0 < total,
        done <= total,
    ensures
        r as int == (done * 100) / (total as int),
        r <= 100,
{
    let done_wide: u128 = done as u128;
    let total_wide: u128 = total as u128;
    let p: u128 = (done_wide * 100) / total_wide;
    proof {
        assert((done as int * 100) / (total as int) <= 100) by (nonlinear_arith)
            requires
                0 < total,
                done <= total,
        ;
        assert(done_wide * 100 == done as int * 100);
    }
    p as u32
}

} // verus!
