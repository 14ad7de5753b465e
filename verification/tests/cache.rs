use base64::Engine;

use thumbcache::store::classify_lookup;
use thumbcache::store::fresh_row_present;
use thumbcache::store::LookupAction;
use thumbcache::store::StoredRow;
use thumbcache::thumbnail::cached_info;
use thumbcache::thumbnail::is_preview_file;
use thumbcache::thumbnail::FileMeta;
use thumbcache::thumbnail::ThumbnailError;
use thumbcache::thumbnail::ThumbnailManager;
use thumbcache::thumbnail::ThumbnailStep;

// The tests drive the manager as its caller would: they pass the source
// stat and bytes in, and stand in for the file writes.  A preview file is
// materialized, where a test needs one on disk, by opening it as an empty
// database, which creates it.
fn setup() -> ThumbnailManager {
    let manager = ThumbnailManager::new("/tmp".to_string(), 256);
    manager.init_database().unwrap();
    manager.clear_cache().unwrap();
    manager
}

// A fresh key per run, so that preview files left by an earlier run cannot
// satisfy this run's lookups.
fn nonce() -> u64 {
    let conn = rusqlite::Connection::open_in_memory().unwrap();
    let v: i64 = conn.query_row("SELECT random()", [], |row| row.get(0)).unwrap();
    v as u64
}

fn touch(path: &str) {
    let conn = rusqlite::Connection::open(path).unwrap();
    drop(conn);
}

fn tiny_png() -> Vec<u8> {
    let img = image::DynamicImage::ImageRgb8(image::RgbImage::from_pixel(
        16,
        12,
        image::Rgb([10, 200, 30]),
    ));
    let mut out: Vec<u8> = Vec::new();
    img.write_to(&mut std::io::Cursor::new(&mut out), image::ImageFormat::Png)
        .unwrap();
    out
}

#[test]
fn unchanged_source_is_served_from_store() {
    let manager = setup();
    let src = &format!("virtual/idem-{}/photo.png", nonce());
    let meta = FileMeta { size: 111, modified: 222 };

    let pending = manager
        .render_thumbnail(src, meta, Some(tiny_png()))
        .unwrap();
    touch(&pending.preview_path);
    let first = manager.store_thumbnail(src, meta, &pending, 1000).unwrap();

    match manager.get_or_create_thumbnail(src, Some(meta)) {
        ThumbnailStep::Cached { preview_path, width, height } => {
            assert_eq!(preview_path, pending.preview_path);
            assert_eq!(width, first.width);
            assert_eq!(height, first.height);
            let second = cached_info(Some(pending.bytes.clone()), width, height).unwrap();
            assert_eq!(second.base64, first.base64);
            assert_eq!(second.width, first.width);
            assert_eq!(second.height, first.height);
        }
        _ => panic!("expected the second call to be served from the store"),
    }

    let again = manager
        .render_thumbnail(src, meta, Some(tiny_png()))
        .unwrap();
    assert_eq!(again.bytes, pending.bytes);
    assert_eq!(again.preview_path, pending.preview_path);
}

#[test]
fn changed_source_replaces_the_row() {
    let manager = setup();
    let src = &format!("virtual/invalidate-{}/photo.png", nonce());
    let old_meta = FileMeta { size: 100, modified: 200 };
    let new_meta = FileMeta { size: 150, modified: 201 };

    let old_pending = manager
        .render_thumbnail(src, old_meta, Some(tiny_png()))
        .unwrap();
    touch(&old_pending.preview_path);
    manager
        .store_thumbnail(src, old_meta, &old_pending, 1000)
        .unwrap();
    assert!(manager.has_thumbnail(src, Some(old_meta)));

    assert!(matches!(
        manager.get_or_create_thumbnail(src, Some(new_meta)),
        ThumbnailStep::NeedsSource
    ));

    let new_pending = manager
        .render_thumbnail(src, new_meta, Some(tiny_png()))
        .unwrap();
    assert_ne!(new_pending.preview_path, old_pending.preview_path);
    touch(&new_pending.preview_path);
    manager
        .store_thumbnail(src, new_meta, &new_pending, 1001)
        .unwrap();

    assert!(!manager.has_thumbnail(src, Some(old_meta)));
    assert!(manager.has_thumbnail(src, Some(new_meta)));
    let entries: Vec<(String, u64)> = Vec::new();
    let (count, _) = manager.get_cache_stats(&entries).unwrap();
    assert_eq!(count, 1);
}

#[test]
fn missing_preview_file_heals_and_regenerates() {
    let manager = setup();
    let src = &format!("virtual/selfheal-{}/photo.png", nonce());
    let meta = FileMeta { size: 5, modified: 6 };

    let pending = manager
        .render_thumbnail(src, meta, Some(tiny_png()))
        .unwrap();
    // The preview file is never written: the row refers to a missing file.
    manager.store_thumbnail(src, meta, &pending, 1000).unwrap();
    assert!(manager.has_thumbnail(src, Some(meta)));

    let step = manager.get_or_create_thumbnail(src, Some(meta));
    assert!(matches!(step, ThumbnailStep::NeedsSource));
    assert!(!manager.has_thumbnail(src, Some(meta)));

    let again = manager
        .render_thumbnail(src, meta, Some(tiny_png()))
        .unwrap();
    touch(&again.preview_path);
    let info = manager.store_thumbnail(src, meta, &again, 1001).unwrap();
    assert!(info.width > 0);
    assert!(matches!(
        manager.get_or_create_thumbnail(src, Some(meta)),
        ThumbnailStep::Cached { .. }
    ));
}

#[test]
fn has_thumbnail_is_side_effect_free() {
    let manager = setup();
    let src = &format!("virtual/has-{}/photo.png", nonce());
    let meta = FileMeta { size: 7, modified: 8 };

    assert!(!manager.has_thumbnail(src, Some(meta)));
    assert!(!manager.has_thumbnail(src, Some(meta)));
    let entries: Vec<(String, u64)> = Vec::new();
    let (count, total) = manager.get_cache_stats(&entries).unwrap();
    assert_eq!(count, 0);
    assert_eq!(total, 0);
    assert!(matches!(
        manager.get_or_create_thumbnail(src, Some(meta)),
        ThumbnailStep::NeedsSource
    ));

    assert!(!manager.has_thumbnail("no/such/file.png", None));
}

#[test]
fn clear_cache_empties_rows_and_first_time_generation_follows() {
    let manager = setup();
    let n = nonce();
    let src_a = &format!("virtual/clear-{}/a.png", n);
    let src_b = &format!("virtual/clear-{}/b.png", n);
    let meta = FileMeta { size: 1, modified: 2 };

    let pending_a = manager
        .render_thumbnail(src_a, meta, Some(tiny_png()))
        .unwrap();
    touch(&pending_a.preview_path);
    manager.store_thumbnail(src_a, meta, &pending_a, 10).unwrap();
    let pending_b = manager
        .render_thumbnail(src_b, meta, Some(tiny_png()))
        .unwrap();
    touch(&pending_b.preview_path);
    manager.store_thumbnail(src_b, meta, &pending_b, 11).unwrap();

    let entries: Vec<(String, u64)> = Vec::new();
    let (count, _) = manager.get_cache_stats(&entries).unwrap();
    assert_eq!(count, 2);

    manager.clear_cache().unwrap();
    let (count, _) = manager.get_cache_stats(&entries).unwrap();
    assert_eq!(count, 0);
    assert!(!manager.has_thumbnail(src_a, Some(meta)));
    assert!(!manager.has_thumbnail(src_b, Some(meta)));

    assert!(matches!(
        manager.get_or_create_thumbnail(src_a, Some(meta)),
        ThumbnailStep::NeedsSource
    ));
    let again = manager
        .render_thumbnail(src_a, meta, Some(tiny_png()))
        .unwrap();
    assert_eq!(again.preview_path, pending_a.preview_path);
    touch(&again.preview_path);
    manager.store_thumbnail(src_a, meta, &again, 12).unwrap();
    let (count, _) = manager.get_cache_stats(&entries).unwrap();
    assert_eq!(count, 1);
}

#[test]
fn missing_source_fails_with_not_found() {
    let manager = setup();
    let step = manager.get_or_create_thumbnail("no/such/file.png", None);
    assert!(matches!(
        step,
        ThumbnailStep::Failed(ThumbnailError::NotFound)
    ));
    assert_eq!(ThumbnailError::NotFound.message(), "Image file not found");
}

#[test]
fn stats_total_counts_only_previews() {
    let manager = setup();
    let entries = vec![
        ("aaaa_cat.png.webp".to_string(), 10u64),
        ("stray.jpg".to_string(), 5u64),
        ("bbbb_dog.png.webp".to_string(), 7u64),
        ("thumbnails.db".to_string(), 4096u64),
    ];
    let (count, total) = manager.get_cache_stats(&entries).unwrap();
    assert_eq!(count, 0);
    assert_eq!(total, 17);
}

#[test]
fn preview_filename_is_hash_then_source_name() {
    let manager = setup();
    let src = &format!("virtual/name-{}/photo.png", nonce());
    let meta = FileMeta { size: 123, modified: 456 };
    let pending = manager
        .render_thumbnail(src, meta, Some(tiny_png()))
        .unwrap();
    let hash = format!(
        "{:x}",
        md5::compute(format!("{}-{}-{}", src, meta.size, meta.modified))
    );
    let expected = format!("/tmp/{}_photo.png.webp", hash);
    assert_eq!(pending.preview_path, expected);
    assert!(is_preview_file(&format!("{}_photo.png.webp", hash)));
    assert!(!is_preview_file("something.jpg"));
    assert!(!is_preview_file("webp"));
}

#[test]
fn cached_info_encodes_preview_bytes() {
    let bytes = vec![1u8, 2, 3, 4, 5];
    let info = cached_info(Some(bytes.clone()), 20, 10).unwrap();
    assert_eq!(info.base64, base64::prelude::BASE64_STANDARD.encode(&bytes));
    assert_eq!(info.mime_type, "image/webp");
    assert_eq!(info.width, 20);
    assert_eq!(info.height, 10);
    assert!(matches!(cached_info(None, 1, 1), Err(ThumbnailError::Io)));
}

#[test]
fn lookup_classification_follows_the_key() {
    let row = StoredRow {
        preview_path: "p.webp".to_string(),
        size: 100,
        modified: 200,
        width: 32,
        height: 16,
    };
    assert!(matches!(
        classify_lookup(Some(row), 100, 200, true),
        LookupAction::Hit { width: 32, height: 16, .. }
    ));
    let row2 = StoredRow {
        preview_path: "p.webp".to_string(),
        size: 100,
        modified: 200,
        width: 32,
        height: 16,
    };
    assert!(matches!(
        classify_lookup(Some(row2), 101, 200, true),
        LookupAction::Miss
    ));
    let row3 = StoredRow {
        preview_path: "p.webp".to_string(),
        size: 100,
        modified: 200,
        width: 32,
        height: 16,
    };
    assert!(matches!(
        classify_lookup(Some(row3), 100, 200, false),
        LookupAction::Purge
    ));
    assert!(matches!(
        classify_lookup(None, 100, 200, true),
        LookupAction::Miss
    ));
    let wide = StoredRow {
        preview_path: "p.webp".to_string(),
        size: 100,
        modified: 200,
        width: 4294967296,
        height: 16,
    };
    assert!(matches!(
        classify_lookup(Some(wide), 100, 200, true),
        LookupAction::Corrupt
    ));
}

#[test]
fn unreachable_store_reports_store_errors() {
    let manager = ThumbnailManager::new("/no/such/dir/anywhere".to_string(), 256);
    assert!(matches!(manager.init_database(), Err(ThumbnailError::Store)));
    let meta = FileMeta { size: 1, modified: 2 };
    assert!(matches!(
        manager.get_or_create_thumbnail("virtual/x.png", Some(meta)),
        ThumbnailStep::Failed(ThumbnailError::Store)
    ));
    assert!(!manager.has_thumbnail("virtual/x.png", Some(meta)));
    assert!(matches!(manager.clear_cache(), Err(ThumbnailError::Store)));
    let entries: Vec<(String, u64)> = Vec::new();
    assert!(matches!(
        manager.get_cache_stats(&entries),
        Err(ThumbnailError::Store)
    ));
}

#[test]
fn existence_decision_is_the_freshness_match() {
    let row = StoredRow {
        preview_path: "p.webp".to_string(),
        size: 100,
        modified: 200,
        width: 32,
        height: 16,
    };
    assert!(fresh_row_present(Ok(Some(row)), 100, 200));
    let stale = StoredRow {
        preview_path: "p.webp".to_string(),
        size: 100,
        modified: 200,
        width: 32,
        height: 16,
    };
    assert!(!fresh_row_present(Ok(Some(stale)), 100, 201));
    assert!(!fresh_row_present(Ok(None), 100, 200));
    assert!(!fresh_row_present(Err(ThumbnailError::Store), 100, 200));
}
