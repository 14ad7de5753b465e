use thumbcache::preset::export_preset;
use thumbcache::preset::import_preset;
use thumbcache::preset::ExportPresetOptions;
use thumbcache::preset::ImportPresetOptions;
use thumbcache::thumbnail::progress_percent;

#[test]
fn export_reports_success_without_error() {
    let r = export_preset(None);
    assert!(r.success);
    assert_eq!(r.error, None);
}

#[test]
fn export_reports_the_write_error() {
    let r = export_preset(Some("disk full".to_string()));
    assert!(!r.success);
    assert_eq!(r.error.as_deref(), Some("disk full"));
}

#[test]
fn import_reports_content_on_success() {
    let r = import_preset(Ok("{\"threads\":4}".to_string()));
    assert!(r.success);
    assert_eq!(r.data.as_deref(), Some("{\"threads\":4}"));
    assert_eq!(r.error, None);
}

#[test]
fn import_reports_the_read_error() {
    let r = import_preset(Err("no such file".to_string()));
    assert!(!r.success);
    assert_eq!(r.data, None);
    assert_eq!(r.error.as_deref(), Some("no such file"));
}

#[test]
fn preset_options_round_trip_their_content() {
    let options = ExportPresetOptions {
        file_path: "presets/preset.json".to_string(),
        preset_data: "{\"similarity\":10}".to_string(),
    };
    let exported = export_preset(None);
    assert!(exported.success);

    let import_options = ImportPresetOptions { file_path: options.file_path.clone() };
    assert_eq!(import_options.file_path, "presets/preset.json");
    let imported = import_preset(Ok(options.preset_data.clone()));
    assert!(imported.success);
    assert_eq!(imported.data.as_deref(), Some("{\"similarity\":10}"));
}

#[test]
fn progress_is_whole_percent() {
    assert_eq!(progress_percent(1, 4), 25);
    assert_eq!(progress_percent(3, 3), 100);
    assert_eq!(progress_percent(1, 3), 33);
    assert_eq!(progress_percent(1, 1000), 0);
}
