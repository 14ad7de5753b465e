//! Preset import and export: shaping the outcome of a settings-file read
//! or write into the result the UI is told about.  The file access itself
//! is the caller's; the result layout is verified.

use vstd::prelude::*;

verus! {

/// A request to write a preset: where, and the serialized settings.
pub struct ExportPresetOptions {
    pub file_path: String,
    pub preset_data: String,
}

/// A request to read a preset back.
pub struct ImportPresetOptions {
    pub file_path: String,
}

/// What an export reports: success, or the write error's description.
pub struct ExportPresetResult {
    pub success: bool,
    pub error: Option<String>,
}

/// What an import reports: the file's content on success, else the read
/// error's description.
pub struct ImportPresetResult {
    pub success: bool,
    pub data: Option<String>,
    pub error: Option<String>,
}

/// The result reported for a preset write whose error, if any, is
/// `write_error`: success exactly when there was none.
pub fn export_preset(write_error: Option<String>) -> (r: ExportPresetResult)
    ensures
        r.success == (write_error is None),
        r.error == write_error,
{
    match write_error {
        None => ExportPresetResult { success: true, error: None },
        Some(e) => ExportPresetResult { success: false, error: Some(e) },
    }
}

/// The result reported for a preset read: the content on success, the
/// error's description otherwise, never both.
pub fn import_preset(read_outcome: Result<String, String>) -> (r: ImportPresetResult)
    ensures
        read_outcome matches Ok(content) ==> (r.success && r.data == Some(content)
            && r.error is None),
        read_outcome matches Err(e) ==> (!r.success && r.data is None && r.error == Some(e)),
{
    match read_outcome {
        Ok(content) => ImportPresetResult { success: true, data: Some(content), error: None },
        Err(e) => ImportPresetResult { success: false, data: None, error: Some(e) },
    }
}

} // verus!
