//! Media-type fallback table keyed by file extension, for image formats
//! that content sniffing does not recognize.

use vstd::prelude::*;
use vstd::string::*;

use crate::text::{
    eq_ignore_ascii_case, extension_of, lower_seq, spec_extension,
};

verus! {

/// The media type assigned to a lowercased extension, if the table knows it.
pub open spec fn spec_mime_for_extension(e: Seq<char>) -> Option<Seq<char>> {
    let l = lower_seq(e);
    if l == "jxl"@ {
        Some("image/jxl"@)
    } else if l == "avif"@ {
        Some("image/avif"@)
    } else if l == "heic"@ {
        Some("image/heic"@)
    } else if l == "heif"@ {
        Some("image/heif"@)
    } else if l == "tiff"@ || l == "tif"@ {
        Some("image/tiff"@)
    } else if l == "ico"@ {
        Some("image/x-icon"@)
    } else if l == "svg"@ {
        Some("image/svg+xml"@)
    } else {
        None
    }
}

/// The media type the table assigns to a path, going by its extension.
pub open spec fn spec_mime_from_path(p: Seq<char>) -> Option<Seq<char>> {
    match spec_extension(p) {
        Some(e) => spec_mime_for_extension(e),
        None => None,
    }
}

/// A sequence without ASCII uppercase characters folds to itself.
proof fn lemma_lower_fixed(s: Seq<char>)
    requires
        forall|i: int| 0 <= i < s.len() ==> !(65 <= #[trigger] (s[i] as int) <= 90),
    ensures
        lower_seq(s) == s,
{
    assert(lower_seq(s) =~= s);
}

/// Media type for a known image extension, compared case-insensitively.
pub fn mime_for_extension(e: &str) -> (r: Option<String>)
    ensures
        match r {
            Some(m) => spec_mime_for_extension(e@) == Some(m@),
            None => spec_mime_for_extension(e@) is None,
        },
{
    proof {
        reveal_strlit("jxl");
        reveal_strlit("avif");
        reveal_strlit("heic");
        reveal_strlit("heif");
        reveal_strlit("tiff");
        reveal_strlit("tif");
        reveal_strlit("ico");
        reveal_strlit("svg");
        lemma_lower_fixed("jxl"@);
        lemma_lower_fixed("avif"@);
        lemma_lower_fixed("heic"@);
        lemma_lower_fixed("heif"@);
        lemma_lower_fixed("tiff"@);
        lemma_lower_fixed("tif"@);
        lemma_lower_fixed("ico"@);
        lemma_lower_fixed("svg"@);
    }
    if eq_ignore_ascii_case(e, "jxl") {
        Some(String::from_str("image/jxl"))
    } else if eq_ignore_ascii_case(e, "avif") {
        Some(String::from_str("image/avif"))
    } else if eq_ignore_ascii_case(e, "heic") {
        Some(String::from_str("image/heic"))
    } else if eq_ignore_ascii_case(e, "heif") {
        Some(String::from_str("image/heif"))
    } else if eq_ignore_ascii_case(e, "tiff") || eq_ignore_ascii_case(e, "tif") {
        Some(String::from_str("image/tiff"))
    } else if eq_ignore_ascii_case(e, "ico") {
        Some(String::from_str("image/x-icon"))
    } else if eq_ignore_ascii_case(e, "svg") {
        Some(String::from_str("image/svg+xml"))
    } else {
        None
    }
}

/// Fallback media type for a path whose content could not be sniffed:
/// the table entry for its extension.
pub fn get_mime_type_from_extension(path: &str) -> (r: Option<String>)
    ensures
        match r {
            Some(m) => spec_mime_from_path(path@) == Some(m@),
            None => spec_mime_from_path(path@) is None,
        },
{
    match extension_of(path) {
        None => None,
        Some(e) => mime_for_extension(e),
    }
}

/// A path names a JPEG XL file when its extension folds to `jxl`; these
/// take the dedicated decode path.
pub open spec fn spec_is_jxl(p: Seq<char>) -> bool {
    match spec_extension(p) {
        Some(e) => lower_seq(e) == "jxl"@,
        None => false,
    }
}

/// Whether a path names a JPEG XL file, going by its extension.
pub fn is_jxl_path(path: &str) -> (r: bool)
    ensures
        r == spec_is_jxl(path@),
{
    proof {
        reveal_strlit("jxl");
        lemma_lower_fixed("jxl"@);
    }
    match extension_of(path) {
        None => false,
        Some(e) => eq_ignore_ascii_case(e, "jxl"),
    }
}

} // verus!
