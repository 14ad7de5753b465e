//! Codec adapter: rendering previews from encoded bytes (with a dedicated
//! path for JPEG XL, which generic decoding does not handle), re-encoding
//! JPEG XL for display, and the digests and encodings the cache builds on.
//! Every call into an image or digest crate lives behind a trusted wrapper
//! here, and each pipeline's result is named, so that success and content
//! are functions of the input bytes that contracts can speak of.

use vstd::prelude::*;
use vstd::string::*;

use base64::Engine;
use image::GenericImageView;

use crate::mime::get_mime_type_from_extension;
use crate::mime::is_jxl_path;
use crate::mime::spec_is_jxl;
use crate::mime::spec_mime_from_path;

verus! {

/// What decoding bytes of a generally sniffed format, fitting the raster
/// to a `max_size` bounding box and re-encoding it as WebP yields: the
/// WebP bytes and the fitted dimensions, or nothing when the bytes do not
/// decode; a function of the bytes and the bound alone.
pub uninterp spec fn rendered_from_image(data: Seq<u8>, max_size: u32) -> Option<
    (Seq<u8>, u32, u32),
>;

/// Relies on `image::load_from_memory`, `DynamicImage::thumbnail`,
/// `GenericImageView::dimensions` and `DynamicImage::write_to` with
/// `ImageFormat::WebP`: one decode-fit-encode pipeline, deterministic in
/// the input bytes and the bound.
#[verifier::external_body]
pub(crate) fn render_webp_from_image(data: &[u8], max_size: u32) -> (r: Option<
    (Vec<u8>, u32, u32),
>)
    ensures
        match r {
            Some(t) => rendered_from_image(data@, max_size) == Some((t.0@, t.1, t.2)),
            None => rendered_from_image(data@, max_size) is None,
        },
{
    let img = image::load_from_memory(data).ok()?;
    let thumb = img.thumbnail(max_size, max_size);
    let (width, height) = thumb.dimensions();
    let mut out: Vec<u8> = Vec::new();
    thumb.write_to(&mut std::io::Cursor::new(&mut out), image::ImageFormat::WebP).ok()?;
    Some((out, width, height))
}

/// The same pipeline over the dedicated JPEG XL decoder; a function of
/// the bytes and the bound alone.
pub uninterp spec fn rendered_from_jxl(data: Seq<u8>, max_size: u32) -> Option<
    (Seq<u8>, u32, u32),
>;

/// Relies on `jxl_oxide::integration::JxlDecoder`,
/// `image::DynamicImage::from_decoder`, `DynamicImage::thumbnail`,
/// `GenericImageView::dimensions` and `DynamicImage::write_to` with
/// `ImageFormat::WebP`: the JPEG XL decode-fit-encode pipeline,
/// deterministic in the input bytes and the bound.
#[verifier::external_body]
pub(crate) fn render_webp_from_jxl(data: &[u8], max_size: u32) -> (r: Option<
    (Vec<u8>, u32, u32),
>)
    ensures
        match r {
            Some(t) => rendered_from_jxl(data@, max_size) == Some((t.0@, t.1, t.2)),
            None => rendered_from_jxl(data@, max_size) is None,
        },
{
    let decoder = jxl_oxide::integration::JxlDecoder::new(std::io::Cursor::new(data)).ok()?;
    let img = image::DynamicImage::from_decoder(decoder).ok()?;
    let thumb = img.thumbnail(max_size, max_size);
    let (width, height) = thumb.dimensions();
    let mut out: Vec<u8> = Vec::new();
    thumb.write_to(&mut std::io::Cursor::new(&mut out), image::ImageFormat::WebP).ok()?;
    Some((out, width, height))
}

/// What re-encoding JPEG XL bytes as PNG yields, or nothing when they do
/// not decode; a function of the bytes alone.
pub uninterp spec fn png_of_jxl(data: Seq<u8>) -> Option<Seq<u8>>;

/// Relies on `jxl_oxide::integration::JxlDecoder`,
/// `image::DynamicImage::from_decoder` and `DynamicImage::write_to` with
/// `ImageFormat::Png`: the JPEG XL to PNG re-encoding, deterministic in
/// the input bytes.
#[verifier::external_body]
pub(crate) fn jxl_to_png(data: &[u8]) -> (r: Option<Vec<u8>>)
    ensures
        match r {
            Some(png) => png_of_jxl(data@) == Some(png@),
            None => png_of_jxl(data@) is None,
        },
{
    let decoder = jxl_oxide::integration::JxlDecoder::new(std::io::Cursor::new(data)).ok()?;
    let img = image::DynamicImage::from_decoder(decoder).ok()?;
    let mut out: Vec<u8> = Vec::new();
    img.write_to(&mut std::io::Cursor::new(&mut out), image::ImageFormat::Png).ok()?;
    Some(out)
}

/// What base64's standard alphabet, with padding, encodes bytes to; a
/// function of the bytes alone.
pub uninterp spec fn base64_of(bytes: Seq<u8>) -> Seq<char>;

/// Relies on `BASE64_STANDARD.encode` of the base64 crate: the standard
/// alphabet with padding, a function of the input bytes alone; empty input
/// encodes to the empty string.
#[verifier::external_body]
pub(crate) fn base64_encode(data: &[u8]) -> (r: String)
    ensures
        r@ == base64_of(data@),
        data@.len() == 0 ==> r@.len() == 0,
{
    base64::prelude::BASE64_STANDARD.encode(data)
}

/// A lowercase hexadecimal digit character.
pub open spec fn is_lower_hex_char(c: char) -> bool {
    (48 <= c as int && c as int <= 57) || (97 <= c as int && c as int <= 102)
}

/// The lowercase hexadecimal MD5 digest of a string's bytes; a function of
/// the input alone.
pub uninterp spec fn md5_hex_of(text: Seq<char>) -> Seq<char>;

/// Relies on `md5::compute` and the crate's `LowerHex` formatting of the
/// digest: 16 bytes printed as two lowercase hex digits each, so the text
/// is 32 lowercase hexadecimal characters.
#[verifier::external_body]
pub(crate) fn md5_hex(text: &str) -> (r: String)
    ensures
        r@ == md5_hex_of(text@),
        r@.len() == 32,
        forall|i: int| 0 <= i < r@.len() ==> is_lower_hex_char(#[trigger] r@[i]),
{
    format!("{:x}", md5::compute(text))
}

/// What the infer crate's signature table says the bytes are; a function
/// of the bytes alone.
pub uninterp spec fn inferred_mime_of(bytes: Seq<u8>) -> Option<Seq<char>>;

/// Relies on `infer::get` and `infer::Type::mime_type`: content sniffing
/// against a fixed signature table, a function of the bytes alone.
#[verifier::external_body]
pub(crate) fn infer_mime(data: &[u8]) -> (r: Option<String>)
    ensures
        match r {
            Some(m) => inferred_mime_of(data@) == Some(m@),
            None => inferred_mime_of(data@) is None,
        },
{
    infer::get(data).map(|k| k.mime_type().to_owned())
}

/// An image handed to the UI: its encoded bytes in base64 and its media
/// type.
pub struct ImageInfo {
    pub base64: String,
    pub mime_type: String,
}

/// Packages re-encoded PNG bytes for the UI.
pub fn png_image_info(png: Vec<u8>) -> (r: ImageInfo)
    ensures
        r.base64@ == base64_of(png@),
        r.mime_type@ == "image/png"@,
{
    ImageInfo { base64: base64_encode(png.as_slice()), mime_type: String::from_str("image/png") }
}

/// Reads an image for display.  `data` is the file's content, `None` when
/// it could not be read.  JPEG XL files are re-encoded to PNG — succeeding
/// exactly when the bytes decode — and everything else is passed through
/// with a sniffed media type, falling back to the extension table.
pub fn read_image(path: &str, data: Option<Vec<u8>>) -> (r: Result<ImageInfo, ()>)
    ensures
        data is None ==> r is Err,
        (data is Some && !spec_is_jxl(path@)) ==> match (
            r,
            inferred_mime_of(data->Some_0@),
        ) {
            (Ok(info), Some(m)) => info.mime_type@ == m
                && info.base64@ == base64_of(data->Some_0@),
            (Ok(info), None) => spec_mime_from_path(path@) == Some(info.mime_type@)
                && info.base64@ == base64_of(data->Some_0@),
            (Err(e), None) => spec_mime_from_path(path@) is None,
            (Err(e), Some(m)) => false,
        },
        (data is Some && spec_is_jxl(path@)) ==> match (r, png_of_jxl(data->Some_0@)) {
            (Ok(info), Some(png)) => info.mime_type@ == "image/png"@
                && info.base64@ == base64_of(png),
            (Err(e), None) => true,
            _ => false,
        },
{
    let d = match data {
        Some(d) => d,
        None => {
            return Err(());
        },
    };
    if is_jxl_path(path) {
        return match jxl_to_png(d.as_slice()) {
            Some(png) => Ok(png_image_info(png)),
            None => Err(()),
        };
    }
    let mime_type = match infer_mime(d.as_slice()) {
        Some(m) => m,
        None => {
            match get_mime_type_from_extension(path) {
                Some(m) => m,
                None => {
                    return Err(());
                },
            }
        },
    };
    let base64 = base64_encode(d.as_slice());
    Ok(ImageInfo { base64, mime_type })
}

} // verus!
