//! What is known of a decrypted payload: its MIME type, and whether it is
//! in the proprietary pixel format that has to be converted first.

use vstd::prelude::*;

verus! {

/// Whether the bytes of `data` from `at` on are those of `magic`.
pub open spec fn has_bytes_at(data: Seq<u8>, at: int, magic: Seq<u8>) -> bool {
    at + magic.len() <= data.len() && data.subrange(at, at + magic.len()) == magic
}

/// Start of a JPEG file.
pub open spec fn jpeg_magic() -> Seq<u8> {
    seq![0xFFu8, 0xD8u8, 0xFFu8]
}

/// Start of a PNG file.
pub open spec fn png_magic() -> Seq<u8> {
    seq![0x89u8, 0x50u8, 0x4Eu8, 0x47u8]
}

/// Start of a GIF file: `GIF`.
pub open spec fn gif_magic() -> Seq<u8> {
    seq![0x47u8, 0x49u8, 0x46u8]
}

/// Start of a RIFF file: `RIFF`.
pub open spec fn riff_magic() -> Seq<u8> {
    seq![0x52u8, 0x49u8, 0x46u8, 0x46u8]
}

/// The form type of a WebP file, at offset 8 of a RIFF file: `WEBP`.
pub open spec fn webp_magic() -> Seq<u8> {
    seq![0x57u8, 0x45u8, 0x42u8, 0x50u8]
}

/// The marker of the proprietary pixel format in lower case: `wxgf`.
pub open spec fn wxgf_lower_magic() -> Seq<u8> {
    seq![0x77u8, 0x78u8, 0x67u8, 0x66u8]
}

/// The marker of the proprietary pixel format in upper case: `WXGF`.
pub open spec fn wxgf_upper_magic() -> Seq<u8> {
    seq![0x57u8, 0x58u8, 0x47u8, 0x46u8]
}

/// The MIME type of a payload, by the bytes that it starts with. A payload
/// that starts like no known image, the empty one included, is taken for a
/// JPEG.
pub open spec fn mime_type_of(data: Seq<u8>) -> Seq<char> {
    if has_bytes_at(data, 0, jpeg_magic()) {
        "image/jpeg"@
    } else if has_bytes_at(data, 0, png_magic()) {
        "image/png"@
    } else if has_bytes_at(data, 0, gif_magic()) {
        "image/gif"@
    } else if has_bytes_at(data, 0, riff_magic()) && has_bytes_at(data, 8, webp_magic()) {
        "image/webp"@
    } else {
        "image/jpeg"@
    }
}

/// Whether a payload is in the proprietary pixel format.
pub open spec fn is_wxgf(data: Seq<u8>) -> bool {
    has_bytes_at(data, 0, wxgf_lower_magic()) || has_bytes_at(data, 0, wxgf_upper_magic())
}

/// The payload that is shown: the converted image, where the payload is in
/// the proprietary format and the conversion gave one; else the payload.
pub open spec fn shown_payload(data: Seq<u8>, converted: Option<Seq<u8>>) -> Seq<u8> {
    match converted {
        Some(image) if is_wxgf(data) => image,
        _ => data,
    }
}

/// Compares the bytes of `data` from `at` on with `magic`.
fn starts_with_at(data: &[u8], at: usize, magic: &[u8]) -> (found: bool)
    requires
        at + magic@.len() <= usize::MAX,
    ensures
        found == has_bytes_at(data@, at as int, magic@),
{
    if data.len() < at + magic.len() {
        return false;
    }
    let mut i: usize = 0;
    while i < magic.len()
        invariant
            i <= magic@.len(),
            at + magic@.len() <= data@.len() <= usize::MAX,
            forall|j: int| 0 <= j < i ==> data@[at + j] == magic@[j],
        decreases magic@.len() - i,
    {
        if data[at + i] != magic[i] {
            assert(data@.subrange(at as int, at + magic@.len())[i as int] != magic@[i as int]);
            return false;
        }
        i += 1;
    }
    assert(data@.subrange(at as int, at + magic@.len()) =~= magic@);
    true
}

/// Tells the MIME type of a payload by the bytes that it starts with.
pub fn detect_mime_type(data: &[u8]) -> (mime: &'static str)
    ensures
        mime@ == mime_type_of(data@),
{
    let jpeg = [0xFFu8, 0xD8u8, 0xFFu8];
    let png = [0x89u8, 0x50u8, 0x4Eu8, 0x47u8];
    let gif = [0x47u8, 0x49u8, 0x46u8];
    let riff = [0x52u8, 0x49u8, 0x46u8, 0x46u8];
    let webp = [0x57u8, 0x45u8, 0x42u8, 0x50u8];
    assert(jpeg@ =~= jpeg_magic());
    assert(png@ =~= png_magic());
    assert(gif@ =~= gif_magic());
    assert(riff@ =~= riff_magic());
    assert(webp@ =~= webp_magic());
    if starts_with_at(data, 0, jpeg.as_slice()) {
        "image/jpeg"
    } else if starts_with_at(data, 0, png.as_slice()) {
        "image/png"
    } else if starts_with_at(data, 0, gif.as_slice()) {
        "image/gif"
    } else if starts_with_at(data, 0, riff.as_slice()) && starts_with_at(data, 8, webp.as_slice()) {
        "image/webp"
    } else {
        "image/jpeg"
    }
}

/// Whether a payload has to be converted before it can be shown: it starts
/// with the marker of the proprietary pixel format, in lower or upper case.
pub fn needs_conversion(data: &[u8]) -> (needed: bool)
    ensures
        needed == is_wxgf(data@),
{
    let lower = [0x77u8, 0x78u8, 0x67u8, 0x66u8];
    let upper = [0x57u8, 0x58u8, 0x47u8, 0x46u8];
    assert(lower@ =~= wxgf_lower_magic());
    assert(upper@ =~= wxgf_upper_magic());
    starts_with_at(data, 0, lower.as_slice()) || starts_with_at(data, 0, upper.as_slice())
}

/// Chooses what is shown of a decrypted payload and tells its MIME type.
/// `converted` is what the converter made of the payload, if it was asked
/// and gave an image; without one the payload is shown as it is.
pub fn normalize_decrypted_image(data: Vec<u8>, converted: Option<Vec<u8>>) -> (shown: (
    Vec<u8>,
    String,
))
    ensures
        shown.0@ == shown_payload(
            data@,
            match converted {
                Some(image) => Some(image@),
                None => None,
            },
        ),
        shown.1@ == mime_type_of(shown.0@),
        converted is None || !is_wxgf(data@) ==> shown.0@ == data@,
{
    match converted {
        Some(image) => {
            if needs_conversion(data.as_slice()) {
                let mime = String::from_str(detect_mime_type(image.as_slice()));
                return (image, mime);
            }
        },
        None => {},
    }
    let mime = String::from_str(detect_mime_type(data.as_slice()));
    (data, mime)
}

} // verus!
