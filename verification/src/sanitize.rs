//! HTML tag removal and image upload validation.
use vstd::prelude::*;
use base64::Engine;

verus! {

/// What ammonia's cleaner leaves of a text when every tag is removed: the
/// text's content with all HTML elements gone.
pub uninterp spec fn tags_removed(s: Seq<char>) -> Seq<char>;

/// Relies on ammonia::Builder::clean with an empty tag allowlist: it
/// removes every HTML tag and keeps the text content; the result depends on
/// the input text alone.
#[verifier::external_body]
pub fn remove_html_tags(html: &str) -> (r: String)
    ensures
        r@ == tags_removed(html@),
{
    let mut builder = ammonia::Builder::default();
    builder.tags(std::collections::HashSet::new());
    builder.clean_content_tags(std::collections::HashSet::new());
    builder.clean(html).to_string()
}

/// What base64's standard-alphabet decoder makes of a text: the decoded
/// bytes, or nothing when the text is not valid base64.
pub uninterp spec fn base64_decoded(s: Seq<char>) -> Option<Seq<u8>>;

/// Relies on base64's STANDARD engine decode: the decoded bytes are a
/// function of the input text alone, and decoding fails exactly on invalid
/// base64 text.
#[verifier::external_body]
fn decode_base64(s: &str) -> (r: Option<Vec<u8>>)
    ensures
        match r {
            Some(v) => base64_decoded(s@) == Some(v@),
            None => base64_decoded(s@) is None,
        },
{
    match base64::engine::general_purpose::STANDARD.decode(s) {
        Ok(v) => Some(v),
        Err(_) => None,
    }
}

/// An uploaded image: its MIME type and its base64-encoded bytes.
#[derive(Debug, Clone, PartialEq, Eq)]
pub struct ImageData {
    pub mime_type: String,
    pub data: String,
}

pub struct ImageDataV {
    pub mime_type: Seq<char>,
    pub data: Seq<char>,
}

impl DeepView for ImageData {
    type V = ImageDataV;

    open spec fn deep_view(&self) -> ImageDataV {
        ImageDataV { mime_type: self.mime_type@, data: self.data@ }
    }
}

/// The largest accepted decoded image, in bytes.
pub const MAX_IMAGE_BYTES: usize = 5 * 1024 * 1024;

/// The accepted image MIME types.
pub open spec fn allowed_mime(m: Seq<char>) -> bool {
    m == "image/jpeg"@ || m == "image/png"@ || m == "image/gif"@ || m == "image/webp"@
}

/// The verdict on an uploaded image: its type must be accepted, its data
/// must decode as base64, and the decoded size must stay within the limit.
pub open spec fn image_verdict(img: ImageDataV) -> Result<(), Seq<char>> {
    if !allowed_mime(img.mime_type) {
        Err("Invalid image type. Supported types: JPEG, PNG, GIF, WebP"@)
    } else {
        match base64_decoded(img.data) {
            None => Err("Invalid base64 data"@),
            Some(bytes) => if bytes.len() > MAX_IMAGE_BYTES {
                Err("Image size exceeds 5MB limit"@)
            } else {
                Ok(())
            },
        }
    }
}

/// Validates an uploaded image.
pub fn validate_item_image(image: &ImageData) -> (r: Result<(), String>)
    ensures
        match r {
            Ok(_) => image_verdict(image.deep_view()) is Ok,
            Err(e) => image_verdict(image.deep_view()) == Err::<(), Seq<char>>(e@),
        },
{
    let m = image.mime_type.as_str();
    if !(crate::chars::str_eq(m, "image/jpeg") || crate::chars::str_eq(m, "image/png")
        || crate::chars::str_eq(m, "image/gif") || crate::chars::str_eq(m, "image/webp")) {
        return Err(
            String::from_str("Invalid image type. Supported types: JPEG, PNG, GIF, WebP"),
        );
    }
    match decode_base64(image.data.as_str()) {
        None => Err(String::from_str("Invalid base64 data")),
        Some(bytes) => if bytes.len() > MAX_IMAGE_BYTES {
            Err(String::from_str("Image size exceeds 5MB limit"))
        } else {
            Ok(())
        },
    }
}

} // verus!
