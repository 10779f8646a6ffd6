//! From the bytes of an image file to what an image block holds.

use crate::constants::SUPPORT_MEDIA_TYPE;
use crate::json::same_text;
use vstd::prelude::*;

verus! {

/// The media type that `infer::get` finds in the first bytes of a buffer;
/// `None` where it knows none.
pub uninterp spec fn sniffed_media_type(bytes: Seq<u8>) -> Option<Seq<char>>;

/// The text that base64's standard engine, with padding, encodes bytes to.
pub uninterp spec fn base64_standard(bytes: Seq<u8>) -> Seq<char>;

/// `infer::get`, and `infer::Type::mime_type` on what it finds: the same
/// bytes give the same media type, or none every time.
#[verifier::external_body]
fn sniff(buffer: &[u8]) -> (r: Option<&'static str>)
    ensures
        match r {
            Some(media_type) => sniffed_media_type(buffer@) == Some(media_type@),
            None => sniffed_media_type(buffer@) is None,
        },
{
    infer::get(buffer).map(|kind| kind.mime_type())
}

/// The encoded text of `len` bytes has a length that a `usize` holds: four
/// characters for every three bytes begun.
pub open spec fn base64_fits(len: nat) -> bool {
    (len / 3) * 4 + (if len % 3 > 0 {
        4nat
    } else {
        0nat
    }) <= usize::MAX
}

/// `base64::Engine::encode` on `base64::engine::general_purpose::STANDARD`:
/// the same bytes give the same text. It panics where the text's length
/// overflows; `requires` leaves those buffers out.
#[verifier::external_body]
fn encode_base64(buffer: &[u8]) -> (r: String)
    requires
        base64_fits(buffer@.len()),
    ensures
        r@ == base64_standard(buffer@),
{
    base64::Engine::encode(&base64::engine::general_purpose::STANDARD, buffer)
}

/// The image formats that the API takes: JPEG, PNG, GIF and WEBP.
pub open spec fn supported_media_type(media_type: Seq<char>) -> bool {
    ||| media_type == "image/jpeg"@
    ||| media_type == "image/png"@
    ||| media_type == "image/gif"@
    ||| media_type == "image/webp"@
}

/// Whether the API takes images of this format.
pub fn is_supported_media_type(media_type: &str) -> (r: bool)
    ensures
        r == supported_media_type(media_type@),
{
    same_text(media_type, SUPPORT_MEDIA_TYPE[0]) || same_text(media_type, SUPPORT_MEDIA_TYPE[1])
        || same_text(media_type, SUPPORT_MEDIA_TYPE[2]) || same_text(
        media_type,
        SUPPORT_MEDIA_TYPE[3],
    )
}

/// Why bytes cannot go into an image block.
#[derive(Debug, Clone, PartialEq, Eq)]
pub enum ImageTypeError {
    /// Nothing known begins with these bytes.
    Unknown,
    /// The bytes are of a format that the API does not take.
    Unsupported { media_type: String },
}

/// The mathematical value of an [`ImageTypeError`].
pub ghost enum ImageFault {
    Unknown,
    Unsupported { media_type: Seq<char> },
}

impl View for ImageTypeError {
    type V = ImageFault;

    open spec fn view(&self) -> ImageFault {
        match self {
            ImageTypeError::Unknown => ImageFault::Unknown,
            ImageTypeError::Unsupported { media_type } => ImageFault::Unsupported {
                media_type: media_type@,
            },
        }
    }
}

/// The media type that an image block may carry: the one found in the bytes,
/// where one was found and the API takes it.
pub open spec fn accepted(sniffed: Option<Seq<char>>) -> Result<Seq<char>, ImageFault> {
    match sniffed {
        None => Err(ImageFault::Unknown),
        Some(media_type) => if supported_media_type(media_type) {
            Ok(media_type)
        } else {
            Err(ImageFault::Unsupported { media_type })
        },
    }
}

/// What an image block holds, from what was found in the bytes and their
/// encoding: the accepted media type and the encoded bytes.
pub open spec fn image_parts(sniffed: Option<Seq<char>>, data: Seq<char>) -> Result<
    (Seq<char>, Seq<char>),
    ImageFault,
> {
    match accepted(sniffed) {
        Ok(media_type) => Ok((media_type, data)),
        Err(fault) => Err(fault),
    }
}

/// Checks what was found in the bytes of a file against the formats that the
/// API takes.
pub fn accept_media_type(sniffed: Option<&str>) -> (r: Result<String, ImageTypeError>)
    ensures
        accepted(
            match sniffed {
                Some(found) => Some(found@),
                None => None,
            },
        ) == (match r {
            Ok(media_type) => Ok::<Seq<char>, ImageFault>(media_type@),
            Err(error) => Err(error@),
        }),
{
    match sniffed {
        None => Err(ImageTypeError::Unknown),
        Some(found) => {
            if is_supported_media_type(found) {
                Ok(found.to_owned())
            } else {
                Err(ImageTypeError::Unsupported { media_type: found.to_owned() })
            }
        },
    }
}

/// The media type of an image, found in its bytes, and the bytes in base64.
///
/// It fails, before anything is encoded, on bytes in which no format is
/// found and on bytes of a format that the API does not take.
pub fn get_image_mimetype_and_base64(buffer: &[u8]) -> (r: Result<
    (String, String),
    ImageTypeError,
>)
    requires
        base64_fits(buffer@.len()),
    ensures
        image_parts(sniffed_media_type(buffer@), base64_standard(buffer@)) == (match r {
            Ok(parts) => Ok::<(Seq<char>, Seq<char>), ImageFault>((parts.0@, parts.1@)),
            Err(error) => Err(error@),
        }),
        r is Ok <==> (sniffed_media_type(buffer@) matches Some(media_type) && supported_media_type(
            media_type,
        )),
{
    let media_type = accept_media_type(sniff(buffer))?;
    let data = encode_base64(buffer);
    Ok((media_type, data))
}

} // verus!
