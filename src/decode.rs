//! Turning a base64-encoded still image into a grayscale pixel buffer.

use vstd::prelude::*;

verus! {

/// Why an encoded frame could not be turned into a pixel buffer.
#[derive(Clone, Copy, Debug, PartialEq, Eq, Structural)]
pub enum FrameDecodeError {
    /// The text is not valid standard base64.
    Encoding,
    /// The decoded bytes are not an image container that can be parsed.
    ImageFormat,
}

/// A decoded frame: one byte of luminance per pixel, row by row.
#[derive(Debug)]
pub struct GrayFrame {
    pub pixels: Vec<u8>,
    pub width: u32,
    pub height: u32,
}

#[verifier::external_type_specification]
#[verifier::external_body]
pub struct ExBase64DecodeError(base64::DecodeError);

#[verifier::external_type_specification]
#[verifier::external_body]
pub struct ExImageError(image::ImageError);

/// The value of a character of the standard base64 alphabet
/// (`A-Z`, `a-z`, `0-9`, `+`, `/`); -1 for any other character.
pub open spec fn base64_value(c: char) -> int {
    let u = c as u32 as int;
    if 65 <= u <= 90 {
        u - 65
    } else if 97 <= u <= 122 {
        u - 71
    } else if 48 <= u <= 57 {
        u + 4
    } else if u == 43 {
        62
    } else if u == 47 {
        63
    } else {
        -1
    }
}

/// The bytes of one group of four characters. Only the last group may end
/// in padding: `xx==` holds one byte, `xxx=` two; the bits that the padding
/// leaves over must be zero.
pub open spec fn base64_group(g: Seq<char>, last: bool) -> Option<Seq<u8>> {
    let a = base64_value(g[0]);
    let b = base64_value(g[1]);
    let c = base64_value(g[2]);
    let d = base64_value(g[3]);
    if a < 0 || b < 0 {
        None
    } else if g[2] == '=' && g[3] == '=' {
        if last && b % 16 == 0 {
            Some(seq![(a * 4 + b / 16) as u8])
        } else {
            None
        }
    } else if c >= 0 && g[3] == '=' {
        if last && c % 4 == 0 {
            Some(seq![(a * 4 + b / 16) as u8, ((b % 16) * 16 + c / 4) as u8])
        } else {
            None
        }
    } else if c >= 0 && d >= 0 {
        Some(seq![(a * 4 + b / 16) as u8, ((b % 16) * 16 + c / 4) as u8, ((c % 4) * 64 + d) as u8])
    } else {
        None
    }
}

/// The bytes that padded standard base64 text decodes to: groups of four
/// characters, each decoded in turn; `None` where the text is not of that form.
pub open spec fn base64_decoded(text: Seq<char>) -> Option<Seq<u8>>
    decreases text.len(),
{
    if text.len() == 0 {
        Some(Seq::empty())
    } else if text.len() < 4 {
        None
    } else {
        match (
            base64_group(text.subrange(0, 4), text.len() == 4),
            base64_decoded(text.subrange(4, text.len() as int)),
        ) {
            (Some(head), Some(rest)) => Some(head + rest),
            _ => None,
        }
    }
}

/// The 8-bit luminance buffer, width and height of the image held in the
/// bytes; `None` where no supported container can be parsed from them.
pub uninterp spec fn luma8_image(bytes: Seq<u8>) -> Option<(Seq<u8>, u32, u32)>;

/// Relies on base64's `Engine::decode` with the `STANDARD` engine, whose
/// configuration requires canonical padding and rejects trailing bits.
#[verifier::external_body]
pub(crate) fn base64_decode(text: &str) -> (r: Result<Vec<u8>, base64::DecodeError>)
    ensures
        match r {
            Ok(bytes) => base64_decoded(text@) == Some(bytes@),
            Err(_) => base64_decoded(text@) is None,
        },
{
    base64::Engine::decode(&base64::engine::general_purpose::STANDARD, text)
}

/// Relies on image's `load_from_memory`, which guesses the container from
/// the bytes, and on `DynamicImage::to_luma8`, whose buffer is allocated
/// with exactly one byte per pixel.
#[verifier::external_body]
pub(crate) fn load_luma8(bytes: &[u8]) -> (r: Result<(Vec<u8>, u32, u32), image::ImageError>)
    ensures
        match r {
            Ok((pixels, width, height)) => {
                &&& luma8_image(bytes@) == Some((pixels@, width, height))
                &&& pixels@.len() == width * height
            },
            Err(_) => luma8_image(bytes@) is None,
        },
{
    let gray = image::load_from_memory(bytes)?.to_luma8();
    let (width, height) = gray.dimensions();
    Ok((gray.into_raw(), width, height))
}

/// What decoding the base64 text of a frame yields: the grayscale pixels,
/// width and height, or the stage that failed.
pub open spec fn decoded_frame(text: Seq<char>) -> Result<(Seq<u8>, u32, u32), FrameDecodeError> {
    match base64_decoded(text) {
        None => Err(FrameDecodeError::Encoding),
        Some(bytes) => match luma8_image(bytes) {
            None => Err(FrameDecodeError::ImageFormat),
            Some(image) => Ok(image),
        },
    }
}

} // verus!
