use vstd::prelude::*;
use crate::errors::SniffError;

verus! {

/// The container formats this library tells apart. Sniffing is by magic
/// number, so a tag describes the head of the byte stream, not its body.
/// Formats without a tag of their own are collapsed into `Other`.
#[derive(Clone, Copy, PartialEq, Eq, Structural, Debug)]
pub enum ImgFormat {
    Jpeg,
    Png,
    Gif,
    WebP,
    Bmp,
    Tiff,
    Pnm,
    Other,
}

/// The format tag that sniffing a byte buffer yields, if any signature
/// matches. Sniffing is a function of the bytes alone.
pub uninterp spec fn format_of(bytes: Seq<u8>) -> Option<ImgFormat>;

/// Relies on image::guess_format: it matches magic-number signatures against
/// the head of the buffer, deterministically in the bytes alone; every
/// signature is non-empty, so an empty buffer matches none.
#[verifier::external_body]
fn guess_format(bytes: &[u8]) -> (r: Option<ImgFormat>)
    ensures
        r == format_of(bytes@),
        bytes@.len() == 0 ==> r is None,
{
    match image::guess_format(bytes) {
        Err(_) => None,
        Ok(image::ImageFormat::Jpeg) => Some(ImgFormat::Jpeg),
        Ok(image::ImageFormat::Png) => Some(ImgFormat::Png),
        Ok(image::ImageFormat::Gif) => Some(ImgFormat::Gif),
        Ok(image::ImageFormat::WebP) => Some(ImgFormat::WebP),
        Ok(image::ImageFormat::Bmp) => Some(ImgFormat::Bmp),
        Ok(image::ImageFormat::Tiff) => Some(ImgFormat::Tiff),
        Ok(image::ImageFormat::Pnm) => Some(ImgFormat::Pnm),
        Ok(_) => Some(ImgFormat::Other),
    }
}

/// A fully decoded image: raw RGBA pixels in row-major order, fixed channel
/// order R, G, B, A.
pub struct DecodedImage {
    pub width: u32,
    pub height: u32,
    pub pixels: Vec<u8>,
}

/// What a full decode of a byte buffer under a format tag yields: the pixel
/// dimensions and the raw RGBA pixels, or nothing if the buffer does not
/// decode. Decoding is a function of the bytes and the tag alone.
pub uninterp spec fn decoded_of(bytes: Seq<u8>, fmt: ImgFormat) -> Option<(u32, u32, Seq<u8>)>;

/// Relies on image::load_from_memory_with_format (image::load_from_memory for
/// `Other`, which re-sniffs the same bytes) and DynamicImage::to_rgba8: a full
/// decode into an RGBA buffer of width * height * 4 bytes, row-major, a
/// function of the bytes and the format alone.
#[verifier::external_body]
pub(crate) fn decode_rgba(bytes: &[u8], fmt: ImgFormat) -> (r: Option<DecodedImage>)
    ensures
        r is Some <==> decoded_of(bytes@, fmt) is Some,
        r matches Some(d) ==> decoded_of(bytes@, fmt) == Some((d.width, d.height, d.pixels@))
            && d.pixels@.len() == 4 * (d.width as int) * (d.height as int),
{
    let loaded = match fmt {
        ImgFormat::Jpeg => image::load_from_memory_with_format(bytes, image::ImageFormat::Jpeg),
        ImgFormat::Png => image::load_from_memory_with_format(bytes, image::ImageFormat::Png),
        ImgFormat::Gif => image::load_from_memory_with_format(bytes, image::ImageFormat::Gif),
        ImgFormat::WebP => image::load_from_memory_with_format(bytes, image::ImageFormat::WebP),
        ImgFormat::Bmp => image::load_from_memory_with_format(bytes, image::ImageFormat::Bmp),
        ImgFormat::Tiff => image::load_from_memory_with_format(bytes, image::ImageFormat::Tiff),
        ImgFormat::Pnm => image::load_from_memory_with_format(bytes, image::ImageFormat::Pnm),
        ImgFormat::Other => image::load_from_memory(bytes),
    };
    let rgba = match loaded {
        Ok(img) => img.to_rgba8(),
        Err(_) => return None,
    };
    Some(DecodedImage { width: rgba.width(), height: rgba.height(), pixels: rgba.into_raw() })
}

/// What the sniffer returns for a byte buffer: its format tag and pixel
/// dimensions, or the exact error. Dimensions must fit the animated
/// container's 16-bit fields.
pub open spec fn sniff_spec(bytes: Seq<u8>) -> Result<(ImgFormat, u16, u16), SniffError> {
    match format_of(bytes) {
        Option::None => Result::Err(SniffError::UnknownFormat),
        Option::Some(fmt) => match decoded_of(bytes, fmt) {
            Option::None => Result::Err(SniffError::DecodeFailed),
            Option::Some(dec) => if dec.0 > 0xFFFF || dec.1 > 0xFFFF {
                Result::Err(SniffError::DimensionsOutOfRange)
            } else {
                Result::Ok((fmt, dec.0 as u16, dec.1 as u16))
            },
        },
    }
}

/// Classifies a byte buffer: its encoded format by magic-number match, and
/// its pixel dimensions from one full decode.
pub fn sniff(bytes: &[u8]) -> (r: Result<(ImgFormat, u16, u16), SniffError>)
    ensures
        r == sniff_spec(bytes@),
        bytes@.len() == 0 ==> r === Result::Err(SniffError::UnknownFormat),
{
    let fmt = match guess_format(bytes) {
        Some(f) => f,
        None => {
            return Err(SniffError::UnknownFormat);
        },
    };
    let dec = match decode_rgba(bytes, fmt) {
        Some(d) => d,
        None => {
            return Err(SniffError::DecodeFailed);
        },
    };
    if dec.width > 0xFFFF || dec.height > 0xFFFF {
        return Err(SniffError::DimensionsOutOfRange);
    }
    Ok((fmt, dec.width as u16, dec.height as u16))
}

} // verus!
