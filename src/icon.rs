use vstd::prelude::*;

use winit::window::{BadIcon, Icon};

verus! {

#[verifier::external_type_specification]
#[verifier::external_body]
pub struct ExImageError(image::ImageError);

#[verifier::external_type_specification]
#[verifier::external_body]
pub struct ExIcon(winit::window::Icon);

/// Why encoded bytes do not give a usable RGBA image.
#[derive(Clone, Copy, Debug, PartialEq, Eq, Structural)]
pub enum DecodeError {
    /// The decoder does not recognise or cannot read the bytes.
    Unreadable,
    /// A pixel buffer does not hold exactly `width * height` RGBA pixels.
    PixelCountMismatch,
}

/// Why no window icon could be made.
#[derive(Clone, Copy, Debug, PartialEq, Eq, Structural)]
pub enum IconError {
    Decode(DecodeError),
    /// `width * height` does not fit in 32 bits.
    TooLarge,
    /// The buffer's length is not a multiple of 4.
    ByteCountNotDivisibleBy4,
    /// The buffer holds another number of pixels than `width * height`.
    DimensionsVsPixelCount,
    /// The platform refused to make the icon.
    Os,
}

/// A decoded image: 8-bit RGBA pixels, row by row.
pub struct DecodedImage {
    pub rgba: Vec<u8>,
    pub width: u32,
    pub height: u32,
}

/// `bytes` of RGBA pixels fill a `width` by `height` image exactly.
pub open spec fn fills(bytes: Seq<u8>, width: u32, height: u32) -> bool {
    bytes.len() == width * height * 4
}

/// The image crate's reading of encoded bytes as 8-bit RGBA pixels with the
/// width and height, or `None` where it fails. The format is taken from the
/// crate's built-in table of magic bytes, never from run-time hooks.
pub uninterp spec fn rgba_decoding(bytes: Seq<u8>) -> Option<(Seq<u8>, u32, u32)>;

/// Relies on `image::guess_format` (the built-in magic-byte table) and
/// `image::load_from_memory_with_format` (a built-in format skips the decoding
/// hooks), then `DynamicImage::into_rgba8`, `ImageBuffer::dimensions` and
/// `ImageBuffer::into_raw`. The outcome is a function of the bytes alone; the
/// decoder fills a buffer of exactly its total bytes and the RGBA conversion
/// keeps one 4-byte pixel per pixel.
#[verifier::external_body]
fn decode_rgba(bytes: &[u8]) -> (r: Result<(Vec<u8>, u32, u32), image::ImageError>)
    ensures
        r matches Ok((rgba, w, h)) ==> rgba_decoding(bytes@) == Some((rgba@, w, h)),
        r matches Ok((rgba, w, h)) ==> rgba@.len() == w * h * 4,
        r is Err ==> rgba_decoding(bytes@) is None,
{
    let decoded = match image::guess_format(bytes) {
        Ok(format) => image::load_from_memory_with_format(bytes, format),
        Err(e) => Err(e),
    };
    match decoded {
        Ok(img) => {
            let rgba = img.into_rgba8();
            let (w, h) = rgba.dimensions();
            Ok((rgba.into_raw(), w, h))
        },
        Err(e) => Err(e),
    }
}

/// Relies on winit's `Icon::from_rgba`. It refuses a buffer whose length is not
/// a multiple of 4, then one whose length / 4 differs from `width * height`;
/// that product is taken in `u32`, hence the bound. Past those checks only the
/// platform can refuse, with an OS error.
#[verifier::external_body]
fn icon_from_rgba(rgba: Vec<u8>, width: u32, height: u32) -> (r: Result<Icon, IconError>)
    requires
        width * height <= u32::MAX,
    ensures
        rgba@.len() % 4 != 0 ==> (r matches Err(IconError::ByteCountNotDivisibleBy4)),
        rgba@.len() % 4 == 0 && rgba@.len() / 4 != width * height ==> (r matches Err(IconError::DimensionsVsPixelCount)),
        rgba@.len() % 4 == 0 && rgba@.len() / 4 == width * height ==> r is Ok || (r matches Err(IconError::Os)),
{
    match Icon::from_rgba(rgba, width, height) {
        Ok(icon) => Ok(icon),
        Err(BadIcon::ByteCountNotDivisibleBy4 { .. }) => Err(IconError::ByteCountNotDivisibleBy4),
        Err(BadIcon::DimensionsVsPixelCount { .. }) => Err(IconError::DimensionsVsPixelCount),
        Err(BadIcon::OsError(_)) => Err(IconError::Os),
    }
}

/// `width * height`, which always fits in 64 bits.
fn pixel_count(width: u32, height: u32) -> (r: u64)
    ensures
        r == width * height,
{
    assert(width as int * height as int <= u32::MAX as int * u32::MAX as int) by (nonlinear_arith);
    width as u64 * height as u64
}

/// Accepts decoded pixels only where they fill the stated size exactly.
pub fn check_decoded(rgba: Vec<u8>, width: u32, height: u32) -> (r: Result<DecodedImage, DecodeError>)
    ensures
        fills(rgba@, width, height) ==> (r matches Ok(img) && img.rgba@ == rgba@ && img.width
            == width && img.height == height),
        !fills(rgba@, width, height) ==> (r matches Err(DecodeError::PixelCountMismatch)),
{
    let n = rgba.len() as u64;
    let pixels = pixel_count(width, height);
    if n % 4 == 0 && n / 4 == pixels {
        Ok(DecodedImage { rgba, width, height })
    } else {
        Err(DecodeError::PixelCountMismatch)
    }
}

/// Decodes an encoded image (PNG, ICO, ...) into RGBA pixels. A result always
/// holds `width * height * 4` bytes.
pub fn decode_image(bytes: &[u8]) -> (r: Result<DecodedImage, DecodeError>)
    ensures
        rgba_decoding(bytes@) is None ==> (r matches Err(DecodeError::Unreadable)),
        rgba_decoding(bytes@) matches Some((p, w, h)) ==> (r matches Ok(img) && img.rgba@ == p
            && img.width == w && img.height == h),
        r matches Ok(img) ==> fills(img.rgba@, img.width, img.height),
{
    match decode_rgba(bytes) {
        Ok((rgba, w, h)) => check_decoded(rgba, w, h),
        Err(_) => Err(DecodeError::Unreadable),
    }
}

/// Makes a window icon from RGBA pixels.
pub fn icon_from_pixels(rgba: Vec<u8>, width: u32, height: u32) -> (r: Result<Icon, IconError>)
    ensures
        width * height > u32::MAX ==> (r matches Err(IconError::TooLarge)),
        width * height <= u32::MAX && rgba@.len() % 4 != 0 ==> (r matches Err(IconError::ByteCountNotDivisibleBy4)),
        width * height <= u32::MAX && rgba@.len() % 4 == 0 && rgba@.len() / 4 != width * height
            ==> (r matches Err(IconError::DimensionsVsPixelCount)),
        width * height <= u32::MAX && fills(rgba@, width, height) ==> r is Ok || (r matches Err(IconError::Os)),
{
    if pixel_count(width, height) > u32::MAX as u64 {
        return Err(IconError::TooLarge);
    }
    icon_from_rgba(rgba, width, height)
}

/// Loads a window icon from the bytes of an image file. Bytes that do not
/// decode give a decode error; decoded pixels, which always fill the image,
/// are handed to the platform unless `width * height` exceeds 32 bits.
pub fn load_icon(bytes: &[u8]) -> (r: Result<Icon, IconError>)
    ensures
        rgba_decoding(bytes@) is None ==> (r matches Err(IconError::Decode(DecodeError::Unreadable))),
        rgba_decoding(bytes@) matches Some((p, w, h)) ==> {
            &&& w * h > u32::MAX ==> (r matches Err(IconError::TooLarge))
            &&& w * h <= u32::MAX ==> r is Ok || (r matches Err(IconError::Os))
        },
        r is Ok ==> (rgba_decoding(bytes@) matches Some((p, w, h)) && fills(p, w, h)),
{
    match decode_image(bytes) {
        Ok(img) => icon_from_pixels(img.rgba, img.width, img.height),
        Err(e) => Err(IconError::Decode(e)),
    }
}

} // verus!
