//! Decoding downloaded images for the image slots: bounded in bytes,
//! dimensions, pixels and decoded size, with the colour channels
//! premultiplied by alpha.

use vstd::prelude::*;
use image::ImageDecoder;
use crate::resources::DecodedImage;

verus! {

/// Larger downloads are not decoded.
pub const MAX_IMAGE_BYTES: usize = 2097152;
/// The widest and tallest image decoded.
pub const MAX_IMAGE_SIDE: u32 = 4096;
/// The most pixels an image may have.
pub const MAX_IMAGE_PIXELS: u64 = 8388608;
/// The most bytes an image may decode to.
pub const MAX_DECODED_BYTES: u64 = 67108864;

/// Width, height and decoded size in bytes that the `image` crate reads
/// from the header of `bytes`, its sides limited to `max_side` and its
/// allocations to `max_alloc` bytes.
pub uninterp spec fn image_header(bytes: Seq<u8>, max_side: u32, max_alloc: u64) -> Option<(u32, u32, u64)>;

/// Guesses the format of `bytes` (`image::ImageReader::with_guessed_format`),
/// sets the limits and opens a decoder (`into_decoder`), and reads its
/// `dimensions` and `total_bytes`. Trusted: the result is the named header
/// of these bytes and limits, `None` where the reader or decoder fails.
#[verifier::external_body]
fn read_image_header(bytes: &[u8], max_side: u32, max_alloc: u64) -> (r: Option<(u32, u32, u64)>)
    ensures
        r == image_header(bytes@, max_side, max_alloc),
{
    let mut reader = image::ImageReader::new(std::io::Cursor::new(bytes)).with_guessed_format().ok()?;
    let mut limits = image::Limits::default();
    limits.max_image_width = Some(max_side);
    limits.max_image_height = Some(max_side);
    limits.max_alloc = Some(max_alloc);
    reader.limits(limits);
    let decoder = reader.into_decoder().ok()?;
    let (width, height) = decoder.dimensions();
    Some((width, height, decoder.total_bytes()))
}

/// The RGBA pixels, row by row, that the `image` crate decodes from `bytes`
/// with sides limited to `max_side` and allocations to `max_alloc` bytes,
/// or `None` where it cannot decode them.
pub uninterp spec fn image_rgba(bytes: Seq<u8>, max_side: u32, max_alloc: u64) -> Option<Seq<u8>>;

/// Decodes `bytes` as the header read does, then into RGBA
/// (`DynamicImage::from_decoder`, `to_rgba8`, `into_raw`), `None` where
/// decoding fails. Trusted: the result is the named pixels of these bytes
/// and limits, and pixels come only for bytes whose header the header read
/// gives, four bytes for each of its `width` times `height` pixels
/// (`to_rgba8`). The JPEG decoder picks faster code by what the processor
/// offers at run time; its IDCT is documented as bit-identical to the plain
/// one, and its upsampling and colour conversion compute the same integer
/// formulas, so the pixels depend on the bytes and limits alone.
#[verifier::external_body]
fn read_image_rgba(bytes: &[u8], max_side: u32, max_alloc: u64) -> (r: Option<Vec<u8>>)
    ensures
        match r {
            Some(px) => image_rgba(bytes@, max_side, max_alloc) == Some(px@),
            None => image_rgba(bytes@, max_side, max_alloc) is None,
        },
        r matches Some(px) ==> (image_header(bytes@, max_side, max_alloc) matches Some((w, h, t))
            && px@.len() == 4 * w * h),
{
    let mut reader = image::ImageReader::new(std::io::Cursor::new(bytes)).with_guessed_format().ok()?;
    let mut limits = image::Limits::default();
    limits.max_image_width = Some(max_side);
    limits.max_image_height = Some(max_side);
    limits.max_alloc = Some(max_alloc);
    reader.limits(limits);
    let decoder = reader.into_decoder().ok()?;
    Some(image::DynamicImage::from_decoder(decoder).ok()?.to_rgba8().into_raw())
}

/// `value` scaled by `alpha` out of 255, rounded down.
pub open spec fn scaled(value: u8, alpha: u8) -> u8 {
    ((value as int * alpha as int) / 255) as u8
}

/// The pixels with each colour channel of each whole RGBA pixel multiplied
/// by its alpha; the alpha channels, and bytes after the last whole pixel,
/// stay.
pub open spec fn premultiplied(px: Seq<u8>) -> Seq<u8> {
    Seq::new(
        px.len(),
        |i: int|
            if i % 4 != 3 && (i / 4) * 4 + 3 < px.len() {
                scaled(px[i], px[(i / 4) * 4 + 3])
            } else {
                px[i]
            },
    )
}

/// Whether decoded header values are within the bounds.
pub open spec fn header_fits(width: u32, height: u32, total: u64) -> bool {
    width != 0 && height != 0 && width * height <= MAX_IMAGE_PIXELS && total <= MAX_DECODED_BYTES
}

fn scale(value: u8, alpha: u8) -> (r: u8)
    ensures
        r == scaled(value, alpha),
{
    assert(value as u32 * alpha as u32 <= 255 * 255) by (nonlinear_arith)
        requires
            value <= 255,
            alpha <= 255,
    ;
    let product: u32 = value as u32 * alpha as u32;
    assert(product / 255 <= 255) by (nonlinear_arith)
        requires
            product <= 255 * 255,
    ;
    (product / 255) as u8
}

/// Multiplies the colour channels of each whole pixel by its alpha.
pub fn premultiply(px: &mut Vec<u8>)
    ensures
        final(px)@ == premultiplied(old(px)@),
{
    let ghost initial = px@;
    let n = px.len();
    let pixels = n / 4;
    let mut k: usize = 0;
    while k < pixels
        invariant
            n == initial.len() == px@.len(),
            pixels == n / 4,
            k <= pixels,
            forall|i: int| 0 <= i < 4 * k ==> #[trigger] px@[i] == premultiplied(initial)[i],
            forall|i: int| 4 * k <= i < n ==> #[trigger] px@[i] == initial[i],
        decreases pixels - k,
    {
        let base = 4 * k;
        assert(base + 3 < n);
        let alpha = px[base + 3];
        let r = scale(px[base], alpha);
        let g = scale(px[base + 1], alpha);
        let b = scale(px[base + 2], alpha);
        px.set(base, r);
        px.set(base + 1, g);
        px.set(base + 2, b);
        proof {
            assert forall|i: int| 4 * k <= i < 4 * k + 4 implies #[trigger] px@[i] == premultiplied(
                initial,
            )[i] by {
                assert(i / 4 == k);
                assert((i / 4) * 4 + 3 == base + 3);
                assert(i % 4 == i - 4 * k);
            }
        }
        k = k + 1;
    }
    proof {
        assert forall|i: int| 4 * k <= i < n implies #[trigger] px@[i] == premultiplied(initial)[i] by {
            assert(i / 4 >= k);
            assert((i / 4) * 4 + 3 >= n);
        }
        assert(px@ =~= premultiplied(initial));
    }
}

/// Whether the `image` crate reads the header of `bytes` as an image within
/// the bounds.
pub open spec fn header_within_bounds(bytes: Seq<u8>) -> bool {
    &&& image_header(bytes, MAX_IMAGE_SIDE, MAX_DECODED_BYTES) matches Some((w, h, t))
    &&& header_fits(w, h, t)
}

/// The image for `slot` made of decoded RGBA pixels `px`, `width` by
/// `height`, with the colour channels premultiplied by alpha.
pub fn image_from_pixels(slot: &str, width: u32, height: u32, px: Vec<u8>) -> (r: DecodedImage)
    ensures
        r.slot@ == slot@,
        r.width == width,
        r.height == height,
        r.rgba@ == premultiplied(px@),
{
    let mut rgba = px;
    premultiply(&mut rgba);
    DecodedImage { slot: String::from_str(slot), width, height, rgba }
}

/// Whether the `image` crate decodes `bytes` as an image for a slot: the
/// download is not empty nor too large, its header is within the bounds,
/// and its pixels decode.
pub open spec fn decodable(bytes: Seq<u8>) -> bool {
    &&& 0 < bytes.len() <= MAX_IMAGE_BYTES
    &&& header_within_bounds(bytes)
    &&& image_rgba(bytes, MAX_IMAGE_SIDE, MAX_DECODED_BYTES) is Some
}

/// Decodes `bytes` for `slot`: nothing for an empty or too large download,
/// one the `image` crate cannot read or decode, or one over the bounds;
/// otherwise the decoded pixels with alpha premultiplied, at the size the
/// header gives.
pub fn decode(slot: &str, bytes: &[u8]) -> (r: Option<DecodedImage>)
    ensures
        r is Some <==> decodable(bytes@),
        r matches Some(img) ==> {
            &&& image_header(bytes@, MAX_IMAGE_SIDE, MAX_DECODED_BYTES) matches Some((w, h, t))
            &&& img.width == w && img.height == h
            &&& img.slot@ == slot@
            &&& img.rgba@.len() == 4 * img.width * img.height
            &&& img.rgba@ == premultiplied(image_rgba(bytes@, MAX_IMAGE_SIDE, MAX_DECODED_BYTES)->0)
        },
{
    if bytes.len() == 0 || bytes.len() > MAX_IMAGE_BYTES {
        return None;
    }
    let (width, height, total) = match read_image_header(bytes, MAX_IMAGE_SIDE, MAX_DECODED_BYTES) {
        Some(header) => header,
        None => {
            return None;
        },
    };
    assert(width as u64 * height as u64 <= 0xffff_ffffu64 * 0xffff_ffffu64) by (nonlinear_arith)
        requires
            width <= 0xffff_ffffu32,
            height <= 0xffff_ffffu32,
    ;
    if width == 0 || height == 0 || width as u64 * height as u64 > MAX_IMAGE_PIXELS || total
        > MAX_DECODED_BYTES {
        return None;
    }
    match read_image_rgba(bytes, MAX_IMAGE_SIDE, MAX_DECODED_BYTES) {
        Some(px) => Some(image_from_pixels(slot, width, height, px)),
        None => None,
    }
}

} // verus!
