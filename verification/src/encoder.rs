//! The encoder adapter: hands a decoded image and the component counts to
//! the BlurHash encoder.

use crate::components::{in_component_range, ComponentCounts};
use crate::error::HashError;
use crate::pixels::DecodedImage;
use vstd::prelude::*;

verus! {

/// The error type of the `blurhash` crate, carried through unread.
#[verifier::external_type_specification]
#[verifier::external_body]
pub struct ExEncoderError(blurhash::Error);

/// The encoder addresses the pixel bytes with 32-bit offsets: an image can
/// be encoded when the size of its buffer fits in a `u32`.
pub open spec fn encodable(width: u32, height: u32) -> bool {
    4 * width * height <= u32::MAX
}

/// The number of characters of a hash with `cx` by `cy` components: one for
/// the counts, one for the largest AC value, four for the DC value and two
/// for each of the other components.
pub open spec fn hash_length(cx: u32, cy: u32) -> nat {
    (4 + 2 * cx * cy) as nat
}

/// Calls `blurhash::encode`. It refuses component counts outside `1..=9`
/// and nothing else, and writes a fixed number of characters for the counts
/// it accepts. The `requires` keeps the encoder's 32-bit offsets from
/// overflowing and from running past the end of the buffer.
#[verifier::external_body]
fn blurhash_encode(
    cx: u32,
    cy: u32,
    width: u32,
    height: u32,
    rgba: &[u8],
) -> (r: Result<String, blurhash::Error>)
    requires
        4 * width <= u32::MAX,
        4 * width * height <= u32::MAX,
        rgba@.len() >= 4 * width * height,
    ensures
        r is Ok <==> (in_component_range(cx) && in_component_range(cy)),
        r matches Ok(hash) ==> hash@.len() == hash_length(cx, cy),
{
    blurhash::encode(cx, cy, width, height, rgba)
}

/// Whether the encoder can address every byte of a `width` by `height`
/// image.
pub fn fits_encoder(width: u32, height: u32) -> (r: bool)
    ensures
        r == encodable(width, height),
{
    assert(width * height <= 0xFFFF_FFFF * 0xFFFF_FFFF) by (nonlinear_arith)
        requires
            0 <= width <= 0xFFFF_FFFF,
            0 <= height <= 0xFFFF_FFFF,
    ;
    let area: u64 = (width as u64) * (height as u64);
    let bytes: u128 = 4u128 * (area as u128);
    assert(bytes == 4 * width * height) by (nonlinear_arith)
        requires
            bytes == 4 * area,
            area == width * height,
    ;
    bytes <= u32::MAX as u128
}

/// Computes the BlurHash of `image` with the given component counts.
///
/// Succeeds exactly on the images whose buffer size fits in 32 bits; the
/// hash then has `4 + 2 * x * y` characters. Any other image is an encode
/// failure.
pub fn encode_image(image: &DecodedImage, counts: ComponentCounts) -> (r: Result<String, HashError>)
    ensures
        r is Ok <==> encodable(image@.width, image@.height),
        r matches Ok(hash) ==> hash@.len() == hash_length(counts@.0, counts@.1),
        r matches Err(e) ==> e == HashError::EncodeFailure,
{
    let width = image.width();
    let height = image.height();
    if !fits_encoder(width, height) {
        return Err(HashError::EncodeFailure);
    }
    let pixels = image.pixels();
    assert(4 * width <= 4 * width * height) by (nonlinear_arith)
        requires
            height >= 1,
            width >= 0,
    ;
    match blurhash_encode(counts.x(), counts.y(), width, height, pixels) {
        Ok(hash) => Ok(hash),
        Err(_) => Err(HashError::EncodeFailure),
    }
}

} // verus!
