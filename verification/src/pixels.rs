//! Decoded images: dimensions and an RGBA8 pixel buffer.

use crate::error::HashError;
use vstd::prelude::*;
use vstd::string::StringExecFns;

verus! {

/// The error type of the `image` crate, carried through unread.
#[verifier::external_type_specification]
#[verifier::external_body]
pub struct ExImageError(image::ImageError);

/// Number of bytes that one RGBA8 pixel takes.
pub const BYTES_PER_PIXEL: u32 = 4;

/// A buffer of `len` bytes holds exactly `width * height` RGBA8 pixels, and
/// neither dimension is zero.
pub open spec fn rgba_layout(width: u32, height: u32, len: nat) -> bool {
    width > 0 && height > 0 && len == BYTES_PER_PIXEL * width * height
}

/// The cause reported for a decoded image whose buffer does not fit its
/// dimensions.
pub open spec fn layout_failure() -> Seq<char> {
    "decoded image is empty or its pixel buffer does not match its dimensions"@
}

/// The mathematical value of a [`DecodedImage`].
pub struct ImageView {
    pub width: u32,
    pub height: u32,
    pub pixels: Seq<u8>,
}

/// A decoded image: row-major RGBA8 pixels, four bytes each, with non-zero
/// width and height.
#[derive(Debug, PartialEq, Eq)]
pub struct DecodedImage {
    width: u32,
    height: u32,
    pixels: Vec<u8>,
}

impl View for DecodedImage {
    type V = ImageView;

    closed spec fn view(&self) -> ImageView {
        ImageView { width: self.width, height: self.height, pixels: self.pixels@ }
    }
}

impl DecodedImage {
    #[verifier::type_invariant]
    spec fn well_formed(self) -> bool {
        rgba_layout(self.width, self.height, self.pixels@.len())
    }

    /// Builds an image from its dimensions and its pixel buffer, refusing a
    /// zero dimension and a buffer of any length but `4 * width * height`.
    pub fn from_raw(width: u32, height: u32, pixels: Vec<u8>) -> (r: Result<
        DecodedImage,
        HashError,
    >)
        ensures
            r is Ok <==> rgba_layout(width, height, pixels@.len()),
            r matches Ok(img) ==> img@ == (ImageView { width, height, pixels: pixels@ }),
            r matches Err(e) ==> (e matches HashError::LoadError(cause) && cause@
                == layout_failure()),
    {
        assert(width * height <= 0xFFFF_FFFF * 0xFFFF_FFFF) by (nonlinear_arith)
            requires
                0 <= width <= 0xFFFF_FFFF,
                0 <= height <= 0xFFFF_FFFF,
        ;
        let area: u64 = (width as u64) * (height as u64);
        let expected: u128 = (BYTES_PER_PIXEL as u128) * (area as u128);
        assert(expected == BYTES_PER_PIXEL * width * height) by (nonlinear_arith)
            requires
                expected == BYTES_PER_PIXEL * area,
                area == width * height,
        ;
        if width > 0 && height > 0 && pixels.len() as u128 == expected {
            Ok(DecodedImage { width, height, pixels })
        } else {
            Err(
                HashError::LoadError(
                    String::from_str(
                        "decoded image is empty or its pixel buffer does not match its dimensions",
                    ),
                ),
            )
        }
    }

    /// The number of pixels in a row.
    pub fn width(&self) -> (w: u32)
        ensures
            w == self@.width,
            w > 0,
    {
        proof {
            use_type_invariant(self);
        }
        self.width
    }

    /// The number of rows.
    pub fn height(&self) -> (h: u32)
        ensures
            h == self@.height,
            h > 0,
    {
        proof {
            use_type_invariant(self);
        }
        self.height
    }

    /// The pixel bytes, row by row, four to a pixel.
    pub fn pixels(&self) -> (p: &[u8])
        ensures
            p@ == self@.pixels,
            rgba_layout(self@.width, self@.height, p@.len()),
    {
        proof {
            use_type_invariant(self);
        }
        self.pixels.as_slice()
    }
}

/// Calls `image::load_from_memory` on `bytes` and, where it decodes them,
/// reads the dimensions with `GenericImageView::dimensions` and the pixels
/// with `DynamicImage::to_rgba8` and `ImageBuffer::into_raw`. Nothing is
/// claimed of what comes back.
#[verifier::external_body]
fn decode_rgba(bytes: &[u8]) -> (r: Result<(u32, u32, Vec<u8>), image::ImageError>) {
    match image::load_from_memory(bytes) {
        Ok(img) => {
            let (width, height): (u32, u32) = image::GenericImageView::dimensions(&img);
            Ok((width, height, img.to_rgba8().into_raw()))
        },
        Err(e) => Err(e),
    }
}

/// Renders an `image::ImageError` through its `Display` impl.
#[verifier::external_body]
fn describe_image_error(e: &image::ImageError) -> (text: String) {
    e.to_string()
}

/// Turns what a decoder answered into the result of the load: decoded data
/// becomes the image that `from_raw` builds of it, and a failure becomes a
/// load error that carries the decoder's description of it, unchanged.
pub fn image_from_decoded(
    decoded: Result<(u32, u32, Vec<u8>), String>,
) -> (r: Result<DecodedImage, HashError>)
    ensures
        match decoded {
            Ok((width, height, pixels)) => {
                &&& r is Ok <==> rgba_layout(width, height, pixels@.len())
                &&& r matches Ok(image) ==> image@ == (ImageView { width, height, pixels: pixels@ })
                &&& r matches Err(e) ==> (e matches HashError::LoadError(cause) && cause@
                    == layout_failure())
            },
            Err(text) => r == Err::<DecodedImage, HashError>(HashError::LoadError(text)),
        },
{
    match decoded {
        Ok((width, height, pixels)) => DecodedImage::from_raw(width, height, pixels),
        Err(text) => Err(HashError::LoadError(text)),
    }
}

/// Decodes image bytes of any supported format into RGBA8 pixels.
///
/// Which bytes decode is the decoder's affair. Every image that comes out
/// has non-zero dimensions and a buffer that fits them; every failure is a
/// load error. What is made of each answer of the decoder is stated by
/// `image_from_decoded`.
pub fn decode_image(bytes: &[u8]) -> (r: Result<DecodedImage, HashError>)
    ensures
        r matches Ok(image) ==> rgba_layout(image@.width, image@.height, image@.pixels.len()),
        r matches Err(e) ==> e is LoadError,
{
    match decode_rgba(bytes) {
        Ok(decoded) => image_from_decoded(Ok(decoded)),
        Err(e) => image_from_decoded(Err(describe_image_error(&e))),
    }
}

} // verus!
