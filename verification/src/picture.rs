//! The finished picture: colours packed into samples and handed to the
//! `image` crate.

use image::DynamicImage;
use image::RgbImage;
use vstd::prelude::*;

verus! {

/// `image::DynamicImage`, declared so that it can be handed on. Nothing is
/// known of what a value holds but what [`image_samples`] and [`image_size`]
/// name.
#[verifier::external_type_specification]
#[verifier::external_body]
pub struct ExDynamicImage(DynamicImage);

/// The samples that a picture holds: row after row from the top, pixel after
/// pixel from the left, one byte per channel.
pub uninterp spec fn image_samples(img: DynamicImage) -> Seq<u8>;

/// Width and height of a picture, in pixels.
pub uninterp spec fn image_size(img: DynamicImage) -> (nat, nat);

/// Calls `image::RgbImage::from_raw` and wraps the buffer as
/// `DynamicImage::ImageRgb8`. The claim: a picture comes back exactly when
/// `samples` holds at least three bytes for each of the `width * height`
/// pixels; it has that width and height and holds `samples` as they were
/// given.
#[verifier::external_body]
fn rgb_image(width: u32, height: u32, samples: Vec<u8>) -> (img: Option<DynamicImage>)
    ensures
        img is Some <==> 3 * width * height <= samples@.len(),
        img matches Some(picture) ==> image_size(picture) == (width as nat, height as nat)
            && image_samples(picture) == samples@,
{
    RgbImage::from_raw(width, height, samples).map(DynamicImage::ImageRgb8)
}

/// Channel `c` of a colour: 0 is red, 1 is green, anything else is blue.
pub open spec fn channel(color: (u8, u8, u8), c: int) -> u8 {
    if c == 0 {
        color.0
    } else if c == 1 {
        color.1
    } else {
        color.2
    }
}

/// The samples of a row-major sequence of colours: red, green and blue of the
/// first pixel, then of the second, and so on.
pub open spec fn packed(colors: Seq<(u8, u8, u8)>) -> Seq<u8> {
    Seq::new(3 * colors.len(), |i: int| channel(colors[i / 3], i % 3))
}

/// Lays colours out as samples.
pub fn pack_rgb(colors: &Vec<(u8, u8, u8)>) -> (samples: Vec<u8>)
    ensures
        samples@ == packed(colors@),
{
    let n = colors.len();
    let mut samples: Vec<u8> = Vec::new();
    let mut i: usize = 0;
    while i < n
        invariant
            i <= n,
            n == colors@.len(),
            samples@.len() == 3 * i,
            forall|j: int| 0 <= j < 3 * i ==> samples@[j] == channel(colors@[j / 3], j % 3),
        decreases n - i,
    {
        let (r, g, b) = colors[i];
        samples.push(r);
        samples.push(g);
        samples.push(b);
        i = i + 1;
    }
    assert(samples@ =~= packed(colors@));
    samples
}

/// Whether `colors` can be shown as a picture of `width` by `height` pixels:
/// there is one colour for each pixel, and both sides fit the picture's
/// 32-bit dimensions.
pub open spec fn fits_picture(width: nat, height: nat, colors: Seq<(u8, u8, u8)>) -> bool {
    &&& width <= u32::MAX
    &&& height <= u32::MAX
    &&& colors.len() == width * height
}

/// Builds the picture of `width` by `height` pixels whose pixels, row after
/// row from the top left, have the colours `colors`. `None` when the colours
/// do not make up such a picture.
pub fn assemble(width: usize, height: usize, colors: &Vec<(u8, u8, u8)>) -> (img: Option<
    DynamicImage,
>)
    ensures
        img is Some <==> fits_picture(width as nat, height as nat, colors@),
        img matches Some(picture) ==> image_size(picture) == (width as nat, height as nat)
            && image_samples(picture) == packed(colors@),
{
    if width > u32::MAX as usize || height > u32::MAX as usize {
        return None;
    }
    match width.checked_mul(height) {
        Some(pixels) => {
            if pixels != colors.len() {
                return None;
            }
        },
        None => {
            assert(colors.len() == colors@.len());
            return None;
        },
    }
    let samples = pack_rgb(colors);
    assert(3 * width * height == 3 * (width * height)) by (nonlinear_arith);
    rgb_image(width as u32, height as u32, samples)
}

} // verus!
