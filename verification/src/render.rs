//! Pictures of a lattice: the colours, the plain pixel buffer, and the
//! hand-over to `egui`.

use crate::spin::Spin;
use vstd::prelude::*;

verus! {

/// `egui::ColorImage`, an image in memory, carried through as it is.
#[verifier::external_type_specification]
#[verifier::external_body]
pub struct ExColorImage(egui::ColorImage);

/// The width of an `egui::ColorImage` in pixels: the first entry of its
/// `size`.
pub uninterp spec fn image_width(image: egui::ColorImage) -> nat;

/// The height of an `egui::ColorImage` in pixels: the second entry of its
/// `size`.
pub uninterp spec fn image_height(image: egui::ColorImage) -> nat;

/// The red, green and blue of the pixels of an `egui::ColorImage`, pixel by
/// pixel in the order in which the image stores them, three bytes each.
pub uninterp spec fn image_rgb(image: egui::ColorImage) -> Seq<u8>;

/// `egui::ColorImage::from_rgb`: an opaque image of the given width and
/// height made from three bytes a pixel. The call panics unless the buffer
/// holds exactly three bytes for each pixel. The image has the size it was
/// asked for, and its pixels have the colours of the buffer in the same
/// order.
#[verifier::external_body]
pub(crate) fn image_from_rgb(width: usize, height: usize, rgb: &Vec<u8>) -> (image:
    egui::ColorImage)
    requires
        width * height * 3 == rgb.len(),
    ensures
        image_width(image) == width,
        image_height(image) == height,
        image_rgb(image) == rgb@,
{
    egui::ColorImage::from_rgb([width, height], rgb.as_slice())
}

/// A picture as plain values: its width and height in pixels and three bytes
/// a pixel, red, green and blue, row by row from the top.
#[derive(Debug, PartialEq, Eq)]
pub struct PixelBuffer {
    pub width: usize,
    pub height: usize,
    pub rgb_bytes: Vec<u8>,
}

/// One channel of the colour of a spin: blue `(0, 0, 255)` for `Up` and red
/// `(255, 0, 0)` for `Down`.
pub open spec fn colour(spin: Spin, channel: int) -> u8 {
    match spin {
        Spin::Up => if channel == 2 {
            255u8
        } else {
            0u8
        },
        Spin::Down => if channel == 0 {
            255u8
        } else {
            0u8
        },
    }
}

/// Appends the three bytes of the colour of `spin` to `rgb`.
pub fn push_colour(rgb: &mut Vec<u8>, spin: Spin)
    ensures
        final(rgb)@ == old(rgb)@.push(colour(spin, 0)).push(colour(spin, 1)).push(colour(spin, 2)),
{
    match spin {
        Spin::Up => {
            // blue
            rgb.push(0);
            rgb.push(0);
            rgb.push(255);
        },
        Spin::Down => {
            // red
            rgb.push(255);
            rgb.push(0);
            rgb.push(0);
        },
    }
}

} // verus!
