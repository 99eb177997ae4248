//! The picture of the remote desktop.
use ironrdp_session::image::DecodedImage;
use vstd::prelude::*;

use crate::session::ToUi;

verus! {

/// The picture of a desktop that `ironrdp_session` draws into.
#[verifier::external_type_specification]
#[verifier::external_body]
pub struct ExDecodedImage(ironrdp_session::image::DecodedImage);

/// The width and height of a picture.
pub uninterp spec fn image_size(image: DecodedImage) -> (u16, u16);

/// The bytes of a picture, four for each pixel.
pub uninterp spec fn image_pixels(image: DecodedImage) -> Seq<u8>;

/// The number of bytes of a picture with four bytes for each pixel.
pub open spec fn picture_len(width: u16, height: u16) -> int {
    4 * (width as int * height as int)
}

/// A picture made with `DecodedImage::new` in the format `RgbA32`: it has the given size, and all
/// its bytes are zero. It does not hold more bytes than an allocation can have.
#[verifier::external_body]
fn new_image(width: u16, height: u16) -> (image: DecodedImage)
    requires
        picture_len(width, height) <= isize::MAX,
    ensures
        image_size(image) == (width, height),
        image_pixels(image) == Seq::new(picture_len(width, height) as nat, |i: int| 0u8),
{
    let format = ironrdp_graphics::image_processing::PixelFormat::RgbA32;
    DecodedImage::new(format, width, height)
}

/// `DecodedImage::width`.
#[verifier::external_body]
fn image_width(image: &DecodedImage) -> (width: u16)
    ensures
        width == image_size(*image).0,
{
    image.width()
}

/// `DecodedImage::height`.
#[verifier::external_body]
fn image_height(image: &DecodedImage) -> (height: u16)
    ensures
        height == image_size(*image).1,
{
    image.height()
}

/// A copy of `DecodedImage::data`. A picture has four bytes for each pixel in every format, from
/// the start on: it is drawn into in place.
#[verifier::external_body]
fn image_data(image: &DecodedImage) -> (data: Vec<u8>)
    ensures
        data@ == image_pixels(*image),
        data@.len() == picture_len(image_size(*image).0, image_size(*image).1),
{
    image.data().to_vec()
}

/// A blank picture of the given size.
pub fn blank_image(width: u16, height: u16) -> (image: DecodedImage)
    requires
        picture_len(width, height) <= isize::MAX,
    ensures
        image_size(image) == (width, height),
        image_pixels(image) == Seq::new(picture_len(width, height) as nat, |i: int| 0u8),
{
    new_image(width, height)
}

/// Whether a message is a snapshot of a picture: its size, and its bytes, four for each pixel.
pub open spec fn is_frame_of(message: ToUi, image: DecodedImage) -> bool {
    match message {
        ToUi::Frame { width, height, rgba } => {
            &&& (width, height) == image_size(image)
            &&& rgba@ == image_pixels(image)
            &&& rgba@.len() == picture_len(width, height)
        },
        _ => false,
    }
}

/// A snapshot of a picture for the window.
pub fn frame(image: &DecodedImage) -> (message: ToUi)
    ensures
        is_frame_of(message, *image),
{
    ToUi::Frame {
        width: image_width(image),
        height: image_height(image),
        rgba: image_data(image),
    }
}

/// A frame is a faithful copy of the picture: the same width and height and the same bytes, and as
/// many of them as four for each pixel.
pub proof fn law_frame_is_a_faithful_copy(
    width: u16,
    height: u16,
    rgba: Vec<u8>,
    image: DecodedImage,
)
    ensures
        is_frame_of(ToUi::Frame { width, height, rgba }, image) <==> {
            &&& width == image_size(image).0
            &&& height == image_size(image).1
            &&& rgba@ == image_pixels(image)
            &&& rgba@.len() == 4 * (width as int * height as int)
        },
{
}

} // verus!
