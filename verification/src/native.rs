//! The image types of the two tag-writing crates, made known to the verifier.
//!
//! Each is declared with its fields or variants open: all of them are public
//! in the crate that defines it, so verified code builds and reads these
//! values directly, and nothing is assumed of them.

use vstd::prelude::*;
use id3::frame::Picture as ApicFrame;

verus! {

/// `mp4ameta::ImgFmt`: the three image formats that an MP4 tag can hold.
#[verifier::external_type_specification]
pub struct ExImgFmt(mp4ameta::ImgFmt);

/// `mp4ameta::Img`: an image format and the image data.
#[verifier::external_type_specification]
#[verifier::reject_recursive_types(T)]
pub struct ExImg<T>(mp4ameta::Img<T>);

/// `id3::frame::PictureType`: what a picture in an ID3 tag shows.
#[verifier::external_type_specification]
pub struct ExPictureType(id3::frame::PictureType);

/// `id3::frame::Picture`: the contents of an ID3 picture frame. It is imported
/// under another name here, to keep it apart from this crate's own `Picture`.
#[verifier::external_type_specification]
pub struct ExApicFrame(ApicFrame);

} // verus!
