//! The neutral picture value and its two adapters.

use vstd::prelude::*;
use vstd::slice::slice_to_vec;
use crate::error::Error;
use crate::mime::{lemma_label_reads_back, MimeType};
use vstd::std_specs::convert::{FromSpecImpl, TryFromSpecImpl};

verus! {

/// A picture: bytes that the caller owns, and the encoding they are in. The
/// bytes are an opaque payload; nothing here looks inside them.
#[derive(Debug, Clone, PartialEq, Eq)]
pub struct Picture<'a> {
    pub data: &'a [u8],
    pub mime_type: MimeType,
}

/// What a picture is, apart from where its bytes lie: the bytes in order, and
/// the encoding.
pub ghost struct PictureView {
    pub data: Seq<u8>,
    pub mime_type: MimeType,
}

impl<'a> View for Picture<'a> {
    type V = PictureView;

    open spec fn view(&self) -> PictureView {
        PictureView { data: self.data@, mime_type: self.mime_type }
    }
}

impl<'a> Picture<'a> {
    /// Whether `frame` is the ID3 picture frame of this picture: the
    /// encoding's canonical label, the front-cover type, no description, and
    /// the same bytes.
    pub open spec fn is_id3_frame(self, frame: id3::frame::Picture) -> bool {
        &&& frame.mime_type@ == self@.mime_type.label()
        &&& frame.picture_type == id3::frame::PictureType::CoverFront
        &&& frame.description@ == Seq::<char>::empty()
        &&& frame.data@ == self@.data
    }

    /// What converting this picture to an MP4 image gives: the image that
    /// borrows the picture's bytes, where the encoding has an MP4 image
    /// format, else the encoding's debug rendering inside the error.
    pub open spec fn mp4_img_result(self, r: Result<mp4ameta::Img<&'a [u8]>, Error>) -> bool {
        match self.mime_type.img_fmt() {
            Some(fmt) => r == Ok::<mp4ameta::Img<&'a [u8]>, Error>(
                mp4ameta::Img { fmt, data: self.data },
            ),
            None => r is Err && r->Err_0.detail() == self.mime_type.debug_text(),
        }
    }

    /// A picture of the given bytes in the given encoding.
    pub fn new(data: &'a [u8], mime_type: MimeType) -> (r: Self)
        ensures
            r == (Picture { data, mime_type }),
    {
        Self { data, mime_type }
    }

    /// The ID3 picture frame of this picture. The frame owns a copy of the
    /// bytes, is typed as the front cover and has an empty description. Every
    /// encoding is accepted.
    pub fn to_id3_frame(&self) -> (frame: id3::frame::Picture)
        ensures
            self.is_id3_frame(frame),
    {
        id3::frame::Picture {
            mime_type: self.mime_type.to_label(),
            picture_type: id3::frame::PictureType::CoverFront,
            description: String::new(),
            data: slice_to_vec(self.data),
        }
    }

    /// The MP4 image of this picture. The image borrows the picture's bytes.
    /// Succeeds on PNG, BMP and JPEG; fails on TIFF and GIF.
    pub fn to_mp4_img(&self) -> (r: Result<mp4ameta::Img<&'a [u8]>, Error>)
        ensures
            self.mp4_img_result(r),
            r is Ok <==> (self.mime_type is Png || self.mime_type is Bmp || self.mime_type is Jpeg),
            r is Err <==> (self.mime_type is Tiff || self.mime_type is Gif),
    {
        match self.mime_type.to_img_fmt() {
            Ok(fmt) => Ok(mp4ameta::Img { fmt, data: self.data }),
            Err(e) => Err(e),
        }
    }
}

/// The MIME type of a picture's ID3 frame reads back as the picture's
/// encoding.
pub proof fn lemma_id3_frame_label_reads_back(p: Picture, frame: id3::frame::Picture)
    requires
        p.is_id3_frame(frame),
    ensures
        MimeType::from_label(frame.mime_type@) == Some(p.mime_type),
{
    lemma_label_reads_back(p.mime_type);
}

/// The MP4 image of a picture, where there is one, has the picture's bytes,
/// and its format reads back as the picture's encoding.
pub proof fn lemma_mp4_img_reads_back<'a>(
    p: Picture<'a>,
    r: Result<mp4ameta::Img<&'a [u8]>, Error>,
)
    requires
        p.mp4_img_result(r),
        r is Ok,
    ensures
        r.unwrap().data == p.data,
        MimeType::of_img_fmt(r.unwrap().fmt) == p.mime_type,
{
}

impl<'a> From<Picture<'a>> for id3::frame::Picture {
    /// The ID3 picture frame of a picture, as [`Picture::to_id3_frame`]
    /// gives it.
    fn from(p: Picture<'a>) -> (frame: id3::frame::Picture)
        ensures
            p.is_id3_frame(frame),
    {
        p.to_id3_frame()
    }
}

/// A frame holds owned strings, which are known by their characters only, so
/// the frame is described by `is_id3_frame` and not named as a value.
impl<'a> FromSpecImpl<Picture<'a>> for id3::frame::Picture {
    open spec fn obeys_from_spec() -> bool {
        false
    }

    open spec fn from_spec(p: Picture<'a>) -> id3::frame::Picture {
        choose|frame: id3::frame::Picture| p.is_id3_frame(frame)
    }
}

impl<'a, 'b> From<&'b Picture<'a>> for id3::frame::Picture {
    /// The ID3 picture frame of a picture, as [`Picture::to_id3_frame`]
    /// gives it.
    fn from(p: &'b Picture<'a>) -> (frame: id3::frame::Picture)
        ensures
            p.is_id3_frame(frame),
    {
        p.to_id3_frame()
    }
}

/// As for the conversion by value.
impl<'a, 'b> FromSpecImpl<&'b Picture<'a>> for id3::frame::Picture {
    open spec fn obeys_from_spec() -> bool {
        false
    }

    open spec fn from_spec(p: &'b Picture<'a>) -> id3::frame::Picture {
        choose|frame: id3::frame::Picture| p.is_id3_frame(frame)
    }
}

impl<'a> TryFrom<Picture<'a>> for mp4ameta::Img<&'a [u8]> {
    type Error = Error;

    /// The MP4 image of a picture, as [`Picture::to_mp4_img`] gives it.
    fn try_from(p: Picture<'a>) -> (r: Result<mp4ameta::Img<&'a [u8]>, Error>)
        ensures
            p.mp4_img_result(r),
    {
        p.to_mp4_img()
    }
}

/// The error holds an owned string, which is known by its characters only,
/// so the result is described by `mp4_img_result` and not named as a value.
impl<'a> TryFromSpecImpl<Picture<'a>> for mp4ameta::Img<&'a [u8]> {
    open spec fn obeys_try_from_spec() -> bool {
        false
    }

    open spec fn try_from_spec(p: Picture<'a>) -> Result<mp4ameta::Img<&'a [u8]>, Error> {
        choose|r: Result<mp4ameta::Img<&'a [u8]>, Error>| p.mp4_img_result(r)
    }
}

impl<'a, 'b> TryFrom<&'b Picture<'a>> for mp4ameta::Img<&'a [u8]> {
    type Error = Error;

    /// The MP4 image of a picture, as [`Picture::to_mp4_img`] gives it.
    fn try_from(p: &'b Picture<'a>) -> (r: Result<mp4ameta::Img<&'a [u8]>, Error>)
        ensures
            p.mp4_img_result(r),
    {
        p.to_mp4_img()
    }
}

/// As for the conversion by value.
impl<'a, 'b> TryFromSpecImpl<&'b Picture<'a>> for mp4ameta::Img<&'a [u8]> {
    open spec fn obeys_try_from_spec() -> bool {
        false
    }

    open spec fn try_from_spec(p: &'b Picture<'a>) -> Result<mp4ameta::Img<&'a [u8]>, Error> {
        choose|r: Result<mp4ameta::Img<&'a [u8]>, Error>| p.mp4_img_result(r)
    }
}

} // verus!
