//! The closed set of image encodings and their canonical labels.

use vstd::prelude::*;
use crate::error::Error;
use crate::text::same_text;
use vstd::std_specs::convert::{FromSpecImpl, TryFromSpecImpl};

verus! {

/// An image encoding that a cover picture can have.
#[derive(Debug, Clone, Copy, PartialEq, Eq, Structural)]
pub enum MimeType {
    Png,
    Jpeg,
    Tiff,
    Bmp,
    Gif,
}

impl MimeType {
    /// The canonical label of an encoding, as a string.
    pub open spec fn label_str(self) -> &'static str {
        match self {
            MimeType::Jpeg => "image/jpeg",
            MimeType::Png => "image/png",
            MimeType::Tiff => "image/tiff",
            MimeType::Bmp => "image/bmp",
            MimeType::Gif => "image/gif",
        }
    }

    /// The canonical label of an encoding, as the characters it is made of.
    pub open spec fn label(self) -> Seq<char> {
        self.label_str()@
    }

    /// The encoding that a label stands for, if it is one of the five
    /// canonical labels. The match is exact.
    pub open spec fn from_label(s: Seq<char>) -> Option<MimeType> {
        if s == "image/jpeg"@ {
            Some(MimeType::Jpeg)
        } else if s == "image/png"@ {
            Some(MimeType::Png)
        } else if s == "image/tiff"@ {
            Some(MimeType::Tiff)
        } else if s == "image/bmp"@ {
            Some(MimeType::Bmp)
        } else if s == "image/gif"@ {
            Some(MimeType::Gif)
        } else {
            None
        }
    }

    /// The variant's name, as `{:?}` prints it.
    pub open spec fn debug_text(self) -> Seq<char> {
        match self {
            MimeType::Jpeg => "Jpeg"@,
            MimeType::Png => "Png"@,
            MimeType::Tiff => "Tiff"@,
            MimeType::Bmp => "Bmp"@,
            MimeType::Gif => "Gif"@,
        }
    }

    /// What parsing a label gives: the encoding, or the label handed back
    /// inside the error.
    pub open spec fn parsed(s: Seq<char>, r: Result<MimeType, Error>) -> bool {
        match MimeType::from_label(s) {
            Some(m) => r == Ok::<MimeType, Error>(m),
            None => r is Err && r->Err_0.detail() == s,
        }
    }

    /// The MP4 image format that stands for an encoding. MP4 tags hold PNG,
    /// BMP and JPEG pictures only.
    pub open spec fn img_fmt(self) -> Option<mp4ameta::ImgFmt> {
        match self {
            MimeType::Jpeg => Some(mp4ameta::ImgFmt::Jpeg),
            MimeType::Png => Some(mp4ameta::ImgFmt::Png),
            MimeType::Bmp => Some(mp4ameta::ImgFmt::Bmp),
            MimeType::Tiff => None,
            MimeType::Gif => None,
        }
    }

    /// The encoding that an MP4 image format stands for.
    pub open spec fn of_img_fmt(fmt: mp4ameta::ImgFmt) -> MimeType {
        match fmt {
            mp4ameta::ImgFmt::Png => MimeType::Png,
            mp4ameta::ImgFmt::Bmp => MimeType::Bmp,
            mp4ameta::ImgFmt::Jpeg => MimeType::Jpeg,
        }
    }

    /// What converting an encoding to an MP4 image format gives: the format,
    /// or the encoding's debug rendering inside the error.
    pub open spec fn img_fmt_result(self, r: Result<mp4ameta::ImgFmt, Error>) -> bool {
        match self.img_fmt() {
            Some(fmt) => r == Ok::<mp4ameta::ImgFmt, Error>(fmt),
            None => r is Err && r->Err_0.detail() == self.debug_text(),
        }
    }

    /// The canonical label, as a static string.
    pub fn as_str(self) -> (r: &'static str)
        ensures
            r == self.label_str(),
            r@ == self.label(),
    {
        match self {
            MimeType::Jpeg => "image/jpeg",
            MimeType::Png => "image/png",
            MimeType::Tiff => "image/tiff",
            MimeType::Bmp => "image/bmp",
            MimeType::Gif => "image/gif",
        }
    }

    /// The variant's name, as `{:?}` prints it.
    pub fn debug_name(self) -> (r: &'static str)
        ensures
            r@ == self.debug_text(),
    {
        match self {
            MimeType::Jpeg => "Jpeg",
            MimeType::Png => "Png",
            MimeType::Tiff => "Tiff",
            MimeType::Bmp => "Bmp",
            MimeType::Gif => "Gif",
        }
    }

    /// The canonical label, as an owned string. Every encoding has one, so
    /// the MIME type of an ID3 picture frame can always be filled in.
    pub fn to_label(self) -> (r: String)
        ensures
            r@ == self.label(),
    {
        self.as_str().to_owned()
    }

    /// The encoding that an MP4 image format stands for.
    pub fn from_img_fmt(fmt: &mp4ameta::ImgFmt) -> (r: MimeType)
        ensures
            r == MimeType::of_img_fmt(*fmt),
    {
        match fmt {
            mp4ameta::ImgFmt::Png => MimeType::Png,
            mp4ameta::ImgFmt::Bmp => MimeType::Bmp,
            mp4ameta::ImgFmt::Jpeg => MimeType::Jpeg,
        }
    }

    /// The MP4 image format of an encoding. Succeeds on PNG, BMP and JPEG;
    /// fails on TIFF and GIF, with the encoding's debug rendering in the
    /// error.
    pub fn to_img_fmt(&self) -> (r: Result<mp4ameta::ImgFmt, Error>)
        ensures
            self.img_fmt_result(r),
            r is Ok <==> (*self is Png || *self is Bmp || *self is Jpeg),
            r is Err <==> (*self is Tiff || *self is Gif),
    {
        match self {
            MimeType::Jpeg => Ok(mp4ameta::ImgFmt::Jpeg),
            MimeType::Png => Ok(mp4ameta::ImgFmt::Png),
            MimeType::Bmp => Ok(mp4ameta::ImgFmt::Bmp),
            _ => Err(Error::UnsupportedMimeType(self.debug_name().to_owned())),
        }
    }

    /// Reads a label. Succeeds on the five canonical labels and on nothing
    /// else; a rejected label comes back inside the error, unchanged.
    pub fn parse(inp: &str) -> (r: Result<MimeType, Error>)
        ensures
            MimeType::parsed(inp@, r),
            r is Ok <==> MimeType::from_label(inp@) is Some,
    {
        if same_text(inp, "image/jpeg") {
            Ok(MimeType::Jpeg)
        } else if same_text(inp, "image/png") {
            Ok(MimeType::Png)
        } else if same_text(inp, "image/tiff") {
            Ok(MimeType::Tiff)
        } else if same_text(inp, "image/bmp") {
            Ok(MimeType::Bmp)
        } else if same_text(inp, "image/gif") {
            Ok(MimeType::Gif)
        } else {
            Err(Error::UnsupportedMimeType(inp.to_owned()))
        }
    }
}

impl<'a> TryFrom<&'a str> for MimeType {
    type Error = Error;

    /// Reads a label, as [`MimeType::parse`] does.
    fn try_from(inp: &'a str) -> (r: Result<MimeType, Error>)
        ensures
            MimeType::parsed(inp@, r),
    {
        MimeType::parse(inp)
    }
}

/// The error holds an owned string, which is known by its characters only,
/// so the result is described by `parsed` and not named as a value.
impl<'a> TryFromSpecImpl<&'a str> for MimeType {
    open spec fn obeys_try_from_spec() -> bool {
        false
    }

    open spec fn try_from_spec(inp: &'a str) -> Result<MimeType, Error> {
        choose|r: Result<MimeType, Error>| MimeType::parsed(inp@, r)
    }
}

impl From<MimeType> for &'static str {
    /// The canonical label, as [`MimeType::as_str`] gives it.
    fn from(mt: MimeType) -> (r: &'static str)
        ensures
            r@ == mt.label(),
    {
        mt.as_str()
    }
}

impl FromSpecImpl<MimeType> for &'static str {
    open spec fn obeys_from_spec() -> bool {
        true
    }

    open spec fn from_spec(mt: MimeType) -> &'static str {
        mt.label_str()
    }
}

impl From<MimeType> for String {
    /// The canonical label, as [`MimeType::to_label`] gives it.
    fn from(mt: MimeType) -> (r: String)
        ensures
            r@ == mt.label(),
    {
        mt.to_label()
    }
}

/// An owned string is known by its characters only, so the result is
/// described by its view and not named as a value.
impl FromSpecImpl<MimeType> for String {
    open spec fn obeys_from_spec() -> bool {
        false
    }

    open spec fn from_spec(mt: MimeType) -> String {
        choose|s: String| s@ == mt.label()
    }
}

impl<'a> From<&'a mp4ameta::ImgFmt> for MimeType {
    /// The encoding that an MP4 image format stands for.
    fn from(fmt: &'a mp4ameta::ImgFmt) -> (r: MimeType)
        ensures
            r == MimeType::of_img_fmt(*fmt),
    {
        MimeType::from_img_fmt(fmt)
    }
}

impl<'a> FromSpecImpl<&'a mp4ameta::ImgFmt> for MimeType {
    open spec fn obeys_from_spec() -> bool {
        true
    }

    open spec fn from_spec(fmt: &'a mp4ameta::ImgFmt) -> MimeType {
        MimeType::of_img_fmt(*fmt)
    }
}

impl<'a> TryFrom<&'a MimeType> for mp4ameta::ImgFmt {
    type Error = Error;

    /// The MP4 image format of an encoding, as [`MimeType::to_img_fmt`]
    /// gives it.
    fn try_from(mime: &'a MimeType) -> (r: Result<mp4ameta::ImgFmt, Error>)
        ensures
            mime.img_fmt_result(r),
    {
        mime.to_img_fmt()
    }
}

/// The error holds an owned string, which is known by its characters only,
/// so the result is described by `img_fmt_result` and not named as a value.
impl<'a> TryFromSpecImpl<&'a MimeType> for mp4ameta::ImgFmt {
    open spec fn obeys_try_from_spec() -> bool {
        false
    }

    open spec fn try_from_spec(mime: &'a MimeType) -> Result<mp4ameta::ImgFmt, Error> {
        choose|r: Result<mp4ameta::ImgFmt, Error>| mime.img_fmt_result(r)
    }
}

/// The five canonical labels differ from one another.
pub proof fn lemma_labels_distinct()
    ensures
        forall|a: MimeType, b: MimeType| a.label() == b.label() ==> a == b,
{
    reveal_strlit("image/jpeg");
    reveal_strlit("image/png");
    reveal_strlit("image/tiff");
    reveal_strlit("image/bmp");
    reveal_strlit("image/gif");
    assert forall|a: MimeType, b: MimeType| a.label() == b.label() implies a == b by {
        if a != b {
            assert(a.label().len() != b.label().len() || a.label()[6] != b.label()[6]);
        }
    }
}

/// An encoding's label reads back as that encoding.
pub proof fn lemma_label_reads_back(m: MimeType)
    ensures
        MimeType::from_label(m.label()) == Some(m),
{
    lemma_labels_distinct();
    assert(MimeType::Jpeg.label() == "image/jpeg"@);
    assert(MimeType::Png.label() == "image/png"@);
    assert(MimeType::Tiff.label() == "image/tiff"@);
    assert(MimeType::Bmp.label() == "image/bmp"@);
    assert(MimeType::Gif.label() == "image/gif"@);
}

/// A label that is read as an encoding is that encoding's label: the five
/// canonical labels come back character for character.
pub proof fn lemma_label_round_trip(s: Seq<char>)
    requires
        MimeType::from_label(s) is Some,
    ensures
        MimeType::from_label(s).unwrap().label() == s,
{
}

/// A label is read as an encoding exactly when it is the label of one.
pub proof fn lemma_from_label_is_some(s: Seq<char>)
    ensures
        MimeType::from_label(s) is Some <==> exists|m: MimeType| m.label() == s,
{
    if MimeType::from_label(s) is Some {
        assert(MimeType::from_label(s).unwrap().label() == s);
    }
    if exists|m: MimeType| m.label() == s {
        let m = choose|m: MimeType| m.label() == s;
        lemma_label_reads_back(m);
    }
}

/// An MP4 image format, taken as an encoding, converts back to itself.
pub proof fn lemma_img_fmt_round_trip(fmt: mp4ameta::ImgFmt)
    ensures
        MimeType::of_img_fmt(fmt).img_fmt() == Some(fmt),
{
}

/// An encoding that has an MP4 image format is the encoding which that
/// format stands for.
pub proof fn lemma_img_fmt_reads_back(m: MimeType)
    requires
        m.img_fmt() is Some,
    ensures
        MimeType::of_img_fmt(m.img_fmt().unwrap()) == m,
{
}

} // verus!
