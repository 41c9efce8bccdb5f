use cover_art::{Error, MimeType, Picture};
use id3::frame::PictureType;
use mp4ameta::ImgFmt;

#[test]
fn mp4_format_of_png_bmp_jpeg() {
    assert_eq!(MimeType::Png.to_img_fmt(), Ok(ImgFmt::Png));
    assert_eq!(MimeType::Bmp.to_img_fmt(), Ok(ImgFmt::Bmp));
    assert_eq!(MimeType::Jpeg.to_img_fmt(), Ok(ImgFmt::Jpeg));
}

#[test]
fn mp4_format_of_tiff_and_gif_fails() {
    assert_eq!(
        MimeType::Tiff.to_img_fmt(),
        Err(Error::UnsupportedMimeType("Tiff".to_string()))
    );
    assert_eq!(
        MimeType::Gif.to_img_fmt(),
        Err(Error::UnsupportedMimeType("Gif".to_string()))
    );
}

#[test]
fn mp4_format_error_carries_debug_rendering() {
    for mime in [MimeType::Tiff, MimeType::Gif] {
        let e = mime.to_img_fmt().unwrap_err();
        assert_eq!(e.rejected(), format!("{:?}", mime));
    }
}

#[test]
fn encoding_of_each_mp4_format() {
    assert_eq!(MimeType::from_img_fmt(&ImgFmt::Png), MimeType::Png);
    assert_eq!(MimeType::from_img_fmt(&ImgFmt::Bmp), MimeType::Bmp);
    assert_eq!(MimeType::from_img_fmt(&ImgFmt::Jpeg), MimeType::Jpeg);
}

#[test]
fn mp4_format_round_trips_through_encoding() {
    for fmt in [ImgFmt::Png, ImgFmt::Bmp, ImgFmt::Jpeg] {
        assert_eq!(MimeType::from_img_fmt(&fmt).to_img_fmt(), Ok(fmt));
    }
}

#[test]
fn new_keeps_bytes_and_encoding() {
    let bytes = [1u8, 2, 3];
    let p = Picture::new(&bytes, MimeType::Bmp);
    assert_eq!(p.data, &bytes[..]);
    assert_eq!(p.mime_type, MimeType::Bmp);
    assert_eq!(
        p,
        Picture {
            data: &bytes,
            mime_type: MimeType::Bmp
        }
    );
}

#[test]
fn new_accepts_empty_bytes() {
    let p = Picture::new(&[], MimeType::Png);
    assert!(p.data.is_empty());
    assert_eq!(p.to_id3_frame().data, Vec::<u8>::new());
    assert_eq!(p.to_mp4_img().unwrap().data.len(), 0);
}

#[test]
fn jpeg_picture_as_id3_frame() {
    let bytes = [0xFFu8, 0xD8, 0xFF, 0xE0, 0x00, 0x10];
    let p = Picture::new(&bytes, MimeType::Jpeg);
    let frame = p.to_id3_frame();
    assert_eq!(frame.data, vec![0xFFu8, 0xD8, 0xFF, 0xE0, 0x00, 0x10]);
    assert_eq!(frame.picture_type, PictureType::CoverFront);
    assert_eq!(frame.description, "");
    assert_eq!(frame.mime_type, "image/jpeg");
}

#[test]
fn id3_frame_accepts_every_encoding() {
    let bytes = [7u8, 8, 9];
    let all = [
        (MimeType::Png, "image/png"),
        (MimeType::Jpeg, "image/jpeg"),
        (MimeType::Tiff, "image/tiff"),
        (MimeType::Bmp, "image/bmp"),
        (MimeType::Gif, "image/gif"),
    ];
    for (mime, label) in all {
        let frame = Picture::new(&bytes, mime).to_id3_frame();
        assert_eq!(frame.mime_type, label);
        assert_eq!(frame.picture_type, PictureType::CoverFront);
        assert_eq!(frame.description, "");
        assert_eq!(frame.data, bytes.to_vec());
    }
}

#[test]
fn id3_frame_owns_a_copy() {
    let frame = {
        let bytes = vec![4u8, 5, 6];
        let p = Picture::new(&bytes, MimeType::Png);
        p.to_id3_frame()
    };
    assert_eq!(frame.data, vec![4u8, 5, 6]);
}

#[test]
fn png_picture_as_mp4_image() {
    let bytes = [0x89u8, 0x50, 0x4E, 0x47];
    let p = Picture::new(&bytes, MimeType::Png);
    let img = p.to_mp4_img().unwrap();
    assert_eq!(img.fmt, ImgFmt::Png);
    assert_eq!(img.data, &bytes[..]);
}

#[test]
fn mp4_image_of_each_representable_encoding() {
    let bytes = [1u8, 2];
    let all = [
        (MimeType::Png, ImgFmt::Png),
        (MimeType::Bmp, ImgFmt::Bmp),
        (MimeType::Jpeg, ImgFmt::Jpeg),
    ];
    for (mime, fmt) in all {
        let img = Picture::new(&bytes, mime).to_mp4_img().unwrap();
        assert_eq!(img, mp4ameta::Img::new(fmt, &bytes[..]));
    }
}

#[test]
fn mp4_image_borrows_the_bytes() {
    let bytes = vec![10u8, 20, 30, 40];
    let p = Picture::new(&bytes, MimeType::Jpeg);
    let img = p.to_mp4_img().unwrap();
    assert!(std::ptr::eq(img.data, bytes.as_slice()));
}

#[test]
fn gif_picture_fails_for_mp4_and_succeeds_for_id3() {
    let bytes = [0x47u8, 0x49, 0x46, 0x38];
    let p = Picture::new(&bytes, MimeType::Gif);
    assert_eq!(
        p.to_mp4_img(),
        Err(Error::UnsupportedMimeType("Gif".to_string()))
    );
    let frame = p.to_id3_frame();
    assert_eq!(frame.mime_type, "image/gif");
    assert_eq!(frame.data, bytes.to_vec());
}

#[test]
fn tiff_picture_fails_for_mp4() {
    let bytes = [0x49u8, 0x49, 0x2A, 0x00];
    let p = Picture::new(&bytes, MimeType::Tiff);
    assert_eq!(
        p.to_mp4_img(),
        Err(Error::UnsupportedMimeType("Tiff".to_string()))
    );
}

#[test]
fn try_from_encoding_gives_mp4_format() {
    assert_eq!(ImgFmt::try_from(&MimeType::Jpeg), Ok(ImgFmt::Jpeg));
    assert_eq!(ImgFmt::try_from(&MimeType::Png), Ok(ImgFmt::Png));
    assert_eq!(ImgFmt::try_from(&MimeType::Bmp), Ok(ImgFmt::Bmp));
    assert_eq!(
        ImgFmt::try_from(&MimeType::Tiff),
        Err(Error::UnsupportedMimeType("Tiff".to_string()))
    );
    assert_eq!(
        ImgFmt::try_from(&MimeType::Gif),
        Err(Error::UnsupportedMimeType("Gif".to_string()))
    );
}

#[test]
fn from_mp4_format_gives_encoding() {
    assert_eq!(MimeType::from(&ImgFmt::Png), MimeType::Png);
    assert_eq!(MimeType::from(&ImgFmt::Bmp), MimeType::Bmp);
    assert_eq!(MimeType::from(&ImgFmt::Jpeg), MimeType::Jpeg);
}

#[test]
fn picture_into_id3_frame_by_value_and_by_reference() {
    let bytes = [0xFFu8, 0xD8, 0x01];
    let p = Picture::new(&bytes, MimeType::Jpeg);
    let by_ref: id3::frame::Picture = (&p).into();
    let by_value: id3::frame::Picture = p.into();
    assert_eq!(by_ref, by_value);
    assert_eq!(
        by_value,
        id3::frame::Picture {
            mime_type: "image/jpeg".to_string(),
            picture_type: PictureType::CoverFront,
            description: String::new(),
            data: vec![0xFF, 0xD8, 0x01],
        }
    );
}

#[test]
fn picture_try_into_mp4_image_by_value_and_by_reference() {
    let bytes = [0x42u8, 0x4D];
    let p = Picture::new(&bytes, MimeType::Bmp);
    let by_ref: mp4ameta::Img<&[u8]> = (&p).try_into().unwrap();
    let by_value: mp4ameta::Img<&[u8]> = p.try_into().unwrap();
    assert_eq!(by_ref, by_value);
    assert_eq!(by_value, mp4ameta::Img::bmp(&bytes[..]));
    assert!(std::ptr::eq(by_value.data, &bytes[..]));
}

#[test]
fn gif_picture_try_into_mp4_image_fails() {
    let bytes = [0x47u8];
    let p = Picture::new(&bytes, MimeType::Gif);
    let by_ref: Result<mp4ameta::Img<&[u8]>, Error> = (&p).try_into();
    assert_eq!(by_ref, Err(Error::UnsupportedMimeType("Gif".to_string())));
    let by_value: Result<mp4ameta::Img<&[u8]>, Error> = p.try_into();
    assert_eq!(by_value, Err(Error::UnsupportedMimeType("Gif".to_string())));
}
