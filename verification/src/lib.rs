//! Format-neutral cover pictures, and their conversion into the image values
//! of an ID3 and an MP4 tag writer.
//!
//! A caller describes an embedded image once, as a [`Picture`]: raw bytes and
//! a [`MimeType`]. The adapters in [`picture`] turn that value into what each
//! tag writer expects, and say exactly when an encoding is not representable.

pub mod album;
pub mod error;
pub mod mime;
pub mod native;
pub mod picture;
pub mod text;

pub use album::Album;
pub use error::Error;
pub use mime::MimeType;
pub use picture::Picture;
