//! Probing a page's raster image: whether the codec accepts the bytes, and
//! the pixel dimensions it reports. The pixel data itself never enters the
//! assembly logic; the renderer decodes the stored bytes again at the output
//! boundary.

use vstd::prelude::*;
use std::io::Cursor;
use printpdf::image_crate::codecs::png::PngDecoder;
use printpdf::image_crate::ImageDecoder;

verus! {

/// What the raster codec reports for a byte sequence: the pixel dimensions
/// of a decodable image, or nothing. A function of the bytes alone.
pub uninterp spec fn png_dims_of(bytes: Seq<u8>) -> Option<(u32, u32)>;

/// Relies on printpdf's bundled raster codec: `PngDecoder::new` accepts or
/// rejects the byte stream, and `ImageDecoder::dimensions` reports the pixel
/// dimensions read from its header; both depend on the bytes alone.
#[verifier::external_body]
fn png_dimensions(bytes: &[u8]) -> (r: Option<(u32, u32)>)
    ensures
        r == png_dims_of(bytes@),
{
    match PngDecoder::new(Cursor::new(bytes)) {
        Ok(d) => Some(d.dimensions()),
        Err(_) => None,
    }
}

/// Pixel dimensions of a decoded page image. Usable only when both axes are
/// positive: a raster with an empty axis counts as a failed decode.
#[derive(Clone, Copy, Debug, PartialEq, Eq, Structural)]
pub struct ImageMeta {
    pub width: u32,
    pub height: u32,
}

impl ImageMeta {
    pub open spec fn wf(self) -> bool {
        self.width > 0 && self.height > 0
    }
}

/// The decode policy over the codec's report: an image counts as decoded
/// exactly when the codec accepts it and both reported dimensions are
/// positive.
pub open spec fn decoded_dims(bytes: Seq<u8>) -> Option<ImageMeta> {
    match png_dims_of(bytes) {
        Some(d) => if d.0 > 0 && d.1 > 0 {
            Some(ImageMeta { width: d.0, height: d.1 })
        } else {
            None
        },
        None => None,
    }
}

/// Decodes the pixel dimensions of a page image, rejecting rasters with an
/// empty axis.
pub fn decode_image_meta(bytes: &[u8]) -> (r: Option<ImageMeta>)
    ensures
        r == decoded_dims(bytes@),
        r matches Some(m) ==> m.wf(),
{
    match png_dimensions(bytes) {
        Some((w, h)) => if w > 0 && h > 0 {
            Some(ImageMeta { width: w, height: h })
        } else {
            None
        },
        None => None,
    }
}

} // verus!
