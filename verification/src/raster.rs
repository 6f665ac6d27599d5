//! Decoded images as plain RGBA buffers, and the codec calls behind them.

use vstd::prelude::*;

verus! {

/// An uncompressed image: four bytes per pixel, rows from the top.
#[derive(Clone, Debug)]
pub struct Raster {
    pub width: u32,
    pub height: u32,
    pub rgba: Vec<u8>,
}

/// A raster as a plain value.
pub struct RasterView {
    pub width: nat,
    pub height: nat,
    pub rgba: Seq<u8>,
}

impl View for Raster {
    type V = RasterView;

    open spec fn view(&self) -> RasterView {
        RasterView { width: self.width as nat, height: self.height as nat, rgba: self.rgba@ }
    }
}

impl RasterView {
    /// The buffer holds exactly the pixels that the dimensions announce.
    pub open spec fn wf(self) -> bool {
        self.rgba.len() == self.width * self.height * 4
    }
}

/// A plain value put together from a decoder's answer.
pub open spec fn raster_of(parts: (nat, nat, Seq<u8>)) -> RasterView {
    RasterView { width: parts.0, height: parts.1, rgba: parts.2 }
}

/// What the image decoder makes of `bytes`: width, height and RGBA
/// pixels, or nothing where the bytes are no image it knows.
pub uninterp spec fn decoded_rgba(bytes: Seq<u8>) -> Option<(nat, nat, Seq<u8>)>;

/// The JPEG file that the encoder writes for an RGBA image, or nothing
/// where it refuses the image.
pub uninterp spec fn jpeg_encoding(width: nat, height: nat, rgba: Seq<u8>) -> Option<Seq<u8>>;

/// What `decoded_rgba` says, as a raster.
pub open spec fn decoded(bytes: Seq<u8>) -> Option<RasterView> {
    match decoded_rgba(bytes) {
        Some(parts) => Some(raster_of(parts)),
        None => None,
    }
}

/// An optional raster as a plain value.
pub open spec fn raster_option_view(r: Option<Raster>) -> Option<RasterView> {
    match r {
        Some(img) => Some(img@),
        None => None,
    }
}

/// Decodes an image whose format is guessed from its content.
///
/// Trusted: calls `image::load_from_memory` and `DynamicImage::to_rgba8`.
/// The contract claims that the outcome depends on the bytes alone, and
/// that the buffer of a decoded image has four bytes for each of its
/// `width * height` pixels.
#[verifier::external_body]
pub(crate) fn decode_rgba(bytes: &[u8]) -> (r: Option<Raster>)
    ensures
        r is Some <==> decoded_rgba(bytes@) is Some,
        r is Some ==> r.unwrap()@ == raster_of(decoded_rgba(bytes@).unwrap()),
        r is Some ==> r.unwrap()@.wf(),
{
    match image::load_from_memory(bytes) {
        Ok(img) => {
            let buf = img.to_rgba8();
            Some(Raster { width: buf.width(), height: buf.height(), rgba: buf.into_raw() })
        },
        Err(_) => None,
    }
}

/// Resamples an image to `width` by `height` with the Lanczos filter.
///
/// Trusted: calls `image::imageops::resize` with `FilterType::Lanczos3`.
/// The contract claims only the size of what comes back: the pixel
/// values come from floating-point arithmetic and are left open.
#[verifier::external_body]
pub(crate) fn resample(source: &Raster, width: u32, height: u32) -> (r: Raster)
    requires
        source@.wf(),
        width * height * 4 <= usize::MAX,
    ensures
        r.width == width,
        r.height == height,
        r@.wf(),
{
    let buf = image::RgbaImage::from_raw(source.width, source.height, source.rgba.clone()).unwrap();
    let out = image::imageops::resize(&buf, width, height, image::imageops::FilterType::Lanczos3);
    Raster { width: out.width(), height: out.height(), rgba: out.into_raw() }
}

/// Encodes an image as a JPEG file in memory.
///
/// Trusted: calls `DynamicImage::write_to` with `ImageFormat::Jpeg` on an
/// RGBA image. The contract claims that the outcome depends on the
/// image alone.
#[verifier::external_body]
pub(crate) fn encode_jpeg(source: &Raster) -> (r: Option<Vec<u8>>)
    requires
        source@.wf(),
    ensures
        r is Some <==> jpeg_encoding(source@.width, source@.height, source@.rgba) is Some,
        r is Some ==> r.unwrap()@ == jpeg_encoding(
            source@.width,
            source@.height,
            source@.rgba,
        ).unwrap(),
{
    let buf = image::RgbaImage::from_raw(source.width, source.height, source.rgba.clone()).unwrap();
    let mut out = std::io::Cursor::new(Vec::new());
    match image::DynamicImage::ImageRgba8(buf).write_to(&mut out, image::ImageFormat::Jpeg) {
        Ok(_) => Some(out.into_inner()),
        Err(_) => None,
    }
}

impl Raster {
    /// Decodes image bytes into a raster, or `None` where they are no
    /// image.
    pub fn decode(bytes: &[u8]) -> (r: Option<Raster>)
        ensures
            raster_option_view(r) == decoded(bytes@),
            r is Some ==> r.unwrap()@.wf(),
    {
        decode_rgba(bytes)
    }
}

} // verus!
