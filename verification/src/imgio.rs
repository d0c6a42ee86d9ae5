use vstd::prelude::*;
use crate::errors::PipelineError;
use crate::raster::{Raster, RgbView};

verus! {

#[verifier::external_type_specification]
#[verifier::external_body]
pub struct ExImageError(image::ImageError);

/// What decoding a byte string as a still image yields: `None` where the
/// bytes are not a readable image in a supported format, otherwise the
/// decoded RGB raster. Decoding depends on the bytes alone.
pub uninterp spec fn decoded_rgb(bytes: Seq<u8>) -> Option<RgbView>;

/// What the Lanczos resize of a raster to the given geometry yields; a
/// function of the source raster and the target geometry alone.
pub uninterp spec fn resized_rgb(img: RgbView, width: nat, height: nat) -> RgbView;

/// Relies on image::load_from_memory followed by DynamicImage::to_rgb8: the
/// result is a function of the bytes alone, and an RGB image buffer holds
/// exactly 3 * width * height interleaved samples.
#[verifier::external_body]
fn decode_rgb_raw(bytes: &[u8]) -> (res: Result<Raster, image::ImageError>)
    ensures
        res is Ok <==> decoded_rgb(bytes@) is Some,
        res matches Ok(img) ==> img@ == decoded_rgb(bytes@)->Some_0 && img.wf(),
{
    let img = image::load_from_memory(bytes)?.to_rgb8();
    let (width, height) = (img.width(), img.height());
    Ok(Raster { width, height, data: img.into_raw() })
}

/// Relies on DynamicImage::resize_exact with the Lanczos3 filter: the result
/// is a function of the source and the target geometry alone, and has exactly
/// the requested dimensions ("nwidth and nheight are the new image's
/// dimensions").
#[verifier::external_body]
pub(crate) fn resize_rgb(img: Raster, width: u32, height: u32) -> (res: Raster)
    requires
        img.wf(),
    ensures
        res@ == resized_rgb(img@, width as nat, height as nat),
        res.width == width,
        res.height == height,
        res.wf(),
{
    let buf = image::RgbImage::from_raw(img.width, img.height, img.data).unwrap();
    let resized = image::DynamicImage::ImageRgb8(buf)
        .resize_exact(width, height, image::imageops::FilterType::Lanczos3)
        .to_rgb8();
    Raster { width: resized.width(), height: resized.height(), data: resized.into_raw() }
}

/// Decodes one input file's bytes into an RGB raster, mapping any decoder
/// failure to `DecodeError`. Succeeds exactly on byte strings that decode as
/// a supported still image.
pub fn decode_rgb(bytes: &Vec<u8>) -> (res: Result<Raster, PipelineError>)
    ensures
        res is Ok <==> decoded_rgb(bytes@) is Some,
        res matches Ok(img) ==> img@ == decoded_rgb(bytes@)->Some_0 && img.wf(),
        res matches Err(e) ==> e == PipelineError::DecodeError,
{
    match decode_rgb_raw(bytes.as_slice()) {
        Ok(img) => Ok(img),
        Err(_) => Err(PipelineError::DecodeError),
    }
}

} // verus!
