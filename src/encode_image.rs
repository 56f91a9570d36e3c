//! Turning decoded single-sample pixel data into a grey-level image.
use vstd::prelude::*;

use byteorder::ByteOrder;
use image::DynamicImage;

verus! {

#[verifier::external_type_specification]
#[verifier::external_body]
pub struct ExDynamicImage(image::DynamicImage);

/// Why decoded pixel data cannot become an image.
#[derive(Debug, Clone, Copy, PartialEq, Eq)]
pub enum Error {
    /// Only 8 and 16 bits allocated per sample are handled.
    UnsupportedPixelRepresentation { bits_allocated: u16 },
}

/// The sample of two bytes, high byte first.
pub open spec fn be_u16(high: u8, low: u8) -> int {
    high as int * 256 + low as int
}

/// Relies on byteorder's `BigEndian::read_u16_into`: each pair of bytes of
/// `src`, high byte first, becomes the sample of `dst` at half its index. It
/// panics unless `src` holds exactly two bytes for each sample of `dst`.
#[verifier::external_body]
fn read_be_u16_into(src: &[u8], dst: &mut Vec<u16>)
    requires
        src@.len() == 2 * old(dst)@.len(),
    ensures
        final(dst)@.len() == old(dst)@.len(),
        forall|i: int|
            0 <= i < final(dst)@.len() ==> #[trigger] final(dst)@[i] as int == be_u16(
                src@[2 * i],
                src@[2 * i + 1],
            ),
{
    byteorder::BigEndian::read_u16_into(src, dst.as_mut_slice())
}

/// Relies on `image::ImageBuffer::from_raw` for one 8-bit grey channel, put in
/// `DynamicImage::ImageLuma8`: an image comes back exactly when `samples`
/// holds at least `width * height` samples.
#[verifier::external_body]
fn luma8_image(width: u32, height: u32, samples: Vec<u8>) -> (r: Option<DynamicImage>)
    ensures
        r is Some <==> width * height <= samples@.len(),
{
    image::ImageBuffer::<image::Luma<u8>, Vec<u8>>::from_raw(width, height, samples).map(
        DynamicImage::ImageLuma8,
    )
}

/// Relies on `image::ImageBuffer::from_raw` for one 16-bit grey channel, put
/// in `DynamicImage::ImageLuma16`: an image comes back exactly when `samples`
/// holds at least `width * height` samples.
#[verifier::external_body]
fn luma16_image(width: u32, height: u32, samples: Vec<u16>) -> (r: Option<DynamicImage>)
    ensures
        r is Some <==> width * height <= samples@.len(),
{
    image::ImageBuffer::<image::Luma<u16>, Vec<u16>>::from_raw(width, height, samples).map(
        DynamicImage::ImageLuma16,
    )
}

/// Reads 16-bit samples stored high byte first.
pub fn big_endian_samples(buffer: &[u8]) -> (r: Vec<u16>)
    requires
        buffer@.len() % 2 == 0,
    ensures
        r@.len() == buffer@.len() / 2,
        forall|i: int|
            0 <= i < r@.len() ==> #[trigger] r@[i] as int == be_u16(buffer@[2 * i], buffer@[2 * i + 1]),
{
    let mut samples: Vec<u16> = vec![0u16; buffer.len() / 2];
    read_be_u16_into(buffer, &mut samples);
    samples
}

/// Converts decoded grey-level pixel data into an image: one byte per sample
/// for 8 bits allocated, two bytes high byte first for 16. Other widths are
/// refused. The buffer must hold the samples of `width * height` pixels.
pub fn encode_pixeldata(buffer: &Vec<u8>, width: u16, height: u16, bits_allocated: u16) -> (r: Result<DynamicImage, Error>)
    requires
        bits_allocated == 8 ==> width * height <= buffer@.len(),
        bits_allocated == 16 ==> buffer@.len() % 2 == 0 && width * height <= buffer@.len() / 2,
    ensures
        match r {
            Ok(_) => bits_allocated == 8 || bits_allocated == 16,
            Err(e) => bits_allocated != 8 && bits_allocated != 16 && e
                == Error::UnsupportedPixelRepresentation { bits_allocated },
        },
{
    if bits_allocated == 8 {
        let samples = buffer.clone();
        assert(samples@.len() == buffer@.len());
        let image = luma8_image(width as u32, height as u32, samples);
        Ok(image.unwrap())
    } else if bits_allocated == 16 {
        let samples = big_endian_samples(buffer.as_slice());
        let image = luma16_image(width as u32, height as u32, samples);
        Ok(image.unwrap())
    } else {
        Err(Error::UnsupportedPixelRepresentation { bits_allocated })
    }
}

} // verus!
