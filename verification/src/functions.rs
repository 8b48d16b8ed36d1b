//! The image codec collaborator and two direct image-to-tensor shortcuts.

use vstd::prelude::*;
use crate::pipeline::{
    array_to_tensor, chw_shape, lemma_norm_fits_for_pixels, lemma_pixel_nums_bounded,
    norm_dens_spec, norm_nums_spec, pixels_to_array, pixels_to_nums, Normalization, PixelImage,
    TensorData,
};

verus! {

/// Relies on `image::load_from_memory` and `DynamicImage::to_rgb8`: a
/// successfully decoded image comes back as a dense RGB8 buffer of
/// exactly three bytes per pixel, with dimensions that fit in 32 bits.
#[verifier::external_body]
fn decode_rgb8(bytes: &Vec<u8>) -> (r: Result<(usize, usize, Vec<u8>), String>)
    ensures
        r matches Ok(t) ==> (t.2@.len() == 3 * t.0 * t.1 && t.0 as int <= u32::MAX as int
            && t.1 as int <= u32::MAX as int),
{
    match image::load_from_memory(bytes.as_slice()) {
        Ok(decoded) => {
            let img = decoded.to_rgb8();
            let (w, h) = img.dimensions();
            Ok((w as usize, h as usize, img.into_raw()))
        },
        Err(e) => Err(e.to_string()),
    }
}

/// Decodes encoded image bytes into a pixel image, whatever the source
/// encoding was; fails with the codec's message on bytes it cannot read.
pub fn read_rgb_image(bytes: &Vec<u8>) -> (r: Result<PixelImage, String>)
    ensures
        r matches Ok(p) ==> p@.wf(),
{
    match decode_rgb8(bytes) {
        Ok((width, height, data)) => Ok(PixelImage { width, height, data }),
        Err(e) => Err(e),
    }
}

/// The mean/standard-deviation normalization of the published
/// channel-first weights, in thousandths.
pub fn imagenet_normalization() -> (n: Normalization)
    ensures
        n.wf(),
        n.zeroone,
        n.sub_milli@ == seq![485u32, 456u32, 406u32],
        n.div_milli@ == seq![229u32, 224u32, 225u32],
{
    Normalization { sub_milli: [485, 456, 406], div_milli: [229, 224, 225], zeroone: true }
}

/// Resizes nothing and scales nothing: decodes the already-sized image
/// into a batch-channel-row-column tensor normalized with the published
/// channel-first means and deviations.
pub fn normalize_imagenet_to_tensor(image_size: usize, image: &PixelImage) -> (t: TensorData)
    requires
        image@.wf(),
        image.width == image_size,
        image.height == image_size,
    ensures
        t.wf(),
        t@.shape == chw_shape(image_size, image_size),
        t@.nums.len() == pixels_to_nums(image@).len(),
        forall|d: int|
            0 <= d < t@.nums.len() ==> (#[trigger] t@.nums[d]) as int == 1000 * pixels_to_nums(
                image@,
            )[d] - norm_value_sub(t@.chan_of(d)),
        forall|c: int| 0 <= c < 3 ==> (#[trigger] t@.dens[c]) as int == norm_value_den(c),
{
    let arr = pixels_to_array(image);
    let n = imagenet_normalization();
    proof {
        lemma_pixel_nums_bounded(image@);
        lemma_norm_fits_for_pixels(arr@, n);
    }
    let normalized = n.normalize_array(&arr).unwrap();
    proof {
        assert forall|d: int| 0 <= d < normalized@.nums.len() implies (
        #[trigger] normalized@.nums[d]) as int == 1000 * pixels_to_nums(image@)[d]
            - norm_value_sub(normalized@.chan_of(d)) by {
            assert(normalized@.nums[d] as int == norm_nums_spec(arr@, n)[d]);
            assert(arr@.dens[arr@.chan_of(d)] == 1);
        }
        assert forall|c: int| 0 <= c < 3 implies (#[trigger] normalized@.dens[c]) as int
            == norm_value_den(c) by {
            assert(normalized@.dens[c] as int == norm_dens_spec(arr@, n)[c]);
            assert(arr@.dens[c] == 1);
        }
    }
    array_to_tensor(normalized)
}

/// The numerator offset of the published channel-first normalization for
/// channel `c`: 255 times the channel's mean in thousandths.
pub open spec fn norm_value_sub(c: int) -> int {
    255 * (seq![485int, 456int, 406int])[c]
}

/// The denominator of the published channel-first normalization for
/// channel `c`: 255 times the channel's deviation in thousandths.
pub open spec fn norm_value_den(c: int) -> int {
    255 * (seq![229int, 224int, 225int])[c]
}

/// Casts the already-sized image into a batch-channel-row-column tensor of
/// its raw sample values, without scaling.
pub fn image_to_tensor(image_size: usize, image: PixelImage) -> (t: TensorData)
    requires
        image@.wf(),
        image.width == image_size,
        image.height == image_size,
    ensures
        t.wf(),
        t@.shape == chw_shape(image_size, image_size),
        t@.nums == pixels_to_nums(image@),
        t@.dens == seq![1i64, 1i64, 1i64],
{
    array_to_tensor(pixels_to_array(&image))
}

} // verus!
