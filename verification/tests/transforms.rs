use image_pipeline::pipeline::{
    ConversionError, ImageSize, ImageTransformResult, IrKind, NumericArray, Normalization,
    PixelImage, ResizeFilter, ResizeRGBImage, StepKind, ToArray, ToTensor, TransformStep,
    TransformationPipeline, Transpose,
};

fn square_image(side: usize, data: Vec<u8>) -> PixelImage {
    assert_eq!(data.len(), 3 * side * side);
    PixelImage { width: side, height: side, data }
}

#[test]
fn test_pipeline() {
    let pipeline = TransformationPipeline {
        steps: vec![
            TransformStep::Resize(ResizeRGBImage {
                image_size: ImageSize { width: 224, height: 224 },
                filter: ResizeFilter::Nearest,
            }),
            TransformStep::ToTensor(ToTensor {}),
        ],
    };
    assert_eq!(pipeline.steps.len(), 2);
}

#[test]
fn resize_to_same_size_preserves_pixels() {
    let data: Vec<u8> = (0u8..12u8).collect();
    let img = square_image(2, data.clone());
    let step = ResizeRGBImage {
        image_size: ImageSize { width: 2, height: 2 },
        filter: ResizeFilter::Nearest,
    };
    match step.transform(ImageTransformResult::RgbImage(img)) {
        Ok(ImageTransformResult::RgbImage(out)) => {
            assert_eq!(out.width, 2);
            assert_eq!(out.height, 2);
            assert_eq!(out.data, data);
        }
        _ => panic!("resize to the same size must succeed with a pixel image"),
    }
}

#[test]
fn resize_changes_dimensions() {
    let img = square_image(2, vec![10u8; 12]);
    let step = ResizeRGBImage {
        image_size: ImageSize { width: 4, height: 4 },
        filter: ResizeFilter::Triangle,
    };
    match step.transform(ImageTransformResult::RgbImage(img)) {
        Ok(ImageTransformResult::RgbImage(out)) => {
            assert_eq!(out.width, 4);
            assert_eq!(out.height, 4);
            assert_eq!(out.data.len(), 48);
        }
        _ => panic!("resize must succeed with a pixel image"),
    }
}

#[test]
fn resize_rejects_array_input() {
    let arr = NumericArray { shape: [1, 3, 1, 1], chan_axis: 1, nums: vec![0, 0, 0], dens: [1, 1, 1] };
    let step = ResizeRGBImage {
        image_size: ImageSize { width: 2, height: 2 },
        filter: ResizeFilter::Nearest,
    };
    match step.transform(ImageTransformResult::Array4(arr)) {
        Err(ConversionError::UnsupportedVariant { expected, actual, step }) => {
            assert_eq!(expected, IrKind::RgbImage);
            assert_eq!(actual, IrKind::Array4);
            assert_eq!(step, StepKind::Resize);
        }
        _ => panic!("resize must reject a numeric array"),
    }
}

#[test]
fn to_array_casts_samples_channel_first() {
    // two pixels side by side, so the channel-plane layout is visible
    let img = PixelImage { width: 2, height: 1, data: vec![1, 2, 3, 4, 5, 6] };
    let step = ToArray {};
    match step.transform(ImageTransformResult::RgbImage(img)) {
        Ok(ImageTransformResult::Array4(arr)) => {
            assert_eq!(arr.shape, [1, 3, 1, 2]);
            assert_eq!(arr.chan_axis, 1);
            // channel plane by channel plane: reds, greens, blues
            assert_eq!(arr.nums, vec![1, 4, 2, 5, 3, 6]);
            assert_eq!(arr.dens, [1, 1, 1]);
        }
        _ => panic!("to-array must accept a pixel image"),
    }
}

#[test]
fn to_array_rejects_array_input() {
    let arr = NumericArray { shape: [1, 3, 1, 1], chan_axis: 1, nums: vec![0, 0, 0], dens: [1, 1, 1] };
    match (ToArray {}).transform(ImageTransformResult::Array4(arr)) {
        Err(ConversionError::UnsupportedVariant { expected, actual, step }) => {
            assert_eq!(expected, IrKind::RgbImage);
            assert_eq!(actual, IrKind::Array4);
            assert_eq!(step, StepKind::ToArray);
        }
        _ => panic!("to-array must reject a numeric array"),
    }
}

#[test]
fn meanstd_unit_normalization_divides_by_255() {
    let arr = NumericArray {
        shape: [1, 3, 1, 1],
        chan_axis: 1,
        nums: vec![51, 102, 204],
        dens: [1, 1, 1],
    };
    let n = Normalization {
        sub_milli: [0, 0, 0],
        div_milli: [1000, 1000, 1000],
        zeroone: true,
    };
    match n.transform(ImageTransformResult::Array4(arr)) {
        Ok(ImageTransformResult::Array4(out)) => {
            assert_eq!(out.nums, vec![51000, 102000, 204000]);
            assert_eq!(out.dens, [255000, 255000, 255000]);
            // 51000 / 255000 is exactly 51 / 255
            assert_eq!(out.nums[0] * 255, 51 * out.dens[0]);
        }
        _ => panic!("normalization of an array must succeed"),
    }
}

#[test]
fn normalization_rejects_pixel_input() {
    let img = PixelImage { width: 1, height: 1, data: vec![0, 0, 0] };
    let n = Normalization { sub_milli: [0, 0, 0], div_milli: [1000, 1000, 1000], zeroone: true };
    match n.transform(ImageTransformResult::RgbImage(img)) {
        Err(ConversionError::UnsupportedVariant { expected, actual, step }) => {
            assert_eq!(expected, IrKind::Array4);
            assert_eq!(actual, IrKind::RgbImage);
            assert_eq!(step, StepKind::Normalize);
        }
        _ => panic!("normalization must reject a pixel image"),
    }
}

#[test]
fn normalization_overflow_is_reported() {
    let arr = NumericArray {
        shape: [1, 3, 1, 1],
        chan_axis: 1,
        nums: vec![i64::MAX, 0, 0],
        dens: [1, 1, 1],
    };
    let n = Normalization { sub_milli: [0, 0, 0], div_milli: [1000, 1000, 1000], zeroone: true };
    match n.transform(ImageTransformResult::Array4(arr)) {
        Err(ConversionError::ValueOverflow) => {}
        _ => panic!("a numerator outside the exact range must be reported"),
    }
}

#[test]
fn transpose_identity_keeps_values_and_shape() {
    let nums: Vec<i64> = (0..12).collect();
    let arr = NumericArray { shape: [1, 3, 2, 2], chan_axis: 1, nums: nums.clone(), dens: [1, 2, 3] };
    let tr = Transpose { axes: [0, 1, 2, 3] };
    match tr.transform(ImageTransformResult::Array4(arr)) {
        Ok(ImageTransformResult::Array4(out)) => {
            assert_eq!(out.shape, [1, 3, 2, 2]);
            assert_eq!(out.chan_axis, 1);
            assert_eq!(out.nums, nums);
            assert_eq!(out.dens, [1, 2, 3]);
        }
        _ => panic!("the identity permutation must succeed"),
    }
}

#[test]
fn transpose_then_inverse_restores_the_array() {
    let nums: Vec<i64> = (100..112).collect();
    let arr = NumericArray { shape: [1, 3, 2, 2], chan_axis: 1, nums: nums.clone(), dens: [1, 1, 1] };
    let forward = Transpose { axes: [0, 2, 3, 1] };
    let backward = Transpose { axes: [0, 3, 1, 2] };
    let once = match forward.transform(ImageTransformResult::Array4(arr)) {
        Ok(ImageTransformResult::Array4(out)) => {
            assert_eq!(out.shape, [1, 2, 2, 3]);
            assert_eq!(out.chan_axis, 3);
            out
        }
        _ => panic!("a valid permutation must succeed"),
    };
    match backward.transform(ImageTransformResult::Array4(once)) {
        Ok(ImageTransformResult::Array4(out)) => {
            assert_eq!(out.shape, [1, 3, 2, 2]);
            assert_eq!(out.chan_axis, 1);
            assert_eq!(out.nums, nums);
        }
        _ => panic!("the inverse permutation must succeed"),
    }
}

#[test]
fn transpose_rejects_a_non_bijection() {
    let arr = NumericArray { shape: [1, 3, 1, 1], chan_axis: 1, nums: vec![0, 0, 0], dens: [1, 1, 1] };
    let tr = Transpose { axes: [0, 0, 1, 2] };
    match tr.transform(ImageTransformResult::Array4(arr)) {
        Err(ConversionError::InvalidPermutation) => {}
        _ => panic!("axes with a repeat are not a bijection"),
    }
}

#[test]
fn transpose_rejects_pixel_input() {
    let img = PixelImage { width: 1, height: 1, data: vec![0, 0, 0] };
    let tr = Transpose { axes: [0, 1, 2, 3] };
    match tr.transform(ImageTransformResult::RgbImage(img)) {
        Err(ConversionError::UnsupportedVariant { expected, actual, step }) => {
            assert_eq!(expected, IrKind::Array4);
            assert_eq!(actual, IrKind::RgbImage);
            assert_eq!(step, StepKind::Transpose);
        }
        _ => panic!("transpose must reject a pixel image"),
    }
}

#[test]
fn to_tensor_renders_raw_pixel_floats() {
    let img = PixelImage { width: 1, height: 1, data: vec![7, 128, 255] };
    match (ToTensor {}).transform(ImageTransformResult::RgbImage(img)) {
        Ok(ImageTransformResult::Tensor(t)) => {
            assert_eq!(t.shape, vec![1, 3, 1, 1]);
            let raw = t.into_raw();
            assert_eq!(raw.shape(), &[1, 3, 1, 1]);
            let vals = raw.view().as_slice::<f32>().unwrap();
            assert_eq!(vals, &[7.0, 128.0, 255.0]);
        }
        _ => panic!("the tensor coercion accepts every variant"),
    }
}

#[test]
fn affine_normalization_rescales_to_unit_range() {
    let img = PixelImage { width: 1, height: 1, data: vec![127, 255, 0] };
    let to_array = ToArray {};
    let n = Normalization {
        sub_milli: [127000, 127000, 127000],
        div_milli: [128000, 128000, 128000],
        zeroone: false,
    };
    let arr = to_array.transform(ImageTransformResult::RgbImage(img)).unwrap();
    let out = n.transform(arr).unwrap();
    let t = (ToTensor {}).transform(out).unwrap();
    match t {
        ImageTransformResult::Tensor(t) => {
            let raw = t.into_raw();
            let vals = raw.view().as_slice::<f32>().unwrap();
            assert!((vals[0] - 0.0).abs() < 1e-6);
            assert!((vals[1] - 1.0).abs() < 1e-6);
            assert!((vals[2] - (-0.9921875)).abs() < 1e-6);
        }
        _ => panic!("the tensor coercion returns a tensor"),
    }
}

#[test]
fn meanstd_normalization_renders_expected_floats() {
    let img = PixelImage { width: 1, height: 1, data: vec![51, 102, 204] };
    let n = Normalization { sub_milli: [0, 0, 0], div_milli: [1000, 1000, 1000], zeroone: true };
    let arr = (ToArray {}).transform(ImageTransformResult::RgbImage(img)).unwrap();
    let out = n.transform(arr).unwrap();
    match (ToTensor {}).transform(out).unwrap() {
        ImageTransformResult::Tensor(t) => {
            let vals_t = t.into_raw();
            let vals = vals_t.view().as_slice::<f32>().unwrap();
            assert!((vals[0] - 51.0 / 255.0).abs() < 1e-7);
            assert!((vals[1] - 102.0 / 255.0).abs() < 1e-7);
            assert!((vals[2] - 204.0 / 255.0).abs() < 1e-7);
        }
        _ => panic!("the tensor coercion returns a tensor"),
    }
}

#[test]
fn to_tensor_is_idempotent_on_tensors() {
    let img = PixelImage { width: 1, height: 1, data: vec![9, 8, 7] };
    let tensor = match (ToTensor {}).transform(ImageTransformResult::RgbImage(img)).unwrap() {
        ImageTransformResult::Tensor(t) => t,
        _ => panic!("the tensor coercion returns a tensor"),
    };
    match (ToTensor {}).transform(ImageTransformResult::Tensor(tensor)).unwrap() {
        ImageTransformResult::Tensor(t) => {
            assert_eq!(t.shape, vec![1, 3, 1, 1]);
            let raw = t.into_raw();
            assert_eq!(raw.view().as_slice::<f32>().unwrap(), &[9.0, 8.0, 7.0]);
        }
        _ => panic!("a tensor passes through unchanged"),
    }
}

#[test]
fn run_pipeline_coerces_a_trailing_pixel_image() {
    // the declared steps end on a pixel image; the implicit trailing
    // coercion still hands back a tensor
    let pipeline = TransformationPipeline {
        steps: vec![TransformStep::Resize(ResizeRGBImage {
            image_size: ImageSize { width: 3, height: 2 },
            filter: ResizeFilter::Nearest,
        })],
    };
    let image = PixelImage { width: 2, height: 2, data: vec![50u8; 12] };
    let tensor = image_pipeline::pipeline::run_pipeline(&pipeline, image).unwrap();
    assert_eq!(tensor.shape, vec![1, 3, 2, 3]);
}

#[test]
fn run_pipeline_surfaces_the_first_failing_step() {
    // normalization cannot consume a pixel image; the run stops there and
    // hands the step's own error through untouched
    let pipeline = TransformationPipeline {
        steps: vec![
            TransformStep::Normalize(Normalization {
                sub_milli: [0, 0, 0],
                div_milli: [1000, 1000, 1000],
                zeroone: true,
            }),
            TransformStep::ToArray(ToArray {}),
        ],
    };
    let image = PixelImage { width: 1, height: 1, data: vec![0, 0, 0] };
    match image_pipeline::pipeline::run_pipeline(&pipeline, image) {
        Err(ConversionError::UnsupportedVariant { expected, actual, step }) => {
            assert_eq!(expected, IrKind::Array4);
            assert_eq!(actual, IrKind::RgbImage);
            assert_eq!(step, StepKind::Normalize);
        }
        _ => panic!("the first failing step aborts the run"),
    }
}
