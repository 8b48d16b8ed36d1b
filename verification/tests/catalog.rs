use image_pipeline::architectures::load_model_config;
use image_pipeline::functions::{image_to_tensor, normalize_imagenet_to_tensor};
use image_pipeline::models::{input_shape, Channels, ModelArchitecture};
use image_pipeline::pipeline::{run_pipeline, PixelImage, TransformStep};

fn gradient_image(width: usize, height: usize) -> PixelImage {
    let mut data = Vec::with_capacity(3 * width * height);
    for y in 0..height {
        for x in 0..width {
            data.push((x % 256) as u8);
            data.push((y % 256) as u8);
            data.push(((x + y) % 256) as u8);
        }
    }
    PixelImage { width, height, data }
}

#[test]
fn catalog_names_urls_and_layers() {
    let cfg = load_model_config(ModelArchitecture::MobileNetV2);
    assert_eq!(cfg.model_name, "MobileNetV2");
    assert_eq!(cfg.layer_name, "Reshape_103");
    assert!(cfg.model_url.ends_with("mobilenetv2-7.onnx"));
    assert_eq!(cfg.channels, Channels::CWH);
    assert_eq!(cfg.image_size.width, 224);
    assert_eq!(cfg.image_size.height, 224);

    let cfg = load_model_config(ModelArchitecture::ResNet152);
    assert_eq!(cfg.model_name, "ResNet152");
    assert_eq!(cfg.layer_name, "resnetv27_flatten0_reshape0");
    assert!(cfg.model_url.ends_with("resnet152-v2-7.onnx"));
    assert_eq!(cfg.channels, Channels::CWH);

    let cfg = load_model_config(ModelArchitecture::EfficientNetLite4);
    assert_eq!(cfg.model_name, "EfficientNet-Lite4");
    assert_eq!(cfg.layer_name, "efficientnet-lite4/model/head/Squeeze");
    assert!(cfg.model_url.ends_with("efficientnet-lite4-11.onnx"));
    assert_eq!(cfg.channels, Channels::WHC);
}

#[test]
fn catalog_pipelines_declare_chaining_steps() {
    for arch in [
        ModelArchitecture::MobileNetV2,
        ModelArchitecture::ResNet152,
        ModelArchitecture::EfficientNetLite4,
    ] {
        let cfg = load_model_config(arch);
        let steps = &cfg.image_transformation.steps;
        assert!(matches!(steps[0], TransformStep::Resize(_)));
        assert!(matches!(steps[1], TransformStep::ToArray(_)));
        assert!(matches!(steps[2], TransformStep::Normalize(_)));
        assert!(matches!(steps[3], TransformStep::ToTensor(_)));
        if arch == ModelArchitecture::EfficientNetLite4 {
            assert!(matches!(steps[4], TransformStep::Transpose(_)));
            assert_eq!(steps.len(), 5);
        } else {
            assert_eq!(steps.len(), 4);
        }
        // the resize target is the record's own size
        match &steps[0] {
            TransformStep::Resize(st) => {
                assert_eq!(st.image_size.width, cfg.image_size.width);
                assert_eq!(st.image_size.height, cfg.image_size.height);
            }
            _ => unreachable!(),
        }
    }
}

#[test]
fn mobile_efficient_recipe_yields_channel_last_tensor() {
    let cfg = load_model_config(ModelArchitecture::EfficientNetLite4);
    let image = gradient_image(100, 100);
    let tensor = run_pipeline(&cfg.image_transformation, image).unwrap();
    assert_eq!(tensor.shape, vec![1, 224, 224, 3]);
    let raw = tensor.into_raw();
    assert_eq!(raw.shape(), &[1, 224, 224, 3]);
}

#[test]
fn channel_first_recipes_yield_channel_first_tensors() {
    for arch in [ModelArchitecture::MobileNetV2, ModelArchitecture::ResNet152] {
        let cfg = load_model_config(arch);
        let image = gradient_image(100, 100);
        let tensor = run_pipeline(&cfg.image_transformation, image).unwrap();
        assert_eq!(tensor.shape, vec![1, 3, 224, 224]);
        let raw = tensor.into_raw();
        assert_eq!(raw.shape(), &[1, 3, 224, 224]);
    }
}

#[test]
fn input_shape_follows_channel_layout() {
    let cfg = load_model_config(ModelArchitecture::MobileNetV2);
    assert_eq!(input_shape(&cfg), vec![1, 3, 224, 224]);
    let cfg = load_model_config(ModelArchitecture::EfficientNetLite4);
    assert_eq!(input_shape(&cfg), vec![1, 224, 224, 3]);
}

#[test]
fn image_to_tensor_keeps_raw_values() {
    let image = PixelImage { width: 2, height: 2, data: (0u8..12u8).collect() };
    let t = image_to_tensor(2, image);
    assert_eq!(t.shape, vec![1, 3, 2, 2]);
    let raw = t.into_raw();
    let vals = raw.view().as_slice::<f32>().unwrap();
    // channel planes of the 2x2 grid
    assert_eq!(vals, &[0.0, 3.0, 6.0, 9.0, 1.0, 4.0, 7.0, 10.0, 2.0, 5.0, 8.0, 11.0]);
}

#[test]
fn normalize_imagenet_to_tensor_applies_means_and_deviations() {
    let image = PixelImage { width: 1, height: 1, data: vec![51, 102, 204] };
    let t = normalize_imagenet_to_tensor(1, &image);
    assert_eq!(t.shape, vec![1, 3, 1, 1]);
    let raw = t.into_raw();
    let vals = raw.view().as_slice::<f32>().unwrap();
    let expect = |v: f64, mean: f64, std: f64| ((v / 255.0 - mean) / std) as f32;
    assert!((vals[0] - expect(51.0, 0.485, 0.229)).abs() < 1e-5);
    assert!((vals[1] - expect(102.0, 0.456, 0.224)).abs() < 1e-5);
    assert!((vals[2] - expect(204.0, 0.406, 0.225)).abs() < 1e-5);
}
