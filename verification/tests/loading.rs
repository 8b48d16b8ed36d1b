use image_pipeline::architectures::load_model_config;
use image_pipeline::models::{check_fetch_status, plan_load, LoadError, ModelArchitecture};
use image_pipeline::utils::{model_filename, remove_non_alphanum};

#[test]
fn display_names_become_safe_filenames() {
    assert_eq!(remove_non_alphanum(&String::from("EfficientNet-Lite4")), "efficientnet_lite4");
    assert_eq!(remove_non_alphanum(&String::from("MobileNetV2")), "mobilenetv2");
    assert_eq!(remove_non_alphanum(&String::from("a b/c")), "a_b_c");
    assert_eq!(remove_non_alphanum(&String::from("")), "");
    assert_eq!(model_filename(&String::from("ResNet152")), "models/resnet152.onnx");
}

#[test]
fn cached_weights_are_not_fetched_again() {
    let cfg = load_model_config(ModelArchitecture::MobileNetV2);
    let plan = plan_load(&cfg, true);
    assert!(!plan.needs_fetch);
    assert_eq!(plan.filename, "models/mobilenetv2.onnx");
    assert_eq!(plan.url, cfg.model_url);
    assert_eq!(plan.input_shape, vec![1, 3, 224, 224]);
}

#[test]
fn missing_weights_are_fetched() {
    let cfg = load_model_config(ModelArchitecture::EfficientNetLite4);
    let plan = plan_load(&cfg, false);
    assert!(plan.needs_fetch);
    assert_eq!(plan.filename, "models/efficientnet_lite4.onnx");
    assert_eq!(plan.input_shape, vec![1, 224, 224, 3]);
}

#[test]
fn successful_statuses_pass() {
    assert!(check_fetch_status(200, String::new(), String::from("200 OK")).is_ok());
    assert!(check_fetch_status(204, String::new(), String::from("204 No Content")).is_ok());
    assert!(check_fetch_status(299, String::new(), String::from("299")).is_ok());
}

#[test]
fn failed_fetch_surfaces_the_body() {
    match check_fetch_status(404, String::from("no such file"), String::from("404 Not Found")) {
        Err(LoadError::FetchFailed { message }) => assert_eq!(message, "no such file"),
        _ => panic!("a 404 must fail the fetch"),
    }
}

#[test]
fn failed_fetch_without_body_surfaces_the_status_line() {
    match check_fetch_status(500, String::new(), String::from("500 Internal Server Error")) {
        Err(LoadError::FetchFailed { message }) => {
            assert_eq!(message, "500 Internal Server Error")
        }
        _ => panic!("a 500 must fail the fetch"),
    }
    match check_fetch_status(300, String::new(), String::from("300 Multiple Choices")) {
        Err(LoadError::FetchFailed { .. }) => {}
        _ => panic!("a redirect status is not success"),
    }
}
