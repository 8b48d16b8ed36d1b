use image_pipeline::events::{AddImage, Event, GenericModelConfig, ImageBytes, ImageSource, UpsertCollection};
use image_pipeline::functions::read_rgb_image;
use image_pipeline::models::ModelArchitecture;

fn png_bytes(width: u32, height: u32, raw: Vec<u8>) -> Vec<u8> {
    let img: image::RgbImage = image::ImageBuffer::from_raw(width, height, raw).unwrap();
    let mut out = std::io::Cursor::new(Vec::new());
    img.write_to(&mut out, image::ImageFormat::Png).unwrap();
    out.into_inner()
}

#[test]
fn decoding_a_png_restores_the_samples() {
    let raw: Vec<u8> = (0u8..18u8).collect();
    let bytes = png_bytes(3, 2, raw.clone());
    let img = read_rgb_image(&bytes).unwrap();
    assert_eq!(img.width, 3);
    assert_eq!(img.height, 2);
    assert_eq!(img.data, raw);
}

#[test]
fn undecodable_bytes_are_rejected() {
    let bytes = vec![1u8, 2, 3, 4];
    assert!(read_rgb_image(&bytes).is_err());
}

#[test]
fn events_carry_their_payloads() {
    let inline = ImageSource::ImageBytes(ImageBytes { bytes: vec![1, 2, 3] });
    let event = Event::AddImage(AddImage {
        source: inline,
        collection_name: String::from("animals"),
        id: String::from("elephant-1"),
    });
    match event {
        Event::AddImage(add) => {
            assert_eq!(add.collection_name, "animals");
            match add.source {
                ImageSource::ImageBytes(b) => assert_eq!(b.bytes, vec![1, 2, 3]),
                _ => panic!("the source was inline bytes"),
            }
        }
        _ => panic!("the event was an addition"),
    }

    let remote = ImageSource::Url(url::Url::parse("https://example.com/cat.png").unwrap());
    match remote {
        ImageSource::Url(u) => assert_eq!(u.as_str(), "https://example.com/cat.png"),
        _ => panic!("the source was remote"),
    }

    let upsert = UpsertCollection {
        name: String::from("animals"),
        config: GenericModelConfig { architecture: ModelArchitecture::MobileNetV2 },
    };
    assert_eq!(upsert.config.architecture, ModelArchitecture::MobileNetV2);
}
