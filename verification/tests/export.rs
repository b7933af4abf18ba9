use zenshot::capture::decode_captured_image;
use zenshot::clipboard::decode_clipboard_payload;
use zenshot::codec::decode_image;
use zenshot::config::{Config, OutputFormat};
use zenshot::export::encode_for_save;
use zenshot::raster::Raster;

fn tiny() -> Raster {
    let mut pixels = Vec::new();
    for _ in 0..4 {
        pixels.extend_from_slice(&[10, 20, 30, 255]);
    }
    Raster::from_raw(2, 2, pixels).unwrap()
}

#[test]
fn png_saves_decode_back_to_the_pixels() {
    let config = Config::with_save_dir("/tmp".to_string());
    assert_eq!(config.output_format, OutputFormat::Png);
    let bytes = encode_for_save(&tiny(), &config).unwrap();
    assert_eq!(&bytes[..4], &[0x89, b'P', b'N', b'G']);
    let back = decode_clipboard_payload(&bytes).unwrap();
    assert_eq!(back.pixels, tiny().pixels);
}

#[test]
fn jpeg_saves_are_jpeg_files_of_the_same_size() {
    let mut config = Config::with_save_dir("/tmp".to_string());
    config.output_format = OutputFormat::Jpeg;
    config.jpeg_quality = 250;
    let bytes = encode_for_save(&tiny(), &config).unwrap();
    assert_eq!(&bytes[..2], &[0xFF, 0xD8]);
    let back = decode_clipboard_payload(&bytes).unwrap();
    assert_eq!((back.width, back.height), (2, 2));
    // Alpha is dropped and comes back opaque.
    assert!(back.pixels.chunks(4).all(|p| p[3] == 255));
}

#[test]
fn an_empty_picture_cannot_be_saved_as_jpeg() {
    let mut config = Config::with_save_dir("/tmp".to_string());
    config.output_format = OutputFormat::Jpeg;
    let empty = Raster::from_raw(0, 0, Vec::new()).unwrap();
    assert!(encode_for_save(&empty, &config).unwrap_err().starts_with("JPEG save failed: "));
}

#[test]
fn captured_portal_files_decode_or_report_the_codec_error() {
    let png = encode_for_save(&tiny(), &Config::with_save_dir("/tmp".to_string())).unwrap();
    let img = decode_captured_image(&png, "png").unwrap();
    assert_eq!((img.width, img.height), (2, 2));
    assert_eq!(img.pixels, tiny().pixels);
    assert_eq!(decode_captured_image(&png, "PNG").unwrap().pixels, tiny().pixels);
    assert_eq!(decode_image(&png).unwrap().pixels, tiny().pixels);
    let err = decode_captured_image(b"no picture here", "png").unwrap_err();
    assert!(err.starts_with("Failed to open captured image: "));
    assert!(err.len() > "Failed to open captured image: ".len());
}

#[test]
fn captured_files_are_read_as_the_format_their_extension_names() {
    let mut config = Config::with_save_dir("/tmp".to_string());
    config.output_format = OutputFormat::Jpeg;
    let jpeg = encode_for_save(&tiny(), &config).unwrap();
    // A JPEG file named `.png` is read as PNG and fails, as `image::open` does.
    assert!(decode_captured_image(&jpeg, "png").is_err());
    assert!(decode_captured_image(&jpeg, "jpg").is_ok());
    assert!(decode_captured_image(&jpeg, "").is_err());
    assert!(decode_captured_image(&jpeg, "txt").is_err());
}
