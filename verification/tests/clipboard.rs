use zenshot::clipboard::{decode_clipboard_payload, encode_png_in_memory};
use zenshot::raster::Raster;

#[test]
fn png_roundtrip_through_the_clipboard_holder() {
    let pixels: Vec<u8> = (0..2 * 3 * 4).map(|i| (i * 11) as u8).collect();
    let img = Raster::from_raw(2, 3, pixels.clone()).unwrap();
    let png = encode_png_in_memory(&img).unwrap();
    assert_eq!(&png[1..4], b"PNG");
    let back = decode_clipboard_payload(&png).unwrap();
    assert_eq!((back.width, back.height), (2, 3));
    assert_eq!(back.pixels, pixels);
}

#[test]
fn empty_or_garbled_payload_is_rejected() {
    assert_eq!(decode_clipboard_payload(&[]).unwrap_err(), "Clipboard holder received no image");
    assert!(decode_clipboard_payload(b"not an image").unwrap_err().starts_with("Clipboard PNG decode: "));
}
