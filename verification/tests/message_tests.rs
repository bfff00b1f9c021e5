use base64::Engine;
use llm_core::message::{build_messages, decode_data_url, make_data_url};
use llm_core::imaging::image_to_base64;
use llm_core::encoding::decode_binary_to_str;
use llm_core::Role;

fn sample_png(width: u32, height: u32) -> Vec<u8> {
    let img = image::DynamicImage::ImageRgb8(image::RgbImage::from_pixel(
        width,
        height,
        image::Rgb([200u8, 40u8, 10u8]),
    ));
    let mut buf = Vec::new();
    img.write_to(&mut std::io::Cursor::new(&mut buf), image::ImageFormat::Png)
        .unwrap();
    buf
}

#[test]
fn test_text_only_request_has_no_data_url() {
    let msgs = build_messages("sys plain", "sys image", "what is this?", None);
    assert_eq!(msgs.len(), 2);
    assert_eq!(msgs[0].role, Role::System);
    assert_eq!(msgs[0].text, "sys plain");
    assert!(msgs[0].image_data_url.is_none());
    assert_eq!(msgs[1].role, Role::User);
    assert_eq!(msgs[1].text, "what is this?");
    assert!(msgs[1].image_data_url.is_none());
}

#[test]
fn test_undecodable_image_degrades_to_text_only() {
    let garbage = vec![1u8, 2, 3, 4, 5];
    let msgs = build_messages("sys plain", "sys image", "hello", Some(&garbage));
    assert_eq!(msgs.len(), 2);
    assert_eq!(msgs[0].text, "sys plain");
    assert!(msgs[1].image_data_url.is_none());

    assert!(image_to_base64(&garbage).is_err());
}

#[test]
fn test_image_request_embeds_png_data_url() {
    let png = sample_png(5, 3);
    let msgs = build_messages("sys plain", "sys image", "describe", Some(&png));
    assert_eq!(msgs[0].text, "sys image");
    let url = msgs[1].image_data_url.as_ref().expect("an attachment");
    assert!(url.starts_with("data:image/png;base64,"));
}

#[test]
fn test_data_url_round_trip_preserves_png_and_dimensions() {
    let png = sample_png(7, 4);
    let b64 = image_to_base64(&png).unwrap();

    // the encoder really base64-encoded the re-encoded PNG
    let reencoded = base64::engine::general_purpose::STANDARD
        .decode(&b64)
        .unwrap();
    assert_eq!(
        b64,
        base64::engine::general_purpose::STANDARD.encode(&reencoded)
    );

    // the data URL decodes back to exactly those bytes
    let url = make_data_url(&b64);
    let decoded = decode_data_url(&url).expect("a data URL decodes");
    assert_eq!(decoded, reencoded);

    // ... which are a valid PNG of the original dimensions
    assert_eq!(&decoded[..4], &[0x89u8, b'P', b'N', b'G']);
    let reloaded = image::load_from_memory(&decoded).unwrap();
    assert_eq!(reloaded.width(), 7);
    assert_eq!(reloaded.height(), 4);
}

#[test]
fn test_reencode_normalises_other_formats_to_png() {
    // hand the pipeline a BMP; what comes out of the data URL must be a PNG
    let img = image::DynamicImage::ImageRgb8(image::RgbImage::from_pixel(
        4,
        4,
        image::Rgb([0u8, 128u8, 255u8]),
    ));
    let mut bmp = Vec::new();
    img.write_to(&mut std::io::Cursor::new(&mut bmp), image::ImageFormat::Bmp)
        .unwrap();

    let b64 = image_to_base64(&bmp).unwrap();
    let url = make_data_url(&b64);
    let bytes = decode_data_url(&url).unwrap();
    assert_ne!(bytes, bmp);
    assert_eq!(&bytes[..4], &[0x89u8, b'P', b'N', b'G']);
    let reloaded = image::load_from_memory(&bytes).unwrap();
    assert_eq!(reloaded.width(), 4);
    assert_eq!(reloaded.height(), 4);
}

#[test]
fn test_decode_data_url_rejects_other_urls() {
    assert!(decode_data_url("https://example.com/cat.png").is_none());
    assert!(decode_data_url("data:image/png;base64,!!!not-base64!!!").is_none());
    assert!(decode_data_url("short").is_none());
}

#[test]
fn test_decode_binary_to_str() {
    assert_eq!(decode_binary_to_str("01001000,01101001"), "Hi");
    // tokens are trimmed; a leading plus sign is accepted
    assert_eq!(decode_binary_to_str(" 01000001 ,\t+1000010"), "AB");
    // tokens that are no binary octet are skipped
    assert_eq!(decode_binary_to_str("01000001,x2,,100000000,01000010"), "AB");
    assert_eq!(decode_binary_to_str(""), "");
}
