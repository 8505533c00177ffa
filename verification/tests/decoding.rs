use clover_viewer::history::ScreenshotAction;
use clover_viewer::image_decode::decode_image_data;
use clover_viewer::image_meta::ImageProperties;
use clover_viewer::lang::Language;
use clover_viewer::screenshot_feature::{screenshot_key_decision, ScreenshotKeys};
use std::io::Cursor;

fn encoded(width: u32, height: u32, format: image::ImageFormat) -> Vec<u8> {
    let img = image::RgbImage::from_fn(width, height, |x, y| image::Rgb([x as u8 * 40, y as u8 * 40, 7]));
    let mut out = Cursor::new(Vec::new());
    image::DynamicImage::ImageRgb8(img).write_to(&mut out, format).unwrap();
    out.into_inner()
}

#[test]
fn png_decodes_with_its_size_and_bits() {
    let data = encoded(3, 2, image::ImageFormat::Png);
    let mut p = ImageProperties::default();
    p.size = 99;
    let img = decode_image_data(&data, None, &mut p).unwrap();
    assert_eq!((img.width, img.height), (3, 2));
    assert_eq!(img.rgba.len(), 3 * 2 * 4);
    assert_eq!(&img.rgba[0..4], &[0, 0, 7, 255]);
    assert_eq!(&img.rgba[4..8], &[40, 0, 7, 255]);
    assert_eq!((p.width, p.height, p.bits), (3, 2, Some(24)));
    assert_eq!(p.size, 99);
}

#[test]
fn jpeg_goes_through_the_jpeg_decoder() {
    let data = encoded(4, 3, image::ImageFormat::Jpeg);
    assert_eq!(&data[0..2], &[0xFF, 0xD8]);
    let mut p = ImageProperties::default();
    let img = decode_image_data(&data, None, &mut p).unwrap();
    assert_eq!((img.width, img.height, img.bits_per_pixel), (4, 3, 24));
    assert_eq!((p.width, p.height, p.bits), (4, 3, Some(24)));
}

#[test]
fn thumbnails_have_exactly_the_asked_size() {
    let data = encoded(5, 3, image::ImageFormat::Png);
    let mut p = ImageProperties::default();
    let img = decode_image_data(&data, Some((2, 2)), &mut p).unwrap();
    assert_eq!((img.width, img.height), (2, 2));
    assert_eq!(img.rgba.len(), 16);
    // the properties keep the size of the full image
    assert_eq!((p.width, p.height), (5, 3));
}

#[test]
fn undecodable_data_is_an_error_and_leaves_the_size() {
    let mut p = ImageProperties::default();
    p.width = 8;
    assert!(decode_image_data(&[1, 2, 3, 4], None, &mut p).is_err());
    assert_eq!(p.width, 8);
    assert_eq!(p.bits, None);
}

#[test]
fn screenshot_keys() {
    let none = ScreenshotKeys { ctrl: false, shift: false, z: false, y: false, enter: false, escape: false };
    let d = screenshot_key_decision(ScreenshotKeys { ctrl: true, z: true, ..none }, ScreenshotAction::NoAction, true, false);
    assert!(d.undo && !d.redo);
    assert_eq!(d.action, ScreenshotAction::NoAction);
    let d = screenshot_key_decision(ScreenshotKeys { ctrl: true, shift: true, z: true, ..none }, ScreenshotAction::NoAction, true, false);
    assert!(!d.undo && d.redo);
    let d = screenshot_key_decision(ScreenshotKeys { ctrl: true, y: true, ..none }, ScreenshotAction::NoAction, true, false);
    assert!(d.redo);
    let enter = ScreenshotKeys { enter: true, ..none };
    assert_eq!(screenshot_key_decision(enter, ScreenshotAction::NoAction, true, false).action, ScreenshotAction::SaveToClipboard);
    assert_eq!(screenshot_key_decision(enter, ScreenshotAction::NoAction, false, false).action, ScreenshotAction::NoAction);
    assert_eq!(screenshot_key_decision(enter, ScreenshotAction::Ocr, true, true).action, ScreenshotAction::Ocr);
    let esc = ScreenshotKeys { escape: true, enter: true, ..none };
    assert_eq!(screenshot_key_decision(esc, ScreenshotAction::SaveAndClose, true, false).action, ScreenshotAction::Close);
}

#[test]
fn default_language_is_supported() {
    let l = Language::default();
    assert!(matches!(l, Language::Zh | Language::En | Language::Ja));
}
