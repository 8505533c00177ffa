use clover_viewer::image_decode::{apply_exif_fields, extract_exif_properties, is_jpeg, map_exif_to_orientation, thumb_pool_threads_for, thumb_threads_for, ExifFields, ExifOrientation};
use clover_viewer::image_meta::ImageProperties;
use clover_viewer::magnifier::{magnifier_grid, sample_index};
use clover_viewer::platform::{bgra_pixels, bgra_pixels_padded, bitmap_layout, cursor_clip_rect};

#[test]
fn exif_orientation_values() {
    assert_eq!(map_exif_to_orientation(1), ExifOrientation::NoTransforms);
    assert_eq!(map_exif_to_orientation(6), ExifOrientation::Rotate90);
    assert_eq!(map_exif_to_orientation(8), ExifOrientation::Rotate270);
    assert_eq!(map_exif_to_orientation(0), ExifOrientation::NoTransforms);
    assert_eq!(map_exif_to_orientation(9), ExifOrientation::NoTransforms);
}

#[test]
fn jpeg_magic() {
    assert!(is_jpeg(&[0xFF, 0xD8, 0xFF]));
    assert!(!is_jpeg(&[0xFF, 0xD8]));
    assert!(!is_jpeg(&[0x89, 0x50, 0x4E, 0x47]));
}

#[test]
fn thumbnail_threads() {
    assert_eq!(thumb_threads_for(2), 2);
    assert_eq!(thumb_threads_for(3), 2);
    assert_eq!(thumb_threads_for(16), 14);
}

#[test]
fn exif_fields_fill_properties() {
    let mut p = ImageProperties::default();
    assert_eq!(apply_exif_fields(None, &mut p), 1);
    assert_eq!(p.make, "");
    let f = ExifFields {
        date: Some("2024:01:02 03:04:05".to_string()),
        make: Some("Canon".to_string()),
        model: None,
        f_number: Some("2.8".to_string()),
        iso: Some(100),
        focal_length: None,
        orientation: Some(6),
    };
    assert_eq!(apply_exif_fields(Some(f), &mut p), 6);
    assert_eq!(p.make, "Canon");
    assert_eq!(p.model, "");
    assert_eq!(p.iso, Some(100));
    let mut q = ImageProperties::default();
    assert_eq!(extract_exif_properties(&[1, 2, 3], &mut q), 1);
    assert_eq!(q.date, "");
}

#[test]
fn cursor_rectangle() {
    assert_eq!(cursor_clip_rect(-1920, 0, 3840, 1080, 1080), (-1920, 0, 1920, 1078));
    assert_eq!(cursor_clip_rect(0, 0, 1920, 1080, 0), (0, 0, 1920, 1075));
}

#[test]
fn bitmap_layout_errors() {
    assert_eq!(bitmap_layout(-1, 2, 8).err().unwrap(), "Bitmap width must be non-negative");
    assert_eq!(bitmap_layout(1, -2, 8).err().unwrap(), "Bitmap height must be non-negative");
    assert_eq!(bitmap_layout(1, 2, -8).err().unwrap(), "Bitmap stride must be non-negative");
    let l = bitmap_layout(2, 3, 12).unwrap();
    assert_eq!((l.width, l.height, l.stride, l.pixel_count, l.bits_len, l.row_bytes), (2, 3, 12, 6, 36, 8));
}

#[test]
fn bgra_becomes_rgba() {
    let bits = [1u8, 2, 3, 4, 5, 6, 7, 8];
    assert_eq!(bgra_pixels(&bits, 2, 1, 8), vec![(3, 2, 1, 4), (7, 6, 5, 8)]);
    let padded = [1u8, 2, 3, 4, 9, 9, 5, 6, 7, 8, 9, 9];
    assert_eq!(bgra_pixels(&padded, 1, 2, 6), vec![(3, 2, 1, 4), (7, 6, 5, 8)]);
    assert_eq!(
        bgra_pixels_padded(&bits, 3, 1, 8),
        vec![(3, 2, 1, 4), (7, 6, 5, 8), (0, 0, 0, 255)]
    );
}

#[test]
fn magnifier_samples() {
    assert_eq!(sample_index(1, 1, 3, 2), Some(4));
    assert_eq!(sample_index(3, 1, 3, 2), None);
    assert_eq!(sample_index(-1, 0, 3, 2), None);
    let g = magnifier_grid(0, 0, 2, 2, 1);
    assert_eq!(g, vec![None, None, None, None, Some(0), Some(1), None, Some(2), Some(3)]);
}

#[test]
fn exif_orientation_and_make_from_tiff() {
    // A little-endian TIFF header and one directory with Make = "Ab" and Orientation = 6.
    let data: Vec<u8> = vec![
        b'I', b'I', 42, 0, 8, 0, 0, 0, // header, first directory at 8
        2, 0, // two entries
        0x0f, 0x01, 2, 0, 3, 0, 0, 0, b'A', b'b', 0, 0, // Make, ASCII, 3 bytes inline
        0x12, 0x01, 3, 0, 1, 0, 0, 0, 6, 0, 0, 0, // Orientation, SHORT, 6
        0, 0, 0, 0, // no next directory
    ];
    let mut p = ImageProperties::default();
    p.width = 7;
    let r = extract_exif_properties(&data, &mut p);
    assert_eq!(r, 6);
    assert_eq!(p.make, "\"Ab\"");
    assert_eq!(p.date, "");
    assert_eq!(p.width, 7);
}

#[test]
fn thumb_pool_sizes() {
    assert_eq!(thumb_pool_threads_for(0), None);
    assert_eq!(thumb_pool_threads_for(1), None);
    assert_eq!(thumb_pool_threads_for(2), Some(2));
    assert_eq!(thumb_pool_threads_for(4), Some(2));
    assert_eq!(thumb_pool_threads_for(16), Some(14));
}
