use vstd::prelude::*;

use crate::image_meta::ImageProperties;
use image::metadata::Orientation;

verus! {

/// How a photo must be turned to stand upright, as its EXIF orientation says.
#[derive(PartialEq, Eq, Clone, Copy, Debug, Structural)]
pub enum ExifOrientation {
    NoTransforms,
    FlipHorizontal,
    Rotate180,
    FlipVertical,
    Rotate90FlipH,
    Rotate90,
    Rotate270FlipH,
    Rotate270,
}

/// The transform that an EXIF orientation value denotes; values other than 1 to 8 leave
/// the image as it is.
pub open spec fn orientation_spec(value: u32) -> ExifOrientation {
    if value == 2 {
        ExifOrientation::FlipHorizontal
    } else if value == 3 {
        ExifOrientation::Rotate180
    } else if value == 4 {
        ExifOrientation::FlipVertical
    } else if value == 5 {
        ExifOrientation::Rotate90FlipH
    } else if value == 6 {
        ExifOrientation::Rotate90
    } else if value == 7 {
        ExifOrientation::Rotate270FlipH
    } else if value == 8 {
        ExifOrientation::Rotate270
    } else {
        ExifOrientation::NoTransforms
    }
}

/// Maps an EXIF orientation value to the transform it denotes.
pub fn map_exif_to_orientation(exif_val: u32) -> (r: ExifOrientation)
    ensures
        r == orientation_spec(exif_val),
{
    match exif_val {
        1 => ExifOrientation::NoTransforms,
        2 => ExifOrientation::FlipHorizontal,
        3 => ExifOrientation::Rotate180,
        4 => ExifOrientation::FlipVertical,
        5 => ExifOrientation::Rotate90FlipH,
        6 => ExifOrientation::Rotate90,
        7 => ExifOrientation::Rotate270FlipH,
        8 => ExifOrientation::Rotate270,
        _ => ExifOrientation::NoTransforms,
    }
}

/// The EXIF orientation values name the transforms the EXIF standard gives them: 1 none,
/// 2 flip horizontal, 3 rotate 180, 4 flip vertical, 5 rotate 90 and flip horizontal,
/// 6 rotate 90, 7 rotate 270 and flip horizontal, 8 rotate 270; any other value leaves the
/// image as it is. Exactly the values 5 to 8 turn the image by a quarter.
pub proof fn lemma_exif_orientation_table(v: u32)
    ensures
        v == 1 ==> orientation_spec(v) == ExifOrientation::NoTransforms,
        v == 2 ==> orientation_spec(v) == ExifOrientation::FlipHorizontal,
        v == 3 ==> orientation_spec(v) == ExifOrientation::Rotate180,
        v == 4 ==> orientation_spec(v) == ExifOrientation::FlipVertical,
        v == 5 ==> orientation_spec(v) == ExifOrientation::Rotate90FlipH,
        v == 6 ==> orientation_spec(v) == ExifOrientation::Rotate90,
        v == 7 ==> orientation_spec(v) == ExifOrientation::Rotate270FlipH,
        v == 8 ==> orientation_spec(v) == ExifOrientation::Rotate270,
        (v == 0 || v > 8) ==> orientation_spec(v) == ExifOrientation::NoTransforms,
        swaps_sides(orientation_spec(v)) <==> (5 <= v <= 8),
        v != 1 && 1 <= v <= 8 ==> orientation_spec(v) != ExifOrientation::NoTransforms,
{
}

/// Whether file data starts like a JPEG file: more than two bytes, the first two `FF D8`.
pub fn is_jpeg(data: &[u8]) -> (r: bool)
    ensures
        r == (data@.len() > 2 && data@[0] == 0xFFu8 && data@[1] == 0xD8u8),
{
    data.len() > 2 && data[0] == 0xFF && data[1] == 0xD8
}

/// The number of threads for loading thumbnails on a machine with `cpus` logical CPUs:
/// all but two, and at least two.
pub fn thumb_threads_for(cpus: usize) -> (r: usize)
    requires
        cpus >= 2,
    ensures
        r == if cpus - 2 >= 2 { cpus - 2 } else { 2 },
{
    let spare = cpus - 2;
    if spare >= 2 {
        spare
    } else {
        2
    }
}

/// The number of logical CPUs of the machine (`num_cpus::get`), which is never zero.
#[verifier::external_body]
fn cpu_count() -> (r: usize)
    ensures
        r >= 1,
{
    num_cpus::get()
}

/// The number of threads for loading thumbnails on a machine with `cpus` logical CPUs, or
/// `None` when it has fewer than two, where the count would go below zero.
pub open spec fn thumb_pool_spec(cpus: usize) -> Option<usize> {
    if cpus >= 2 {
        Some(if cpus - 2 >= 2 { (cpus - 2) as usize } else { 2 })
    } else {
        None
    }
}

/// The number of threads for loading thumbnails on a machine with `cpus` logical CPUs, or
/// `None` when it has fewer than two.
pub fn thumb_pool_threads_for(cpus: usize) -> (r: Option<usize>)
    ensures
        r == thumb_pool_spec(cpus),
{
    if cpus >= 2 {
        Some(thumb_threads_for(cpus))
    } else {
        None
    }
}

/// The number of threads for loading thumbnails on this machine: `thumb_pool_threads_for`
/// of its CPU count, which is at least one and otherwise depends on the machine.
pub fn thumb_pool_threads() -> (r: Option<usize>)
    ensures
        exists|cpus: usize| cpus >= 1 && r == thumb_pool_spec(cpus),
{
    let cpus = cpu_count();
    thumb_pool_threads_for(cpus)
}

/// The EXIF fields the properties panel shows, as texts, with the ISO speed and the
/// orientation as numbers.
pub struct ExifFields {
    pub date: Option<String>,
    pub make: Option<String>,
    pub model: Option<String>,
    pub f_number: Option<String>,
    pub iso: Option<u32>,
    pub focal_length: Option<String>,
    pub orientation: Option<u32>,
}

/// A text that may be missing, as shown: empty when missing.
pub open spec fn text_or_empty(t: Option<String>) -> Seq<char> {
    match t {
        Some(s) => s@,
        None => Seq::empty(),
    }
}

/// Copies the EXIF fields of an image into its properties, a missing text as an empty one,
/// and gives the orientation value, which is 1 when the image has no EXIF data or no
/// orientation. Without EXIF data the properties stay as they are.
pub fn apply_exif_fields(fields: Option<ExifFields>, properties: &mut ImageProperties) -> (r: u32)
    ensures
        fields is None ==> r == 1 && *final(properties) == *old(properties),
        fields matches Some(f) ==> {
            &&& r == match f.orientation {
                Some(v) => v,
                None => 1,
            }
            &&& final(properties).date@ == text_or_empty(f.date)
            &&& final(properties).make@ == text_or_empty(f.make)
            &&& final(properties).model@ == text_or_empty(f.model)
            &&& final(properties).f_number@ == text_or_empty(f.f_number)
            &&& final(properties).iso == f.iso
            &&& final(properties).focal_length@ == text_or_empty(f.focal_length)
            &&& final(properties).path == old(properties).path
            &&& final(properties).width == old(properties).width
            &&& final(properties).height == old(properties).height
            &&& final(properties).size == old(properties).size
            &&& final(properties).name == old(properties).name
            &&& final(properties).bits == old(properties).bits
        },
{
    match fields {
        None => 1,
        Some(f) => {
            properties.date = match f.date {
                Some(s) => s,
                None => String::new(),
            };
            properties.make = match f.make {
                Some(s) => s,
                None => String::new(),
            };
            properties.model = match f.model {
                Some(s) => s,
                None => String::new(),
            };
            properties.f_number = match f.f_number {
                Some(s) => s,
                None => String::new(),
            };
            properties.iso = f.iso;
            properties.focal_length = match f.focal_length {
                Some(s) => s,
                None => String::new(),
            };
            match f.orientation {
                Some(v) => v,
                None => 1,
            }
        },
    }
}

/// The EXIF fields the properties panel shows, as mathematical values.
pub struct ExifFieldsModel {
    pub date: Option<Seq<char>>,
    pub make: Option<Seq<char>>,
    pub model: Option<Seq<char>>,
    pub f_number: Option<Seq<char>>,
    pub iso: Option<u32>,
    pub focal_length: Option<Seq<char>>,
    pub orientation: Option<u32>,
}

/// A text that may be missing, by its characters.
pub open spec fn opt_text(t: Option<String>) -> Option<Seq<char>> {
    match t {
        Some(s) => Some(s@),
        None => None,
    }
}

impl ExifFields {
    /// The fields as mathematical values.
    pub open spec fn model(&self) -> ExifFieldsModel {
        ExifFieldsModel {
            date: opt_text(self.date),
            make: opt_text(self.make),
            model: opt_text(self.model),
            f_number: opt_text(self.f_number),
            iso: self.iso,
            focal_length: opt_text(self.focal_length),
            orientation: self.orientation,
        }
    }
}

/// The EXIF fields of the primary image of an image file held in memory, as the `exif`
/// crate reads them; `None` where the file holds no EXIF data that parses.
pub uninterp spec fn exif_fields_of(data: Seq<u8>) -> Option<ExifFieldsModel>;

/// Reads the EXIF data of an image file held in memory (`exif::Reader::read_from_container`)
/// and, from its primary image, the date, make, model, f-number and focal length as
/// displayed text (`exif::Field::display_value`) and the ISO speed and orientation as
/// their first number (`exif::Value::get_uint`). The parse is a function of the bytes
/// alone, named `exif_fields_of`; what it gives on given bytes is left unstated.
#[verifier::external_body]
fn read_exif_fields(data: &[u8]) -> (r: Option<ExifFields>)
    ensures
        exif_fields_of(data@) == match r {
            Some(f) => Some(f.model()),
            None => None,
        },
{
    let exif = exif::Reader::new().read_from_container(&mut std::io::Cursor::new(data)).ok()?;
    let text = |t| exif.get_field(t, exif::In::PRIMARY).map(|f| f.display_value().to_string());
    let uint = |t| exif.get_field(t, exif::In::PRIMARY).and_then(|f| f.value.get_uint(0));
    Some(ExifFields {
        date: text(exif::Tag::DateTime),
        make: text(exif::Tag::Make),
        model: text(exif::Tag::Model),
        f_number: text(exif::Tag::FNumber),
        iso: uint(exif::Tag::PhotographicSensitivity),
        focal_length: text(exif::Tag::FocalLength),
        orientation: uint(exif::Tag::Orientation),
    })
}

/// A text that may be missing, as shown: empty when missing.
pub open spec fn opt_text_or_empty(t: Option<Seq<char>>) -> Seq<char> {
    match t {
        Some(s) => s,
        None => Seq::empty(),
    }
}

/// Reads the EXIF data of an image file and copies its camera fields into the properties,
/// a missing text as an empty one; gives the orientation value, 1 when the file has no EXIF
/// data or no orientation. Without EXIF data the properties stay as they are; the other
/// properties stay as they are in any case.
pub fn extract_exif_properties(data: &[u8], properties: &mut ImageProperties) -> (r: u32)
    ensures
        exif_fields_of(data@) is None ==> r == 1 && *final(properties) == *old(properties),
        exif_fields_of(data@) matches Some(f) ==> {
            &&& r == match f.orientation {
                Some(v) => v,
                None => 1,
            }
            &&& final(properties).date@ == opt_text_or_empty(f.date)
            &&& final(properties).make@ == opt_text_or_empty(f.make)
            &&& final(properties).model@ == opt_text_or_empty(f.model)
            &&& final(properties).f_number@ == opt_text_or_empty(f.f_number)
            &&& final(properties).iso == f.iso
            &&& final(properties).focal_length@ == opt_text_or_empty(f.focal_length)
        },
        final(properties).path == old(properties).path,
        final(properties).width == old(properties).width,
        final(properties).height == old(properties).height,
        final(properties).size == old(properties).size,
        final(properties).name == old(properties).name,
        final(properties).bits == old(properties).bits,
{
    let fields = read_exif_fields(data);
    apply_exif_fields(fields, properties)
}

/// The orientation value the EXIF data of an image file gives: 1 without EXIF data or
/// without an orientation field.
pub open spec fn exif_orientation_value(data: Seq<u8>) -> u32 {
    match exif_fields_of(data) {
        Some(f) => match f.orientation {
            Some(v) => v,
            None => 1,
        },
        None => 1,
    }
}

/// `after` holds the camera fields the EXIF data of an image file gives, a missing text as an
/// empty one; without EXIF data they are those of `before`.
pub open spec fn camera_fields_from(data: Seq<u8>, before: ImageProperties, after: ImageProperties) -> bool {
    match exif_fields_of(data) {
        None => {
            &&& after.date == before.date
            &&& after.make == before.make
            &&& after.model == before.model
            &&& after.f_number == before.f_number
            &&& after.iso == before.iso
            &&& after.focal_length == before.focal_length
        },
        Some(f) => {
            &&& after.date@ == opt_text_or_empty(f.date)
            &&& after.make@ == opt_text_or_empty(f.make)
            &&& after.model@ == opt_text_or_empty(f.model)
            &&& after.f_number@ == opt_text_or_empty(f.f_number)
            &&& after.iso == f.iso
            &&& after.focal_length@ == opt_text_or_empty(f.focal_length)
        },
    }
}

/// A decoded image: its size in pixels, the bits per pixel of the color type it was stored
/// in, and its pixels as red-green-blue-alpha bytes, row by row from the top left.
pub struct DecodedImage {
    pub width: u32,
    pub height: u32,
    pub bits_per_pixel: u32,
    pub rgba: Vec<u8>,
}

/// A decoded image as a mathematical value.
pub struct ImageModel {
    pub width: u32,
    pub height: u32,
    pub bits_per_pixel: u32,
    pub rgba: Seq<u8>,
}

impl DecodedImage {
    /// The image as a mathematical value.
    pub open spec fn model(&self) -> ImageModel {
        ImageModel {
            width: self.width,
            height: self.height,
            bits_per_pixel: self.bits_per_pixel,
            rgba: self.rgba@,
        }
    }
}

/// Whether `rgba` holds exactly four bytes for each of the `width` by `height` pixels.
pub open spec fn rgba_sized(width: u32, height: u32, rgba: Seq<u8>) -> bool {
    rgba.len() == width * height * 4
}

/// The image that `zune-jpeg` decodes from a JPEG file, as red-green-blue pixels turned into
/// red-green-blue-alpha; `None` where it does not decode.
pub uninterp spec fn jpeg_decode_of(data: Seq<u8>) -> Option<ImageModel>;

/// The image that the `image` crate decodes from a file of a format it reads, as
/// red-green-blue-alpha pixels; `None` where it does not decode.
pub uninterp spec fn image_decode_of(data: Seq<u8>) -> Option<ImageModel>;

/// The pixels of a `width` by `height` image after an orientation transform, as the `image`
/// crate computes them.
pub uninterp spec fn oriented_pixels_of(rgba: Seq<u8>, width: u32, height: u32, o: ExifOrientation) -> Seq<u8>;

/// The pixels of a `width` by `height` image scaled to cover `w` by `h` and cropped to it
/// with the nearest-pixel filter, as the `image` crate computes them.
pub uninterp spec fn filled_pixels_of(rgba: Seq<u8>, width: u32, height: u32, w: u32, h: u32) -> Seq<u8>;

/// Decodes a JPEG file with `zune_jpeg::JpegDecoder` (`decode`, `info`) into an
/// `image::ImageBuffer` of red-green-blue pixels and converts it to red-green-blue-alpha
/// (`to_rgba8`). The result is a function of the bytes, named `jpeg_decode_of`. The decoder
/// refuses zero sizes, red-green-blue pixels take 24 bits, and the conversion gives four bytes
/// per pixel. The error text is left unstated.
#[verifier::external_body]
fn decode_jpeg(data: &[u8]) -> (r: Result<DecodedImage, String>)
    ensures
        jpeg_decode_of(data@) == match r {
            Ok(img) => Some(img.model()),
            Err(_) => None,
        },
        r matches Ok(img) ==> img.width > 0 && img.height > 0 && img.bits_per_pixel == 24
            && rgba_sized(img.width, img.height, img.rgba@),
{
    let mut decoder = zune_jpeg::JpegDecoder::new(std::io::Cursor::new(data));
    let pixels = decoder.decode().map_err(|e| e.to_string())?;
    let info = decoder.info().ok_or("Failed to get JPEG info")?;
    let rgb = image::ImageBuffer::<image::Rgb<u8>, _>::from_raw(info.width as u32, info.height as u32, pixels)
        .ok_or("Failed to create image buffer")?;
    let img = image::DynamicImage::ImageRgb8(rgb);
    let bits_per_pixel = img.color().bits_per_pixel() as u32;
    Ok(DecodedImage { width: img.width(), height: img.height(), bits_per_pixel, rgba: img.into_rgba8().into_raw() })
}

/// Decodes an image file with `image::load_from_memory`, which guesses the format (PNG and
/// JPEG are built in), and converts it to red-green-blue-alpha (`to_rgba8`), keeping the bits
/// per pixel of its color type (`color().bits_per_pixel()`). The result is a function of the
/// bytes, named `image_decode_of`. Both decoders refuse zero sizes, and the conversion gives
/// four bytes per pixel. The error text is left unstated.
#[verifier::external_body]
fn decode_generic(data: &[u8]) -> (r: Result<DecodedImage, String>)
    ensures
        image_decode_of(data@) == match r {
            Ok(img) => Some(img.model()),
            Err(_) => None,
        },
        r matches Ok(img) ==> img.width > 0 && img.height > 0 && rgba_sized(
            img.width,
            img.height,
            img.rgba@,
        ),
{
    let img = image::load_from_memory(data).map_err(|e| e.to_string())?;
    let bits_per_pixel = img.color().bits_per_pixel() as u32;
    Ok(DecodedImage { width: img.width(), height: img.height(), bits_per_pixel, rgba: img.into_rgba8().into_raw() })
}

/// Whether an orientation turns the image by a quarter, swapping its width and height.
pub open spec fn swaps_sides(o: ExifOrientation) -> bool {
    ||| o == ExifOrientation::Rotate90
    ||| o == ExifOrientation::Rotate270
    ||| o == ExifOrientation::Rotate90FlipH
    ||| o == ExifOrientation::Rotate270FlipH
}

/// Turns an image upright (`image::DynamicImage::apply_orientation`): the quarter turns swap
/// width and height, the other transforms keep them. The pixels are named
/// `oriented_pixels_of`.
#[verifier::external_body]
fn orient(img: DecodedImage, o: ExifOrientation) -> (r: DecodedImage)
    requires
        rgba_sized(img.width, img.height, img.rgba@),
    ensures
        r.width == if swaps_sides(o) { img.height } else { img.width },
        r.height == if swaps_sides(o) { img.width } else { img.height },
        r.bits_per_pixel == img.bits_per_pixel,
        r.rgba@ == oriented_pixels_of(img.rgba@, img.width, img.height, o),
        rgba_sized(r.width, r.height, r.rgba@),
{
    let mut d = image::DynamicImage::ImageRgba8(image::RgbaImage::from_raw(img.width, img.height, img.rgba).unwrap());
    d.apply_orientation(match o {
        ExifOrientation::NoTransforms => Orientation::NoTransforms, ExifOrientation::FlipHorizontal => Orientation::FlipHorizontal,
        ExifOrientation::Rotate180 => Orientation::Rotate180, ExifOrientation::FlipVertical => Orientation::FlipVertical,
        ExifOrientation::Rotate90FlipH => Orientation::Rotate90FlipH, ExifOrientation::Rotate90 => Orientation::Rotate90,
        ExifOrientation::Rotate270FlipH => Orientation::Rotate270FlipH, ExifOrientation::Rotate270 => Orientation::Rotate270,
    });
    DecodedImage { width: d.width(), height: d.height(), bits_per_pixel: img.bits_per_pixel, rgba: d.into_rgba8().into_raw() }
}

/// Whether a `width` by `height` image can be scaled to cover `w` by `h` without the scaled
/// size leaving the range of `u32` (then the crop would run off the image).
pub open spec fn fits_fill(width: u32, height: u32, w: u32, h: u32) -> bool {
    &&& width > 0
    &&& height > 0
    &&& width * h <= 0x7fff_ffff * height
    &&& height * w <= 0x7fff_ffff * width
}

/// Scales an image to cover `w` by `h` and crops it to exactly that size
/// (`image::DynamicImage::resize_to_fill` with the nearest-pixel filter). The pixels are
/// named `filled_pixels_of`.
#[verifier::external_body]
fn fill(img: DecodedImage, w: u32, h: u32) -> (r: DecodedImage)
    requires
        rgba_sized(img.width, img.height, img.rgba@),
        fits_fill(img.width, img.height, w, h),
    ensures
        r.width == w,
        r.height == h,
        r.bits_per_pixel == img.bits_per_pixel,
        r.rgba@ == filled_pixels_of(img.rgba@, img.width, img.height, w, h),
        rgba_sized(r.width, r.height, r.rgba@),
{
    let buf = image::RgbaImage::from_raw(img.width, img.height, img.rgba).unwrap();
    let d = image::DynamicImage::ImageRgba8(buf).resize_to_fill(w, h, image::imageops::FilterType::Nearest);
    DecodedImage { width: d.width(), height: d.height(), bits_per_pixel: img.bits_per_pixel, rgba: d.into_rgba8().into_raw() }
}

/// Whether file data starts like a JPEG file.
pub open spec fn is_jpeg_spec(data: Seq<u8>) -> bool {
    data.len() > 2 && data[0] == 0xFFu8 && data[1] == 0xD8u8
}

/// The image decoded from a file: by `zune-jpeg` when it starts like a JPEG file, by the
/// `image` crate otherwise.
pub open spec fn decoded_of(data: Seq<u8>) -> Option<ImageModel> {
    if is_jpeg_spec(data) {
        jpeg_decode_of(data)
    } else {
        image_decode_of(data)
    }
}

/// A decoded image turned upright by orientation `o`.
pub open spec fn oriented_model(m: ImageModel, o: ExifOrientation) -> ImageModel {
    ImageModel {
        width: if swaps_sides(o) { m.height } else { m.width },
        height: if swaps_sides(o) { m.width } else { m.height },
        bits_per_pixel: m.bits_per_pixel,
        rgba: oriented_pixels_of(m.rgba, m.width, m.height, o),
    }
}

/// Decodes an image file held in memory for the viewer. The camera fields of the properties
/// come from its EXIF data; the image is decoded by `zune-jpeg` when the data starts like a
/// JPEG file and by the `image` crate otherwise, and is turned upright by the EXIF
/// orientation; the properties then take its width, height and bits per pixel. With a
/// size, the upright image is scaled to cover it and cropped to it, which fails where the
/// scaled size would leave the range of `u32`. Path, file size and name stay as they are,
/// and so do width, height and bits when the image does not decode.
pub fn decode_image_data(data: &[u8], size: Option<(u32, u32)>, properties: &mut ImageProperties) -> (r: Result<DecodedImage, String>)
    ensures
        camera_fields_from(data@, *old(properties), *final(properties)),
        final(properties).path == old(properties).path,
        final(properties).size == old(properties).size,
        final(properties).name == old(properties).name,
        decoded_of(data@) is None ==> {
            &&& r is Err
            &&& final(properties).width == old(properties).width
            &&& final(properties).height == old(properties).height
            &&& final(properties).bits == old(properties).bits
        },
        decoded_of(data@) matches Some(m) ==> {
            let up = oriented_model(m, orientation_spec(exif_orientation_value(data@)));
            &&& final(properties).width == up.width
            &&& final(properties).height == up.height
            &&& final(properties).bits == Some(up.bits_per_pixel)
            &&& match size {
                None => r matches Ok(img) && img.model() == up,
                Some((w, h)) => if fits_fill(up.width, up.height, w, h) {
                    r matches Ok(img) && img.model() == (ImageModel {
                        width: w,
                        height: h,
                        bits_per_pixel: up.bits_per_pixel,
                        rgba: filled_pixels_of(up.rgba, up.width, up.height, w, h),
                    })
                } else {
                    r is Err
                },
            }
        },
{
    let orientation_value = extract_exif_properties(data, properties);
    let decoded = if is_jpeg(data) {
        decode_jpeg(data)
    } else {
        decode_generic(data)
    };
    let img = match decoded {
        Ok(img) => img,
        Err(e) => return Err(e),
    };
    let img = orient(img, map_exif_to_orientation(orientation_value));
    properties.width = img.width;
    properties.height = img.height;
    properties.bits = Some(img.bits_per_pixel);
    match size {
        None => Ok(img),
        Some((w, h)) => {
            let iw = img.width as u64;
            let ih = img.height as u64;
            let ww = w as u64;
            let hh = h as u64;
            assert(iw * hh <= 0xffff_ffff * 0xffff_ffff && ih * ww <= 0xffff_ffff * 0xffff_ffff)
                by (nonlinear_arith)
                requires
                    iw <= 0xffff_ffff,
                    ih <= 0xffff_ffff,
                    ww <= 0xffff_ffff,
                    hh <= 0xffff_ffff,
            ;
            let fits = iw > 0 && ih > 0 && iw * hh <= 0x7fff_ffff * ih && ih * ww <= 0x7fff_ffff * iw;
            if fits {
                Ok(fill(img, w, h))
            } else {
                Err(String::from_str("Image too large to scale"))
            }
        },
    }
}

} // verus!
