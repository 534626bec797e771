use base64::Engine;
use image::{DynamicImage, GenericImageView, RgbaImage};

use edorifile::engine::PathKind;
use edorifile::thumbnail::{
    bgra_to_rgba, dimension, encode_thumbnail, is_image_thumbnail_supported, is_shell_thumbnail_supported,
    is_thumbnail_supported, path_extension, plan_thumbnail, png_data_uri, route_thumbnail,
    shell_pixels_to_data_uri, ThumbErrorKind, ThumbnailSource, DEFAULT_THUMBNAIL_SIZE,
};

const PREFIX: &str = "data:image/png;base64,";

fn png_of(w: u32, h: u32) -> Vec<u8> {
    let img = DynamicImage::ImageRgba8(RgbaImage::from_pixel(w, h, image::Rgba([200, 10, 30, 255])));
    let mut buf = std::io::Cursor::new(Vec::new());
    img.write_to(&mut buf, image::ImageFormat::Png).unwrap();
    buf.into_inner()
}

fn rgba_of(png: &[u8]) -> (Vec<u8>, u32, u32) {
    let img = image::load_from_memory(png).unwrap().to_rgba8();
    let (w, h) = img.dimensions();
    (img.into_raw(), w, h)
}

fn decode_uri(uri: &str) -> DynamicImage {
    assert!(uri.starts_with(PREFIX));
    let bytes = base64::engine::general_purpose::STANDARD.decode(&uri[PREFIX.len()..]).unwrap();
    image::load_from_memory_with_format(&bytes, image::ImageFormat::Png).unwrap()
}

#[test]
fn image_extensions_in_any_case() {
    assert!(is_image_thumbnail_supported("png"));
    assert!(is_image_thumbnail_supported("JPG"));
    assert!(is_image_thumbnail_supported("Tif"));
    assert!(!is_image_thumbnail_supported("mp4"));
    assert!(!is_image_thumbnail_supported(""));
}

#[test]
fn shell_extensions_in_any_case() {
    assert!(is_shell_thumbnail_supported("MP4"));
    assert!(is_shell_thumbnail_supported("pptx"));
    assert!(!is_shell_thumbnail_supported("png"));
    assert!(is_thumbnail_supported("Pdf"));
    assert!(!is_thumbnail_supported("exe"));
}

#[test]
fn extension_of_paths() {
    assert_eq!(path_extension("/a/b/Photo.JPG", '/'), "JPG");
    assert_eq!(path_extension("/a/b/README", '/'), "");
    assert_eq!(path_extension("/a/.hidden", '/'), "");
    assert_eq!(path_extension("C:\\v\\clip.mkv", '\\'), "mkv");
}

#[test]
fn unsupported_extension_is_refused_before_decoding() {
    let e = plan_thumbnail("/bin/setup.exe", Some(64), PathKind::File, '/').unwrap_err();
    assert_eq!(e.kind, ThumbErrorKind::Unsupported);
    let e = route_thumbnail("exe", None, PathKind::File).unwrap_err();
    assert_eq!(e.kind, ThumbErrorKind::Unsupported);
}

#[test]
fn routes_by_extension_with_default_size() {
    let j = plan_thumbnail("/v/movie.MP4", None, PathKind::File, '/').unwrap();
    assert_eq!(j.source, ThumbnailSource::Shell);
    assert_eq!(j.size, DEFAULT_THUMBNAIL_SIZE);
    assert_eq!(j.size, 96);
    let j = plan_thumbnail("/p/cat.png", Some(128), PathKind::File, '/').unwrap();
    assert_eq!(j.source, ThumbnailSource::Image);
    assert_eq!(j.size, 128);
}

#[test]
fn missing_file_and_directory_get_no_thumbnail() {
    let e = plan_thumbnail("/p/cat.png", None, PathKind::Missing, '/').unwrap_err();
    assert_eq!(e.kind, ThumbErrorKind::NotFound);
    let e = plan_thumbnail("/p/album.png", None, PathKind::Dir, '/').unwrap_err();
    assert_eq!(e.kind, ThumbErrorKind::Unsupported);
}

#[test]
fn data_uri_is_prefix_and_base64() {
    assert_eq!(png_data_uri(&vec![1, 2, 3]), "data:image/png;base64,AQID");
    assert_eq!(png_data_uri(&vec![]), "data:image/png;base64,");
    assert_eq!(png_data_uri(&vec![255]), "data:image/png;base64,/w==");
}

#[test]
fn thumbnail_of_small_png_fits_requested_size() {
    let (rgba, w, h) = rgba_of(&png_of(10, 10));
    let uri = encode_thumbnail(rgba.clone(), w, h, 5).unwrap();
    let out = decode_uri(&uri);
    assert_eq!(out.dimensions(), (5, 5));
    let uri = encode_thumbnail(rgba, w, h, DEFAULT_THUMBNAIL_SIZE).unwrap();
    let (w, h) = decode_uri(&uri).dimensions();
    assert!(w.max(h) <= DEFAULT_THUMBNAIL_SIZE);
    assert_eq!(w, h);
}

#[test]
fn thumbnail_keeps_aspect_ratio() {
    let (rgba, w, h) = rgba_of(&png_of(20, 10));
    let out = decode_uri(&encode_thumbnail(rgba, w, h, 8).unwrap());
    assert_eq!(out.dimensions(), (8, 4));
}

#[test]
fn thumbnail_of_size_zero_is_one_pixel() {
    let (rgba, w, h) = rgba_of(&png_of(3, 3));
    let out = decode_uri(&encode_thumbnail(rgba, w, h, 0).unwrap());
    assert_eq!(out.dimensions(), (1, 1));
}

#[test]
fn thumbnail_refuses_mismatched_buffer() {
    let e = encode_thumbnail(vec![0; 15], 2, 2, 4).unwrap_err();
    assert_eq!(e.kind, ThumbErrorKind::DecodeFailure);
}

#[test]
fn thumbnail_refuses_size_beyond_memory() {
    let (rgba, w, h) = rgba_of(&png_of(2, 2));
    let e = encode_thumbnail(rgba, w, h, u32::MAX).unwrap_err();
    assert_eq!(e.kind, ThumbErrorKind::DecodeFailure);
}

#[test]
fn channel_swap_of_whole_pixels() {
    let mut px = vec![1, 2, 3, 4, 5, 6, 7, 8, 9, 10];
    bgra_to_rgba(&mut px);
    assert_eq!(px, vec![3, 2, 1, 4, 7, 6, 5, 8, 9, 10]);
    let mut empty: Vec<u8> = vec![];
    bgra_to_rgba(&mut empty);
    assert!(empty.is_empty());
}

#[test]
fn bitmap_dimensions_by_magnitude() {
    assert_eq!(dimension(-96), 96);
    assert_eq!(dimension(48), 48);
    assert_eq!(dimension(i32::MIN), 2147483648);
}

#[test]
fn shell_pixels_become_png_in_rgb_order() {
    // One blue pixel in the host's blue-green-red-alpha order, 2 by 2.
    let px = vec![255, 0, 0, 255].repeat(4);
    let uri = shell_pixels_to_data_uri(px, 2, -2, 2).unwrap();
    let out = decode_uri(&uri).to_rgba8();
    assert_eq!(out.dimensions(), (2, 2));
    assert_eq!(out.get_pixel(0, 0).0, [0, 0, 255, 255]);
}

#[test]
fn shell_pixels_too_few_for_dimensions() {
    let e = shell_pixels_to_data_uri(vec![0; 12], 2, 2, 2).unwrap_err();
    assert_eq!(e.kind, ThumbErrorKind::DecodeFailure);
}

#[test]
fn shell_pixels_beyond_dimensions_are_ignored() {
    // A 1 by 1 bitmap in a buffer made for 2 by 2: only the first pixel counts.
    let mut px = vec![0, 0, 255, 255];
    px.extend(vec![9; 12]);
    let out = decode_uri(&shell_pixels_to_data_uri(px, 1, 1, 1).unwrap()).to_rgba8();
    assert_eq!(out.dimensions(), (1, 1));
    assert_eq!(out.get_pixel(0, 0).0, [255, 0, 0, 255]);
}
