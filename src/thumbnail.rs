//! Thumbnails: which files get one and from where (the image decoder or the
//! host shell), the conversion of a shell bitmap's pixels, and the encoding of
//! the result as an inline PNG.
use vstd::prelude::*;
use crate::engine::PathKind;
use crate::naming::{ext_dot_spec, split_name};
use crate::paths::{file_name, file_name_spec, lemma_last_index_bounds};
use crate::text::{lower_of, lowercase, str_eq};

verus! {

/// The size used when a request gives none.
pub const DEFAULT_THUMBNAIL_SIZE: u32 = 96;

/// The image crate's error, turned into a message.
#[verifier::external_type_specification]
#[verifier::external_body]
pub struct ExImageError(image::ImageError);

/// The PNG bytes that the image crate writes for the 8-bit RGBA image of
/// `width` by `height` pixels `rgba`, scaled with `DynamicImage::thumbnail`
/// to fit within `size` by `size` (aspect ratio kept, each side at least 1).
pub uninterp spec fn thumbnail_png_of(rgba: Seq<u8>, width: u32, height: u32, size: u32) -> Seq<u8>;

/// The character for a six-bit value in the standard base64 alphabet.
pub open spec fn base64_char(v: int) -> char {
    if v < 26 {
        (65 + v) as char
    } else if v < 52 {
        (97 + v - 26) as char
    } else if v < 62 {
        (48 + v - 52) as char
    } else if v == 62 {
        '+'
    } else {
        '/'
    }
}

/// Standard base64 with padding: each group of three bytes becomes four
/// characters, and a last group of one or two bytes is padded with `=`.
pub open spec fn base64_spec(b: Seq<u8>) -> Seq<char>
    decreases b.len(),
{
    if b.len() == 0 {
        Seq::empty()
    } else if b.len() == 1 {
        seq![base64_char(b[0] as int / 4), base64_char((b[0] as int % 4) * 16), '=', '=']
    } else if b.len() == 2 {
        seq![
            base64_char(b[0] as int / 4),
            base64_char((b[0] as int % 4) * 16 + b[1] as int / 16),
            base64_char((b[1] as int % 16) * 4),
            '=',
        ]
    } else {
        seq![
            base64_char(b[0] as int / 4),
            base64_char((b[0] as int % 4) * 16 + b[1] as int / 16),
            base64_char((b[1] as int % 16) * 4 + b[2] as int / 64),
            base64_char(b[2] as int % 64),
        ] + base64_spec(b.subrange(3, b.len() as int))
    }
}

/// The base64 of `n` bytes has a length that fits in `usize`.
pub open spec fn base64_fits(n: nat) -> bool {
    4 * ((n + 2) / 3) <= usize::MAX
}

/// Relies on base64's `STANDARD` engine and `Engine::encode`: padded
/// standard base64. It panics only when the encoded length overflows `usize`.
#[verifier::external_body]
fn encode_base64(b: &[u8]) -> (r: String)
    requires
        base64_fits(b@.len()),
    ensures
        r@ == base64_spec(b@),
{
    base64::Engine::encode(&base64::engine::general_purpose::STANDARD, b)
}

/// Relies on image's `ImageBuffer::from_raw` (8-bit RGBA), which gives an
/// image for a buffer of exactly `4 * width * height` bytes when `4 * width`
/// fits in `usize` (it multiplies by the width first, with overflow checked),
/// then
/// `DynamicImage::thumbnail`, whose sides lie between 1 and `max(size, 1)`,
/// and `write_to` with `ImageFormat::Png`. The PNG encoder refuses only a
/// zero side, so encoding a source with both sides non-zero succeeds. The
/// scaled image's buffer must fit in `usize`.
#[verifier::external_body]
fn rgba_thumbnail_png(rgba: Vec<u8>, width: u32, height: u32, size: u32) -> (r: Result<Vec<u8>, image::ImageError>)
    requires
        rgba@.len() == 4 * width * height,
        4 * width <= usize::MAX,
        size_fits(size),
    ensures
        r matches Ok(png) ==> png@ == thumbnail_png_of(rgba@, width, height, size),
        width > 0 && height > 0 ==> r is Ok,
{
    let img = image::RgbaImage::from_raw(width, height, rgba).expect("buffer length matches dimensions");
    let mut out = std::io::Cursor::new(Vec::new());
    image::DynamicImage::ImageRgba8(img).thumbnail(size, size).write_to(&mut out, image::ImageFormat::Png).map(
        |_| out.into_inner(),
    )
}

/// Relies on image's `Display` for `ImageError`: its message.
#[verifier::external_body]
fn image_error_message(e: &image::ImageError) -> String {
    e.to_string()
}

/// A square of `size` by `size` RGBA pixels (and so any thumbnail of that
/// size) has a byte length that fits in `usize`, with room for a size of 0,
/// which scales to one pixel.
pub open spec fn size_fits(size: u32) -> bool {
    4 * (size + 1) * (size + 1) <= usize::MAX
}

/// Where a thumbnail comes from.
#[derive(Clone, Copy, Debug, PartialEq, Eq, Structural)]
pub enum ThumbnailSource {
    /// Decode the file with the image decoder and scale it.
    Image,
    /// Ask the host shell for its thumbnail of the file.
    Shell,
}

/// A thumbnail to make: from where, and the size of the square it must fit.
#[derive(Clone, Copy, Debug, PartialEq, Eq, Structural)]
pub struct ThumbnailJob {
    pub source: ThumbnailSource,
    pub size: u32,
}

/// Why no thumbnail was made.
#[derive(Clone, Copy, Debug, PartialEq, Eq, Structural)]
pub enum ThumbErrorKind {
    /// The file does not exist.
    NotFound,
    /// The path is a directory, or its extension has no thumbnail.
    Unsupported,
    /// The image or the shell's bitmap could not be read or encoded.
    DecodeFailure,
    /// The host shell could not give a bitmap.
    NativeResourceFailure,
}

#[derive(Debug)]
pub struct ThumbnailError {
    pub kind: ThumbErrorKind,
    pub detail: String,
}

/// Lowercase extensions the image decoder handles.
pub open spec fn image_ext_spec(e: Seq<char>) -> bool {
    e == "jpg"@ || e == "jpeg"@ || e == "png"@ || e == "gif"@ || e == "bmp"@ || e == "webp"@
        || e == "ico"@ || e == "tiff"@ || e == "tif"@
}

/// Lowercase extensions the host shell makes thumbnails for: videos, PDF and
/// office documents.
pub open spec fn shell_ext_spec(e: Seq<char>) -> bool {
    e == "mp4"@ || e == "mkv"@ || e == "avi"@ || e == "mov"@ || e == "wmv"@ || e == "flv"@
        || e == "webm"@ || e == "m4v"@ || e == "mpeg"@ || e == "mpg"@ || e == "pdf"@ || e
        == "doc"@ || e == "docx"@ || e == "xls"@ || e == "xlsx"@ || e == "ppt"@ || e == "pptx"@
}

/// The extension of a path's file name, without its dot; empty when none.
pub open spec fn path_ext_spec(p: Seq<char>, sep: char) -> Seq<char> {
    match file_name_spec(p, sep) {
        None => Seq::empty(),
        Some(n) => if ext_dot_spec(n) < 0 {
            Seq::empty()
        } else {
            n.subrange(ext_dot_spec(n) + 1, n.len() as int)
        },
    }
}

/// The thumbnail to make for a path of kind `kind` whose lowercase extension
/// is `ext`: shell formats go to the shell, images to the decoder.
pub open spec fn route_spec(ext: Seq<char>, size: Option<u32>, kind: PathKind) -> Result<
    ThumbnailJob,
    ThumbErrorKind,
> {
    let size = match size {
        Some(s) => s,
        None => DEFAULT_THUMBNAIL_SIZE,
    };
    if kind == PathKind::Missing {
        Err(ThumbErrorKind::NotFound)
    } else if kind == PathKind::Dir {
        Err(ThumbErrorKind::Unsupported)
    } else if shell_ext_spec(ext) {
        Ok(ThumbnailJob { source: ThumbnailSource::Shell, size })
    } else if image_ext_spec(ext) {
        Ok(ThumbnailJob { source: ThumbnailSource::Image, size })
    } else {
        Err(ThumbErrorKind::Unsupported)
    }
}

/// `"data:image/png;base64,"` followed by the base64 of the PNG bytes.
pub open spec fn png_uri_spec(png: Seq<u8>) -> Seq<char> {
    "data:image/png;base64,"@ + base64_spec(png)
}

/// Whether a lowercase extension is one the image decoder handles.
pub fn is_image_extension(e: &str) -> (r: bool)
    ensures
        r == image_ext_spec(e@),
{
    str_eq(e, "jpg") || str_eq(e, "jpeg") || str_eq(e, "png") || str_eq(e, "gif") || str_eq(
        e,
        "bmp",
    ) || str_eq(e, "webp") || str_eq(e, "ico") || str_eq(e, "tiff") || str_eq(e, "tif")
}

/// Whether a lowercase extension is one the host shell makes thumbnails for.
pub fn is_shell_extension(e: &str) -> (r: bool)
    ensures
        r == shell_ext_spec(e@),
{
    str_eq(e, "mp4") || str_eq(e, "mkv") || str_eq(e, "avi") || str_eq(e, "mov") || str_eq(
        e,
        "wmv",
    ) || str_eq(e, "flv") || str_eq(e, "webm") || str_eq(e, "m4v") || str_eq(e, "mpeg")
        || str_eq(e, "mpg") || str_eq(e, "pdf") || str_eq(e, "doc") || str_eq(e, "docx")
        || str_eq(e, "xls") || str_eq(e, "xlsx") || str_eq(e, "ppt") || str_eq(e, "pptx")
}

/// Whether the image decoder makes thumbnails for `extension`, in any case.
pub fn is_image_thumbnail_supported(extension: &str) -> (r: bool)
    ensures
        r == image_ext_spec(lower_of(extension@)),
{
    let lower = lowercase(extension);
    is_image_extension(lower.as_str())
}

/// Whether the host shell makes thumbnails for `extension`, in any case.
pub fn is_shell_thumbnail_supported(extension: &str) -> (r: bool)
    ensures
        r == shell_ext_spec(lower_of(extension@)),
{
    let lower = lowercase(extension);
    is_shell_extension(lower.as_str())
}

/// Whether any thumbnail can be made for `extension`, in any case.
pub fn is_thumbnail_supported(extension: &str) -> (r: bool)
    ensures
        r == (image_ext_spec(lower_of(extension@)) || shell_ext_spec(lower_of(extension@))),
{
    is_image_thumbnail_supported(extension) || is_shell_thumbnail_supported(extension)
}

/// The extension of the file name of `path`, without its dot.
pub fn path_extension(path: &str, sep: char) -> (r: String)
    ensures
        r@ == path_ext_spec(path@, sep),
{
    match file_name(path, sep) {
        None => String::new(),
        Some(n) => {
            let (_stem, ext) = split_name(n.as_str(), false);
            let len = ext.as_str().unicode_len();
            proof {
                lemma_last_index_bounds(n@, '.');
            }
            if len == 0 {
                String::new()
            } else {
                let r = String::from_str(ext.as_str().substring_char(1, len));
                assert(r@ =~= n@.subrange(ext_dot_spec(n@) + 1, n@.len() as int));
                r
            }
        },
    }
}

/// The thumbnail to make for a path of kind `kind` (as probed) whose
/// extension, lowercased, is `lower_ext`; `size` defaults to
/// `DEFAULT_THUMBNAIL_SIZE`.
pub fn route_thumbnail(lower_ext: &str, size: Option<u32>, kind: PathKind) -> (r: Result<
    ThumbnailJob,
    ThumbnailError,
>)
    ensures
        match r {
            Ok(j) => route_spec(lower_ext@, size, kind) == Ok::<ThumbnailJob, ThumbErrorKind>(j),
            Err(e) => route_spec(lower_ext@, size, kind) == Err::<ThumbnailJob, ThumbErrorKind>(
                e.kind,
            ) && e.detail@ == Seq::<char>::empty(),
        },
{
    let size = match size {
        Some(s) => s,
        None => DEFAULT_THUMBNAIL_SIZE,
    };
    if kind == PathKind::Missing {
        Err(ThumbnailError { kind: ThumbErrorKind::NotFound, detail: String::new() })
    } else if kind == PathKind::Dir {
        Err(ThumbnailError { kind: ThumbErrorKind::Unsupported, detail: String::new() })
    } else if is_shell_extension(lower_ext) {
        Ok(ThumbnailJob { source: ThumbnailSource::Shell, size })
    } else if is_image_extension(lower_ext) {
        Ok(ThumbnailJob { source: ThumbnailSource::Image, size })
    } else {
        Err(ThumbnailError { kind: ThumbErrorKind::Unsupported, detail: String::new() })
    }
}

/// The thumbnail to make for `path`, of kind `kind` as probed: by the
/// lowercase form of its extension.
pub fn plan_thumbnail(path: &str, size: Option<u32>, kind: PathKind, sep: char) -> (r: Result<
    ThumbnailJob,
    ThumbnailError,
>)
    ensures
        match r {
            Ok(j) => route_spec(lower_of(path_ext_spec(path@, sep)), size, kind) == Ok::<
                ThumbnailJob,
                ThumbErrorKind,
            >(j),
            Err(e) => route_spec(lower_of(path_ext_spec(path@, sep)), size, kind) == Err::<
                ThumbnailJob,
                ThumbErrorKind,
            >(e.kind),
        },
{
    let ext = path_extension(path, sep);
    let lower = lowercase(ext.as_str());
    route_thumbnail(lower.as_str(), size, kind)
}

/// An extension that neither the shell nor the decoder handles gets no
/// thumbnail: the request ends as unsupported before anything is decoded.
pub proof fn lemma_unsupported_extension(ext: Seq<char>, size: Option<u32>)
    requires
        !image_ext_spec(ext),
        !shell_ext_spec(ext),
    ensures
        route_spec(ext, size, PathKind::File) == Err::<ThumbnailJob, ThumbErrorKind>(
            ThumbErrorKind::Unsupported,
        ),
{
}

/// Each whole four-byte pixel of `after` is that of `before` with its first
/// and third bytes exchanged (blue-green-red-alpha to red-green-blue-alpha);
/// bytes after the last whole pixel are kept.
pub open spec fn swapped_spec(before: Seq<u8>, after: Seq<u8>) -> bool {
    &&& after.len() == before.len()
    &&& forall|c: int|
        0 <= c && 4 * c + 4 <= before.len() ==> {
            &&& #[trigger] after[4 * c] == before[4 * c + 2]
            &&& after[4 * c + 1] == before[4 * c + 1]
            &&& after[4 * c + 2] == before[4 * c]
            &&& after[4 * c + 3] == before[4 * c + 3]
        }
    &&& forall|i: int| 4 * (before.len() / 4) <= i < before.len() ==> #[trigger] after[i] == before[i]
}

/// `p` with the first and third bytes of every whole four-byte pixel
/// exchanged; bytes after the last whole pixel are kept.
pub open spec fn swap_rb_spec(p: Seq<u8>) -> Seq<u8> {
    Seq::new(
        p.len(),
        |i: int|
            if i - i % 4 + 4 > p.len() {
                p[i]
            } else if i % 4 == 0 {
                p[i + 2]
            } else if i % 4 == 2 {
                p[i - 2]
            } else {
                p[i]
            },
    )
}

proof fn lemma_swapped_is_swap_rb(before: Seq<u8>, after: Seq<u8>)
    requires
        swapped_spec(before, after),
    ensures
        after == swap_rb_spec(before),
{
    assert forall|i: int| 0 <= i < after.len() implies after[i] == swap_rb_spec(before)[i] by {
        let c = i / 4;
        assert(i == 4 * c + i % 4);
        if 4 * c + 4 <= before.len() {
            assert(after[4 * c] == before[4 * c + 2]);
        } else {
            assert(4 * (before.len() / 4) <= i);
        }
    }
    assert(after =~= swap_rb_spec(before));
}

/// Exchanges the red and blue bytes of every whole four-byte pixel.
pub fn bgra_to_rgba(pixels: &mut Vec<u8>)
    ensures
        swapped_spec(old(pixels)@, final(pixels)@),
        final(pixels)@ == swap_rb_spec(old(pixels)@),
{
    let n = pixels.len();
    let mut j: usize = 0;
    while n - j >= 4
        invariant
            pixels@.len() == n == old(pixels)@.len(),
            j % 4 == 0,
            j <= n,
            forall|c: int|
                0 <= c && 4 * c + 4 <= j ==> {
                    &&& #[trigger] pixels@[4 * c] == old(pixels)@[4 * c + 2]
                    &&& pixels@[4 * c + 1] == old(pixels)@[4 * c + 1]
                    &&& pixels@[4 * c + 2] == old(pixels)@[4 * c]
                    &&& pixels@[4 * c + 3] == old(pixels)@[4 * c + 3]
                },
            forall|i: int| j <= i < n ==> #[trigger] pixels@[i] == old(pixels)@[i],
        decreases n - j,
    {
        let ghost prev = pixels@;
        let b = pixels[j];
        let r = pixels[j + 2];
        pixels.set(j, r);
        pixels.set(j + 2, b);
        assert(pixels@ == prev.update(j as int, r).update(j + 2, b));
        proof {
            assert forall|c: int| 0 <= c && 4 * c + 4 <= j + 4 implies {
                &&& #[trigger] pixels@[4 * c] == old(pixels)@[4 * c + 2]
                &&& pixels@[4 * c + 1] == old(pixels)@[4 * c + 1]
                &&& pixels@[4 * c + 2] == old(pixels)@[4 * c]
                &&& pixels@[4 * c + 3] == old(pixels)@[4 * c + 3]
            } by {
                if 4 * c + 4 > j {
                    assert(4 * c == j);
                    assert(prev[j + 2] == old(pixels)@[j + 2]);
                    assert(prev[j + 1] == old(pixels)@[j + 1]);
                    assert(prev[j + 3] == old(pixels)@[j + 3]);
                } else {
                    assert(4 * c + 3 < j);
                    assert(prev[4 * c] == old(pixels)@[4 * c + 2]);
                }
            }
        }
        j = j + 4;
    }
    assert(j == 4 * (n / 4));
    let ghost k = n / 4;
    assert forall|c: int| 0 <= c && 4 * c + 4 <= n implies {
        &&& #[trigger] pixels@[4 * c] == old(pixels)@[4 * c + 2]
        &&& pixels@[4 * c + 1] == old(pixels)@[4 * c + 1]
        &&& pixels@[4 * c + 2] == old(pixels)@[4 * c]
        &&& pixels@[4 * c + 3] == old(pixels)@[4 * c + 3]
    } by {
        assert(4 * c < 4 * k);
        assert(4 * c + 4 <= j);
    }
    proof {
        lemma_swapped_is_swap_rb(old(pixels)@, pixels@);
    }
}

/// The PNG bytes as an inline image: `data:image/png;base64,` and the bytes'
/// base64.
pub fn png_data_uri(png: &Vec<u8>) -> (r: String)
    requires
        base64_fits(png@.len()),
    ensures
        r@ == png_uri_spec(png@),
{
    let mut r = String::from_str("data:image/png;base64,");
    let b = encode_base64(png.as_slice());
    r.append(b.as_str());
    r
}

fn failure(detail: &str) -> (r: ThumbnailError)
    ensures
        r.kind == ThumbErrorKind::DecodeFailure,
{
    ThumbnailError { kind: ThumbErrorKind::DecodeFailure, detail: String::from_str(detail) }
}

/// Whether a thumbnail size fits the machine (see `size_fits`).
pub fn size_fits_exec(size: u32) -> (r: bool)
    ensures
        r == size_fits(size),
{
    let s: u128 = size as u128 + 1;
    assert(s * s <= 0x1_0000_0000u128 * 0x1_0000_0000u128) by (nonlinear_arith)
        requires
            s <= 0x1_0000_0000u128,
    ;
    let sq = s * s;
    assert(4 * sq == 4 * (size + 1) * (size + 1)) by (nonlinear_arith)
        requires
            sq == s * s,
            s == size + 1,
    ;
    4 * sq <= usize::MAX as u128
}

/// Whether the base64 of `n` bytes fits (see `base64_fits`).
fn base64_fits_exec(n: usize) -> (r: bool)
    ensures
        r == base64_fits(n as nat),
{
    let m: u128 = n as u128;
    4 * ((m + 2) / 3) <= usize::MAX as u128
}

/// The number of bytes of an RGBA image of `width` by `height` pixels.
fn rgba_len(width: u32, height: u32) -> (r: u128)
    ensures
        r == 4 * width * height,
{
    let w: u128 = width as u128;
    let h: u128 = height as u128;
    assert(w * h <= 0xffff_ffffu128 * 0xffff_ffffu128) by (nonlinear_arith)
        requires
            w <= 0xffff_ffffu128,
            h <= 0xffff_ffffu128,
    ;
    let wh = w * h;
    assert(4 * wh == 4 * width * height) by (nonlinear_arith)
        requires
            wh == w * h,
            w == width,
            h == height,
    ;
    4 * wh
}

/// The inline PNG of the RGBA image of `width` by `height` pixels `rgba`
/// scaled to fit within `size` by `size`. It fails when the buffer's length
/// is not that of the dimensions, when `size` does not fit the machine, or
/// when encoding fails, which it does not for non-zero sides.
pub fn encode_thumbnail(rgba: Vec<u8>, width: u32, height: u32, size: u32) -> (r: Result<
    String,
    ThumbnailError,
>)
    ensures
        r matches Ok(uri) ==> rgba@.len() == 4 * width * height && uri@ == png_uri_spec(
            thumbnail_png_of(rgba@, width, height, size),
        ),
        rgba@.len() == 4 * width * height && width > 0 && height > 0 && size_fits(size)
            && base64_fits(thumbnail_png_of(rgba@, width, height, size).len()) ==> r is Ok,
        r matches Err(e) ==> e.kind == ThumbErrorKind::DecodeFailure,
{
    if rgba.len() as u128 != rgba_len(width, height) {
        return Err(failure("pixel buffer does not match the image size"));
    }
    proof {
        if width > 0 && height > 0 {
            assert(4 * width <= 4 * width * height) by (nonlinear_arith)
                requires
                    height > 0,
            ;
        }
    }
    if width as u128 * 4 > usize::MAX as u128 {
        return Err(failure("image is too wide"));
    }
    if !size_fits_exec(size) {
        return Err(failure("requested thumbnail size is too large"));
    }
    let ghost input = rgba@;
    match rgba_thumbnail_png(rgba, width, height, size) {
        Ok(png) => {
            if !base64_fits_exec(png.len()) {
                return Err(failure("encoded thumbnail is too large"));
            }
            assert(png@ == thumbnail_png_of(input, width, height, size));
            Ok(png_data_uri(&png))
        },
        Err(e) => Err(
            ThumbnailError { kind: ThumbErrorKind::DecodeFailure, detail: image_error_message(&e) },
        ),
    }
}

/// The magnitude of a bitmap dimension as the host reports it (negative for
/// a top-down bitmap).
pub fn dimension(d: i32) -> (r: u32)
    ensures
        r as int == dimension_spec(d),
{
    if d < 0 {
        (-(d as i64)) as u32
    } else {
        d as u32
    }
}

/// The RGBA image that a shell bitmap of `width` by `height` pixels stands
/// for: its pixels with red and blue exchanged, cut to the dimensions.
pub open spec fn shell_rgba_spec(pixels: Seq<u8>, width: i32, height: i32) -> Seq<u8> {
    swap_rb_spec(pixels).subrange(0, 4 * dimension_spec(width) * dimension_spec(height))
}

/// Turns the pixels the host shell gave for a bitmap of `width` by `height`
/// (blue-green-red-alpha, four bytes each, at least that many) into an
/// inline PNG that fits within `size` by `size`.
pub fn shell_pixels_to_data_uri(pixels: Vec<u8>, width: i32, height: i32, size: u32) -> (r: Result<
    String,
    ThumbnailError,
>)
    ensures
        4 * dimension_spec(width) * dimension_spec(height) > pixels@.len() ==> r is Err,
        r matches Ok(uri) ==> 4 * dimension_spec(width) * dimension_spec(height) <= pixels@.len()
            && uri@ == png_uri_spec(
            thumbnail_png_of(
                shell_rgba_spec(pixels@, width, height),
                dimension_spec(width) as u32,
                dimension_spec(height) as u32,
                size,
            ),
        ),
        4 * dimension_spec(width) * dimension_spec(height) <= pixels@.len() && width != 0 && height
            != 0 && size_fits(size) && base64_fits(
            thumbnail_png_of(
                shell_rgba_spec(pixels@, width, height),
                dimension_spec(width) as u32,
                dimension_spec(height) as u32,
                size,
            ).len(),
        ) ==> r is Ok,
        r matches Err(e) ==> e.kind == ThumbErrorKind::DecodeFailure,
{
    let ghost input = pixels@;
    let mut pixels = pixels;
    bgra_to_rgba(&mut pixels);
    let w = dimension(width);
    let h = dimension(height);
    let n = rgba_len(w, h);
    if n > pixels.len() as u128 {
        return Err(failure("Failed to create image buffer"));
    }
    pixels.truncate(n as usize);
    assert(pixels@ == shell_rgba_spec(input, width, height));
    encode_thumbnail(pixels, w, h, size)
}

/// The magnitude of a reported bitmap dimension.
pub open spec fn dimension_spec(d: i32) -> int {
    if d < 0 {
        -d
    } else {
        d as int
    }
}

} // verus!
