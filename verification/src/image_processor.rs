//! Screenshot handling: decoding, orientation, JPEG encoding and the bit level of
//! the VRChat camera grid (the dot pattern VRChat stamps into a corner of a
//! photo to carry the camera position and rotation).
//!
//! The grid: 9 rows of 67 dots.  Each row has a marker dot at each end, a sign
//! bit, 32 bits of integer part and 32 bits of fraction (a count of 10^-9).

use vstd::prelude::*;
use vstd::arithmetic::power2::{pow2, lemma_pow2_unfold, lemma2_to64};

verus! {

/// An RGB image, 8 bits per channel, stored row by row.
pub struct RgbImage {
    pub width: u32,
    pub height: u32,
    pub pixels: Vec<u8>,
}

impl RgbImage {
    /// The pixel buffer holds exactly three bytes per pixel.
    pub open spec fn wf(&self) -> bool {
        self.pixels@.len() == 3 * (self.width as int) * (self.height as int)
    }

    /// Channel `c` of the pixel at column `x`, row `y`.
    pub open spec fn channel(&self, x: int, y: int, c: int) -> u8 {
        self.pixels@[3 * (y * self.width + x) + c]
    }
}

// ------------------------------------------------------------------
// Outside calls into the `image` crate
// ------------------------------------------------------------------

#[verifier::external_type_specification]
#[verifier::external_body]
pub struct ExImageError(image::ImageError);

/// What decoding `bytes` as the format that the extension of `file_name` names
/// (`image::ImageFormat::from_path`, then `ImageReader::with_format(..).decode()`)
/// followed by `to_rgb8()` yields: width, height and row-major RGB bytes, or
/// `None` when the extension names no format or decoding fails.
pub uninterp spec fn decoded_rgb_of(bytes: Seq<u8>, file_name: Seq<char>) -> Option<(u32, u32, Seq<u8>)>;

/// What `JpegEncoder::new_with_quality(_, quality).encode_image` writes for an
/// RGB image, or `None` when it fails.
pub uninterp spec fn jpeg_encoding_of(width: u32, height: u32, pixels: Seq<u8>, quality: u8) -> Option<Seq<u8>>;

/// Decodes the bytes of the file `file_name` as the format its extension names
/// (`image::ImageFormat::from_path`: the extension, any case, looked up by
/// `ImageFormat::from_extension`, as `ImageReader::open` does), with
/// `ImageReader::with_format(..).decode()`, and converts the image to 8-bit RGB
/// (`DynamicImage::to_rgb8`).  Claimed: the outcome is
/// `decoded_rgb_of(bytes, file_name)`, and a decoded buffer holds three bytes per
/// pixel (the layout of `ImageBuffer<Rgb<u8>, Vec<u8>>`).  Which byte strings
/// decode is left unsaid.
#[verifier::external_body]
fn decode_rgb(bytes: &[u8], file_name: &str) -> (r: Result<RgbImage, image::ImageError>)
    ensures
        match r {
            Ok(img) => img.wf() && decoded_rgb_of(bytes@, file_name@) == Some(
                (img.width, img.height, img.pixels@),
            ),
            Err(_) => decoded_rgb_of(bytes@, file_name@) is None,
        },
{
    let format = match image::ImageFormat::from_path(file_name) {
        Ok(f) => f,
        Err(e) => return Err(e),
    };
    match image::ImageReader::with_format(std::io::Cursor::new(bytes), format).decode() {
        Ok(img) => {
            let rgb = img.to_rgb8();
            Ok(RgbImage { width: rgb.width(), height: rgb.height(), pixels: rgb.into_raw() })
        },
        Err(e) => Err(e),
    }
}

/// Pixels of an image turned 90° clockwise: the pixel at (x, y) of the result
/// is the pixel at (y, height - 1 - x) of the source.
pub open spec fn rotated90_pixels(img: RgbImage) -> Seq<u8> {
    Seq::new(
        (3 * (img.width as int) * (img.height as int)) as nat,
        |i: int|
            {
                let p = i / 3;
                let c = i % 3;
                let x = p % (img.height as int);
                let y = p / (img.height as int);
                img.channel(y, img.height - 1 - x, c)
            },
    )
}

/// Pixels of an image turned 90° counter-clockwise: the pixel at (x, y) of the
/// result is the pixel at (width - 1 - y, x) of the source.
pub open spec fn rotated270_pixels(img: RgbImage) -> Seq<u8> {
    Seq::new(
        (3 * (img.width as int) * (img.height as int)) as nat,
        |i: int|
            {
                let p = i / 3;
                let c = i % 3;
                let x = p % (img.height as int);
                let y = p / (img.height as int);
                img.channel(img.width - 1 - y, x, c)
            },
    )
}

/// `image::imageops::rotate90`: turns the image 90° clockwise.  Claimed, from
/// `rotate90_in` (which puts source pixel (x, y) at (height - 1 - y, x)):
/// width and height swap and the pixels are `rotated90_pixels`.
#[verifier::external_body]
fn rotate90(img: &RgbImage) -> (r: RgbImage)
    requires
        img.wf(),
    ensures
        r.wf(),
        r.width == img.height,
        r.height == img.width,
        r.pixels@ == rotated90_pixels(*img),
{
    let buf = image::ImageBuffer::<image::Rgb<u8>, &[u8]>::from_raw(
        img.width,
        img.height,
        img.pixels.as_slice(),
    ).unwrap();
    let out = image::imageops::rotate90(&buf);
    RgbImage { width: out.width(), height: out.height(), pixels: out.into_raw() }
}

/// `image::imageops::rotate270`: turns the image 90° counter-clockwise.
/// Claimed, from `rotate270_in` (which puts source pixel (x, y) at
/// (y, width - 1 - x)): width and height swap and the pixels are `rotated270_pixels`.
#[verifier::external_body]
fn rotate270(img: &RgbImage) -> (r: RgbImage)
    requires
        img.wf(),
    ensures
        r.wf(),
        r.width == img.height,
        r.height == img.width,
        r.pixels@ == rotated270_pixels(*img),
{
    let buf = image::ImageBuffer::<image::Rgb<u8>, &[u8]>::from_raw(
        img.width,
        img.height,
        img.pixels.as_slice(),
    ).unwrap();
    let out = image::imageops::rotate270(&buf);
    RgbImage { width: out.width(), height: out.height(), pixels: out.into_raw() }
}

/// Encodes an RGB image as JPEG with `JpegEncoder::new_with_quality(.., quality)`
/// and `encode_image`.  Claimed: the outcome is `jpeg_encoding_of(..)`; it fails
/// exactly when a side is 0 or above 65535 (the only error of `encode_image`
/// besides writer errors, which a `Vec` never raises).
#[verifier::external_body]
fn encode_jpeg(img: &RgbImage, quality: u8) -> (r: Result<Vec<u8>, image::ImageError>)
    requires
        img.wf(),
    ensures
        match r {
            Ok(bytes) => jpeg_encoding_of(img.width, img.height, img.pixels@, quality) == Some(
                bytes@,
            ),
            Err(_) => jpeg_encoding_of(img.width, img.height, img.pixels@, quality) is None,
        },
        r is Ok <==> (1 <= img.width <= 65535 && 1 <= img.height <= 65535),
{
    let buf = image::ImageBuffer::<image::Rgb<u8>, &[u8]>::from_raw(
        img.width,
        img.height,
        img.pixels.as_slice(),
    ).unwrap();
    let mut out: Vec<u8> = Vec::new();
    match image::codecs::jpeg::JpegEncoder::new_with_quality(&mut out, quality).encode_image(&buf) {
        Ok(()) => Ok(out),
        Err(e) => Err(e),
    }
}

// ------------------------------------------------------------------
// Upload image
// ------------------------------------------------------------------

/// A screenshot ready for upload.
pub struct EncodedScreenshot {
    /// The JPEG data.
    pub jpg_bytes: Vec<u8>,
    /// Whether the screenshot was taller than wide (it is then turned upright).
    pub is_portrait: bool,
}

/// The screenshot as uploaded: portrait shots (taller than wide) are turned 90°
/// counter-clockwise, then everything is JPEG-encoded with the given quality.
pub fn encode_screenshot(img: &RgbImage, jpeg_quality: u8) -> (r: Result<
    EncodedScreenshot,
    image::ImageError,
>)
    requires
        img.wf(),
    ensures
        ({
            let portrait = img.width < img.height;
            let encoded = if portrait {
                jpeg_encoding_of(img.height, img.width, rotated270_pixels(*img), jpeg_quality)
            } else {
                jpeg_encoding_of(img.width, img.height, img.pixels@, jpeg_quality)
            };
            match r {
                Ok(s) => s.is_portrait == portrait && encoded == Some(s.jpg_bytes@),
                Err(_) => encoded is None,
            }
        }),
        r is Ok <==> (1 <= img.width <= 65535 && 1 <= img.height <= 65535),
{
    let is_portrait = img.width < img.height;
    let encoded = if is_portrait {
        let upright = rotate270(img);
        encode_jpeg(&upright, jpeg_quality)
    } else {
        encode_jpeg(img, jpeg_quality)
    };
    match encoded {
        Ok(jpg_bytes) => Ok(EncodedScreenshot { jpg_bytes, is_portrait }),
        Err(e) => Err(e),
    }
}

/// A decoded screenshot and its upload form.
pub struct ConvertedScreenshot {
    /// The screenshot as 8-bit RGB (the camera grid is read from it).
    pub image: RgbImage,
    /// The JPEG to upload.
    pub encoded: EncodedScreenshot,
}

/// Decodes the bytes of the screenshot file `file_name` to RGB, in the format
/// the file's extension names, and encodes its upload form as
/// `encode_screenshot` does.  Fails when the extension names no format, when
/// the bytes do not decode as that format, or when a side of the image is 0 or
/// over 65535 pixels (JPEG's limit).
pub fn convert_screenshot(bytes: &[u8], file_name: &str, jpeg_quality: u8) -> (r: Result<
    ConvertedScreenshot,
    image::ImageError,
>)
    ensures
        match decoded_rgb_of(bytes@, file_name@) {
            None => r is Err,
            Some(d) => {
                &&& (r is Ok <==> (1 <= d.0 <= 65535 && 1 <= d.1 <= 65535))
                &&& r matches Ok(c) ==> {
                    &&& c.image.wf()
                    &&& c.image.width == d.0 && c.image.height == d.1 && c.image.pixels@ == d.2
                    &&& c.encoded.is_portrait == (d.0 < d.1)
                    &&& Some(c.encoded.jpg_bytes@) == (if d.0 < d.1 {
                        jpeg_encoding_of(d.1, d.0, rotated270_pixels(c.image), jpeg_quality)
                    } else {
                        jpeg_encoding_of(d.0, d.1, d.2, jpeg_quality)
                    })
                }
            },
        },
{
    let image = match decode_rgb(bytes, file_name) {
        Ok(img) => img,
        Err(e) => return Err(e),
    };
    match encode_screenshot(&image, jpeg_quality) {
        Ok(encoded) => Ok(ConvertedScreenshot { image, encoded }),
        Err(e) => Err(e),
    }
}

/// The `image_rotation` value reported with an upload: 1 for a portrait shot.
pub fn image_rotation_code(is_portrait: bool) -> (r: i32)
    ensures
        r == (if is_portrait { 1i32 } else { 0i32 }),
{
    if is_portrait {
        1
    } else {
        0
    }
}

// ------------------------------------------------------------------
// Camera grid
// ------------------------------------------------------------------

/// Number of dots in a grid row.
pub const GRID_COLS: usize = 67;
/// Number of grid rows.
pub const GRID_ROWS: usize = 9;

/// The ways the grid may appear mirrored or turned in a photo.
#[derive(Clone, Copy, Debug, PartialEq, Eq)]
pub enum GridTransform {
    Identity,
    Rotate180,
    FlipH,
    FlipV,
}

/// The orientations tried when decoding, in order.
pub fn grid_transforms() -> (r: Vec<GridTransform>)
    ensures
        r@ == seq![
            GridTransform::Identity,
            GridTransform::Rotate180,
            GridTransform::FlipH,
            GridTransform::FlipV,
        ],
{
    let mut v: Vec<GridTransform> = Vec::new();
    v.push(GridTransform::Identity);
    v.push(GridTransform::Rotate180);
    v.push(GridTransform::FlipH);
    v.push(GridTransform::FlipV);
    assert(v@ =~= seq![
        GridTransform::Identity,
        GridTransform::Rotate180,
        GridTransform::FlipH,
        GridTransform::FlipV,
    ]);
    v
}

/// Where a point lands under a transform of a `w` x `h` image.
pub open spec fn transform_coord_spec(x: int, y: int, w: int, h: int, transform: GridTransform) -> (int, int) {
    match transform {
        GridTransform::Rotate180 => (w - 1 - x, h - 1 - y),
        GridTransform::FlipH => (w - 1 - x, y),
        GridTransform::FlipV => (x, h - 1 - y),
        GridTransform::Identity => (x, y),
    }
}

/// The transformed point fits in `i32`.
pub open spec fn transform_fits(x: int, y: int, w: int, h: int, transform: GridTransform) -> bool {
    let p = transform_coord_spec(x, y, w, h, transform);
    i32::MIN <= p.0 <= i32::MAX && i32::MIN <= p.1 <= i32::MAX && i32::MIN <= w - 1 <= i32::MAX
        && i32::MIN <= h - 1 <= i32::MAX
}

/// Maps a point of the grid layout to where it lies in a transformed image.
pub fn transform_coord(x: i32, y: i32, w: i32, h: i32, transform: GridTransform) -> (r: (i32, i32))
    requires
        transform_fits(x as int, y as int, w as int, h as int, transform),
    ensures
        (r.0 as int, r.1 as int) == transform_coord_spec(
            x as int,
            y as int,
            w as int,
            h as int,
            transform,
        ),
{
    match transform {
        GridTransform::Rotate180 => (w - 1 - x, h - 1 - y),
        GridTransform::FlipH => (w - 1 - x, y),
        GridTransform::FlipV => (x, h - 1 - y),
        GridTransform::Identity => (x, y),
    }
}

/// Every grid transform undoes itself.
pub proof fn lemma_transform_involution(x: int, y: int, w: int, h: int, transform: GridTransform)
    ensures
        ({
            let p = transform_coord_spec(x, y, w, h, transform);
            transform_coord_spec(p.0, p.1, w, h, transform) == (x, y)
        }),
{
}

/// The grid corners in an image of height `h`, before any transform:
/// (bottom-left x, bottom-left y, top-right x, top-right y).
pub fn grid_corners(h: u32) -> (r: (i32, i32, i32, i32))
    requires
        h <= i32::MAX,
    ensures
        r == (2i32, (h - 3) as i32, 135i32, (h - 20) as i32),
{
    let hi = h as i32;
    (2, hi - 3, 135, hi - 20)
}

/// The image in which the grid is searched: a portrait photo is turned 90° clockwise.
pub fn camera_grid_image(img: RgbImage) -> (r: RgbImage)
    requires
        img.wf(),
    ensures
        r.wf(),
        img.height > img.width ==> r.width == img.height && r.height == img.width && r.pixels@
            == rotated90_pixels(img),
        img.height <= img.width ==> r == img,
{
    if img.height > img.width {
        rotate90(&img)
    } else {
        img
    }
}

/// A dot reads as white when it lies inside the image and its mean brightness
/// is above 127.
pub open spec fn is_white_spec(img: RgbImage, x: int, y: int) -> bool {
    &&& 0 <= x < img.width
    &&& 0 <= y < img.height
    &&& (img.channel(x, y, 0) + img.channel(x, y, 1) + img.channel(x, y, 2)) / 3 > 127
}

/// Whether the pixel at (x, y) is white; points outside the image are not.
pub fn is_white(img: &RgbImage, x: i32, y: i32) -> (r: bool)
    requires
        img.wf(),
        img.width <= i32::MAX,
        img.height <= i32::MAX,
    ensures
        r == is_white_spec(*img, x as int, y as int),
{
    if x < 0 || y < 0 || x >= img.width as i32 || y >= img.height as i32 {
        return false;
    }
    let w = img.width as usize;
    let h = img.height as usize;
    let xu = x as usize;
    let yu = y as usize;
    let len = img.pixels.len();
    proof {
        assert(yu * w + xu < h * w) by (nonlinear_arith)
            requires
                yu < h,
                xu < w,
        ;
        assert(3 * (yu * w + xu) + 2 < 3 * (w as int) * (h as int)) by (nonlinear_arith)
            requires
                yu * w + xu < h * w,
        ;
        assert(yu * w <= yu * w + xu);
    }
    let idx = 3 * (yu * w + xu);
    let r = img.pixels[idx] as u32;
    let g = img.pixels[idx + 1] as u32;
    let b = img.pixels[idx + 2] as u32;
    (r + g + b) / 3 > 127
}

/// The dot `k` of the layout reads as white.
pub open spec fn dot_white(img: RgbImage, dots: Seq<(i32, i32)>, k: int) -> bool {
    is_white_spec(img, dots[k].0 as int, dots[k].1 as int)
}

/// The number written by the dots `base + from .. base + to`, most significant first.
pub open spec fn bits_value(img: RgbImage, dots: Seq<(i32, i32)>, base: int, from: int, to: int) -> nat
    decreases to - from,
{
    if to <= from {
        0
    } else {
        2 * bits_value(img, dots, base, from, to - 1) + (if dot_white(img, dots, base + to - 1) {
            1nat
        } else {
            0nat
        })
    }
}

proof fn lemma_bits_value_bound(img: RgbImage, dots: Seq<(i32, i32)>, base: int, from: int, to: int)
    requires
        from <= to,
    ensures
        bits_value(img, dots, base, from, to) < pow2((to - from) as nat),
    decreases to - from,
{
    if to == from {
        lemma2_to64();
    } else {
        lemma_bits_value_bound(img, dots, base, from, to - 1);
        lemma_pow2_unfold((to - from) as nat);
    }
}

/// Row `row` shows its marker pattern: even rows are white on the left end and
/// dark on the right, odd rows the other way round.
pub open spec fn row_markers_ok(img: RgbImage, dots: Seq<(i32, i32)>, row: int) -> bool {
    let base = row * 67;
    &&& dot_white(img, dots, base) == (row % 2 == 0)
    &&& dot_white(img, dots, base + 66) == (row % 2 == 1)
}

/// Whether the dot at index `k` of `dots` is on a white pixel, read from the
/// image directly.
pub open spec fn white_at_dot(img: RgbImage, dots: Seq<(i32, i32)>, k: int) -> bool {
    let (x, y) = (dots[k].0 as int, dots[k].1 as int);
    &&& 0 <= x < img.width
    &&& 0 <= y < img.height
    &&& img.pixels@[3 * (y * img.width + x)] + img.pixels@[3 * (y * img.width + x) + 1]
        + img.pixels@[3 * (y * img.width + x) + 2] > 3 * 127 + 2
}

/// A row counts as grid data only when its two end dots show the marker: one
/// white and one dark, the left one white on rows 0, 2, 4, .. and the right one
/// white on rows 1, 3, 5, ..  (A region that is all white, or all dark, is no
/// grid.)
pub proof fn lemma_markers_one_white(img: RgbImage, dots: Seq<(i32, i32)>, row: int)
    requires
        0 <= row < 9,
        dots.len() == 9 * 67,
    ensures
        row_markers_ok(img, dots, row) <==> {
            &&& white_at_dot(img, dots, row * 67) == (row % 2 == 0)
            &&& white_at_dot(img, dots, row * 67 + 66) == (row % 2 == 1)
        },
        row_markers_ok(img, dots, row) ==> white_at_dot(img, dots, row * 67) != white_at_dot(
            img,
            dots,
            row * 67 + 66,
        ),
{
    lemma_white_at_dot(img, dots, row * 67);
    lemma_white_at_dot(img, dots, row * 67 + 66);
}

proof fn lemma_white_at_dot(img: RgbImage, dots: Seq<(i32, i32)>, k: int)
    ensures
        dot_white(img, dots, k) == white_at_dot(img, dots, k),
{
    let (x, y) = (dots[k].0 as int, dots[k].1 as int);
    if 0 <= x < img.width && 0 <= y < img.height {
        let t = img.channel(x, y, 0) + img.channel(x, y, 1) + img.channel(x, y, 2);
        assert(t / 3 > 127 <==> t > 3 * 127 + 2) by (nonlinear_arith)
            requires
                t >= 0,
        ;
    }
}

/// The raw content of one grid row.
#[derive(Clone, Copy, Debug, PartialEq, Eq)]
pub struct GridRow {
    /// The sign dot is white: the value is positive.
    pub positive: bool,
    /// The 32 bits of the integer part.
    pub integer_part: u64,
    /// The 32 bits of the fraction, a count of 10^-9.
    pub frac_bits: u64,
}

/// The content of row `row`.
pub open spec fn row_content(img: RgbImage, dots: Seq<(i32, i32)>, row: int) -> GridRow {
    let base = row * 67;
    GridRow {
        positive: dot_white(img, dots, base + 1),
        integer_part: bits_value(img, dots, base, 2, 34) as u64,
        frac_bits: bits_value(img, dots, base, 34, 66) as u64,
    }
}

fn read_bits(img: &RgbImage, dots: &Vec<(i32, i32)>, base: usize, from: usize, to: usize) -> (r: u64)
    requires
        img.wf(),
        img.width <= i32::MAX,
        img.height <= i32::MAX,
        from <= to,
        to - from <= 32,
        base + to <= dots@.len(),
    ensures
        r == bits_value(*img, dots@, base as int, from as int, to as int),
        r < 0x1_0000_0000,
{
    let mut v: u64 = 0;
    let mut col = from;
    let n = dots.len();
    proof {
        lemma2_to64();
    }
    while col < to
        invariant
            from <= col <= to,
            to - from <= 32,
            base + to <= dots@.len(),
            img.wf(),
            img.width <= i32::MAX,
            img.height <= i32::MAX,
            v == bits_value(*img, dots@, base as int, from as int, col as int),
            v < pow2((col - from) as nat),
            pow2(32) == 0x1_0000_0000,
            n == dots@.len(),
        decreases to - col,
    {
        proof {
            lemma_pow2_unfold((col + 1 - from) as nat);
            if col + 1 - from < 32 {
                vstd::arithmetic::power2::lemma_pow2_strictly_increases(
                    (col + 1 - from) as nat,
                    32,
                );
            }
        }
        let (x, y) = dots[base + col];
        let bit: u64 = if is_white(img, x, y) {
            1
        } else {
            0
        };
        v = 2 * v + bit;
        col = col + 1;
    }
    proof {
        lemma_bits_value_bound(*img, dots@, base as int, from as int, to as int);
        if to - from < 32 {
            vstd::arithmetic::power2::lemma_pow2_strictly_increases((to - from) as nat, 32);
        }
    }
    v
}

/// Reads the nine grid rows at the given dot positions (row by row, 67 dots per
/// row).  `None` when a row's marker dots do not show the expected pattern.
pub fn decode_grid(img: &RgbImage, dots: &Vec<(i32, i32)>) -> (r: Option<Vec<GridRow>>)
    requires
        img.wf(),
        img.width <= i32::MAX,
        img.height <= i32::MAX,
        dots@.len() == 9 * 67,
    ensures
        match r {
            Some(rows) => {
                &&& forall|row: int| 0 <= row < 9 ==> row_markers_ok(*img, dots@, row)
                &&& rows@.len() == 9
                &&& forall|row: int|
                    0 <= row < 9 ==> #[trigger] rows@[row] == row_content(*img, dots@, row)
            },
            None => exists|row: int| 0 <= row < 9 && !row_markers_ok(*img, dots@, row),
        },
        r is Some <==> forall|row: int|
            0 <= row < 9 ==> {
                &&& #[trigger] white_at_dot(*img, dots@, row * 67) == (row % 2 == 0)
                &&& white_at_dot(*img, dots@, row * 67 + 66) == (row % 2 == 1)
            },
{
    proof {
        assert forall|row: int| 0 <= row < 9 implies (row_markers_ok(*img, dots@, row) <==> {
            &&& #[trigger] white_at_dot(*img, dots@, row * 67) == (row % 2 == 0)
            &&& white_at_dot(*img, dots@, row * 67 + 66) == (row % 2 == 1)
        }) by {
            lemma_markers_one_white(*img, dots@, row);
        }
    }
    let mut rows: Vec<GridRow> = Vec::new();
    let mut row: usize = 0;
    while row < GRID_ROWS
        invariant
            row <= 9,
            img.wf(),
            img.width <= i32::MAX,
            img.height <= i32::MAX,
            dots@.len() == 9 * 67,
            rows@.len() == row,
            forall|k: int| 0 <= k < row ==> row_markers_ok(*img, dots@, k),
            forall|k: int| 0 <= k < row ==> #[trigger] rows@[k] == row_content(*img, dots@, k),
        decreases 9 - row,
    {
        let base = row * GRID_COLS;
        let (lx, ly) = dots[base];
        let (rx, ry) = dots[base + GRID_COLS - 1];
        let left_white = is_white(img, lx, ly);
        let right_white = is_white(img, rx, ry);
        let expect_left = row % 2 == 0;
        let expect_right = row % 2 == 1;
        if left_white != expect_left || right_white != expect_right {
            assert(!row_markers_ok(*img, dots@, row as int));
            proof {
                lemma_markers_one_white(*img, dots@, row as int);
                assert(!{
                    &&& white_at_dot(*img, dots@, row * 67) == (row % 2 == 0)
                    &&& white_at_dot(*img, dots@, row * 67 + 66) == (row % 2 == 1)
                });
            }
            return None;
        }
        let (sx, sy) = dots[base + 1];
        let positive = is_white(img, sx, sy);
        let integer_part = read_bits(img, dots, base, 2, 34);
        let frac_bits = read_bits(img, dots, base, 34, 66);
        rows.push(GridRow { positive, integer_part, frac_bits });
        row = row + 1;
    }
    Some(rows)
}

} // verus!
