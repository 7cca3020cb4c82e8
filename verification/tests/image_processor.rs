use eterpix_vrc_uploader::image_processor::{
    camera_grid_image, convert_screenshot, decode_grid, encode_screenshot, grid_corners, grid_transforms,
    image_rotation_code, is_white, transform_coord, GridRow, GridTransform, RgbImage,
};

fn image(w: u32, h: u32, f: impl Fn(u32, u32) -> [u8; 3]) -> RgbImage {
    let mut pixels = Vec::new();
    for y in 0..h {
        for x in 0..w {
            pixels.extend_from_slice(&f(x, y));
        }
    }
    RgbImage { width: w, height: h, pixels }
}

fn pixel(img: &RgbImage, x: u32, y: u32) -> [u8; 3] {
    let i = 3 * (y * img.width + x) as usize;
    [img.pixels[i], img.pixels[i + 1], img.pixels[i + 2]]
}

#[test]
fn transform_coordinates() {
    assert_eq!(transform_coord(2, 5, 100, 50, GridTransform::Identity), (2, 5));
    assert_eq!(transform_coord(2, 5, 100, 50, GridTransform::Rotate180), (97, 44));
    assert_eq!(transform_coord(2, 5, 100, 50, GridTransform::FlipH), (97, 5));
    assert_eq!(transform_coord(2, 5, 100, 50, GridTransform::FlipV), (2, 44));
    for t in grid_transforms() {
        let (x, y) = transform_coord(7, 9, 30, 20, t);
        assert_eq!(transform_coord(x, y, 30, 20, t), (7, 9));
    }
    assert_eq!(
        grid_transforms(),
        vec![GridTransform::Identity, GridTransform::Rotate180, GridTransform::FlipH, GridTransform::FlipV]
    );
}

#[test]
fn corners_follow_height() {
    assert_eq!(grid_corners(1080), (2, 1077, 135, 1060));
    assert_eq!(grid_corners(0), (2, -3, 135, -20));
}

#[test]
fn whiteness() {
    let img = image(2, 1, |x, _| if x == 0 { [128, 128, 128] } else { [127, 128, 128] });
    assert!(is_white(&img, 0, 0));
    assert!(!is_white(&img, 1, 0));
    assert!(!is_white(&img, -1, 0));
    assert!(!is_white(&img, 2, 0));
    assert!(!is_white(&img, 0, 1));
    let bright = image(1, 1, |_, _| [255, 0, 200]);
    assert!(is_white(&bright, 0, 0));
}

/// Draws a grid encoding `rows` into a 67x9 image, one pixel per dot.
fn grid_image(rows: &[(bool, u32, u32)]) -> (RgbImage, Vec<(i32, i32)>) {
    let mut white = vec![vec![false; 67]; 9];
    for (r, &(positive, int_part, frac)) in rows.iter().enumerate() {
        white[r][0] = r % 2 == 0;
        white[r][66] = r % 2 == 1;
        white[r][1] = positive;
        for b in 0..32 {
            white[r][2 + b] = (int_part >> (31 - b)) & 1 == 1;
            white[r][34 + b] = (frac >> (31 - b)) & 1 == 1;
        }
    }
    let img = image(67, 9, |x, y| if white[y as usize][x as usize] { [255, 255, 255] } else { [0, 0, 0] });
    let mut dots = Vec::new();
    for r in 0..9 {
        for c in 0..67 {
            dots.push((c as i32, r as i32));
        }
    }
    (img, dots)
}

#[test]
fn grid_rows_are_decoded() {
    let rows: Vec<(bool, u32, u32)> =
        (0..9).map(|r| (r % 3 != 0, 1000 * r as u32 + 7, 500_000_000 + r as u32)).collect();
    let (img, dots) = grid_image(&rows);
    let decoded = decode_grid(&img, &dots).expect("grid");
    assert_eq!(decoded.len(), 9);
    for (r, &(positive, int_part, frac)) in rows.iter().enumerate() {
        assert_eq!(decoded[r], GridRow { positive, integer_part: int_part as u64, frac_bits: frac as u64 });
    }
    let max = decode_grid(&grid_image(&vec![(true, u32::MAX, u32::MAX); 9]).0, &dots).unwrap();
    assert_eq!(max[0].integer_part, u32::MAX as u64);
}

#[test]
fn grid_with_bad_markers_is_rejected() {
    let rows = vec![(true, 1, 2); 9];
    let (mut img, dots) = grid_image(&rows);
    // row 4 should start with a white marker: darken it
    let i = 3 * (4 * 67) as usize;
    img.pixels[i] = 0;
    img.pixels[i + 1] = 0;
    img.pixels[i + 2] = 0;
    assert!(decode_grid(&img, &dots).is_none());
    let blank = image(67, 9, |_, _| [0, 0, 0]);
    assert!(decode_grid(&blank, &dots).is_none());
}

#[test]
fn portrait_grid_image_is_turned_clockwise() {
    let img = image(2, 3, |x, y| [x as u8, y as u8, 7]);
    let turned = camera_grid_image(image(2, 3, |x, y| [x as u8, y as u8, 7]));
    assert_eq!((turned.width, turned.height), (3, 2));
    // pixel (x, y) of the result is source pixel (y, height - 1 - x)
    for y in 0..2 {
        for x in 0..3 {
            assert_eq!(pixel(&turned, x, y), pixel(&img, y, 2 - x));
        }
    }
    let landscape = camera_grid_image(image(3, 2, |x, y| [x as u8, y as u8, 0]));
    assert_eq!((landscape.width, landscape.height), (3, 2));
    assert_eq!(pixel(&landscape, 2, 1), [2, 1, 0]);
}

fn png_bytes(w: u32, h: u32) -> Vec<u8> {
    let buf = image::RgbImage::from_fn(w, h, |x, y| image::Rgb([x as u8 * 10, y as u8 * 10, 200]));
    let mut out = std::io::Cursor::new(Vec::new());
    buf.write_to(&mut out, image::ImageFormat::Png).unwrap();
    out.into_inner()
}

#[test]
fn decoding_png() {
    let c = convert_screenshot(&png_bytes(4, 3), "a.png", 90).expect("decodes");
    let img = &c.image;
    assert_eq!((img.width, img.height), (4, 3));
    assert_eq!(img.pixels.len(), 36);
    assert_eq!(pixel(img, 3, 2), [30, 20, 200]);
    assert!(!c.encoded.is_portrait);
    assert!(convert_screenshot(&[1, 2, 3, 4], "a.png", 90).is_err());
}

#[test]
fn converted_portrait_is_upright() {
    let c = convert_screenshot(&png_bytes(6, 10), "VRChat_1.png", 85).unwrap();
    assert_eq!((c.image.width, c.image.height), (6, 10));
    assert!(c.encoded.is_portrait);
    let back = image::load_from_memory(&c.encoded.jpg_bytes).unwrap();
    assert_eq!((back.width(), back.height()), (10, 6));
}

#[test]
fn screenshots_are_encoded_upright() {
    let landscape = convert_screenshot(&png_bytes(16, 8), "wide.png", 85).unwrap().image;
    let enc = encode_screenshot(&landscape, 85).unwrap();
    assert!(!enc.is_portrait);
    assert_eq!(&enc.jpg_bytes[..2], &[0xFF, 0xD8]);
    let back = image::load_from_memory(&enc.jpg_bytes).unwrap();
    assert_eq!((back.width(), back.height()), (16, 8));

    let portrait = convert_screenshot(&png_bytes(8, 16), "tall.png", 85).unwrap().image;
    let enc = encode_screenshot(&portrait, 85).unwrap();
    assert!(enc.is_portrait);
    let back = image::load_from_memory(&enc.jpg_bytes).unwrap();
    assert_eq!((back.width(), back.height()), (16, 8));
    assert_eq!(image_rotation_code(enc.is_portrait), 1);
    assert_eq!(image_rotation_code(false), 0);
}

#[test]
fn empty_image_cannot_be_encoded() {
    let empty = RgbImage { width: 0, height: 0, pixels: vec![] };
    assert!(encode_screenshot(&empty, 85).is_err());
}

fn jpeg_bytes(w: u32, h: u32) -> Vec<u8> {
    let buf = image::RgbImage::from_fn(w, h, |x, y| image::Rgb([x as u8, y as u8, 7]));
    let mut out = std::io::Cursor::new(Vec::new());
    buf.write_to(&mut out, image::ImageFormat::Jpeg).unwrap();
    out.into_inner()
}

#[test]
fn format_comes_from_the_file_extension() {
    // JPEG data under a .png name is read as PNG, and fails
    assert!(convert_screenshot(&jpeg_bytes(5, 4), "shot.png", 85).is_err());
    // PNG data under a .jpg name is read as JPEG, and fails
    assert!(convert_screenshot(&png_bytes(5, 4), "shot.jpg", 85).is_err());
    // no extension, or one that names no format
    assert!(convert_screenshot(&png_bytes(5, 4), "shot", 85).is_err());
    assert!(convert_screenshot(&png_bytes(5, 4), "shot.xyz", 85).is_err());
    // the extension is matched in any case; a directory part does not matter
    let c = convert_screenshot(&png_bytes(5, 4), "C:/pics/shot.PNG", 85).unwrap();
    assert_eq!((c.image.width, c.image.height), (5, 4));
    let c = convert_screenshot(&jpeg_bytes(5, 4), "dir/shot.jpeg", 85).unwrap();
    assert_eq!((c.image.width, c.image.height), (5, 4));
}
