use screencapture::color::Color;
use screencapture::image::{bgra_to_rgba, image_buffer_to_color_image, to_unsigned, CaptureResult, ColorImage, RgbaImage};

/// A 4 x 3 image whose pixel in column `x` of row `y` is `(x, y, 10 * y + x, 255)`.
fn sample() -> RgbaImage {
    let mut data = Vec::new();
    for y in 0..3u8 {
        for x in 0..4u8 {
            data.extend_from_slice(&[x, y, 10 * y + x, 255]);
        }
    }
    RgbaImage::from_raw(4, 3, data).unwrap()
}

fn pixel(x: u8, y: u8) -> [u8; 4] {
    [x, y, 10 * y + x, 255]
}

#[test]
fn from_raw_takes_a_buffer_that_covers_the_image() {
    assert!(RgbaImage::from_raw(2, 2, vec![0; 16]).is_some());
    assert!(RgbaImage::from_raw(2, 2, vec![0; 20]).is_some());
    assert!(RgbaImage::from_raw(2, 2, vec![0; 15]).is_none());
    assert!(RgbaImage::from_raw(0, 7, vec![]).is_some());
    assert!(RgbaImage::from_raw(u32::MAX, u32::MAX, vec![0; 64]).is_none());
    let image = RgbaImage::from_raw(2, 1, vec![1, 2, 3, 4, 5, 6, 7, 8]).unwrap();
    assert_eq!(image.width(), 2);
    assert_eq!(image.height(), 1);
    assert_eq!(image.as_raw(), &vec![1, 2, 3, 4, 5, 6, 7, 8]);
    assert_eq!(image.into_raw(), vec![1, 2, 3, 4, 5, 6, 7, 8]);
}

#[test]
fn crop_keeps_the_rows_of_the_region() {
    let part = sample().crop(1, 1, 2, 2);
    assert_eq!(part.width(), 2);
    assert_eq!(part.height(), 2);
    let expected: Vec<u8> = [pixel(1, 1), pixel(2, 1), pixel(1, 2), pixel(2, 2)].concat();
    assert_eq!(part.into_raw(), expected);
}

#[test]
fn crop_of_the_whole_image_is_the_image() {
    let part = sample().crop(0, 0, 4, 3);
    assert_eq!((part.width(), part.height()), (4, 3));
    assert_eq!(part.into_raw(), sample().into_raw());
}

#[test]
fn crop_is_cut_down_to_the_image() {
    let part = sample().crop(3, 2, 10, 10);
    assert_eq!((part.width(), part.height()), (1, 1));
    assert_eq!(part.into_raw(), pixel(3, 2).to_vec());

    let wide = sample().crop(2, 0, u32::MAX, 1);
    assert_eq!((wide.width(), wide.height()), (2, 1));
    assert_eq!(wide.into_raw(), [pixel(2, 0), pixel(3, 0)].concat());
}

#[test]
fn crop_beyond_the_image_is_empty() {
    let part = sample().crop(4, 0, 2, 2);
    assert_eq!((part.width(), part.height()), (0, 2));
    assert!(part.into_raw().is_empty());
    let below = sample().crop(0, 9, 2, 2);
    assert_eq!((below.width(), below.height()), (2, 0));
    assert!(below.into_raw().is_empty());
}

#[test]
fn crop_leaves_out_bytes_beyond_the_image() {
    let mut data = sample().into_raw();
    data.extend_from_slice(&[9, 9, 9, 9, 9]);
    let padded = RgbaImage::from_raw(4, 3, data).unwrap();
    let part = padded.crop(0, 2, 4, 1);
    assert_eq!(part.into_raw(), [pixel(0, 2), pixel(1, 2), pixel(2, 2), pixel(3, 2)].concat());
}

#[test]
fn capture_crop_reads_negative_numbers_as_beyond_the_image() {
    let capture = CaptureResult { image: sample(), width: 4, height: 3 };
    let part = capture.crop(1, 0, 2, 1);
    assert_eq!((part.width, part.height), (2, 1));
    assert_eq!(part.image.into_raw(), [pixel(1, 0), pixel(2, 0)].concat());

    let off = capture.crop(-1, 0, 2, 2);
    assert_eq!((off.image.width(), off.image.height()), (0, 2));
    assert!(off.image.into_raw().is_empty());

    let all = capture.crop(0, 0, -1, -1);
    assert_eq!((all.image.width(), all.image.height()), (4, 3));
    assert_eq!((all.width, all.height), (u32::MAX, u32::MAX));
    assert_eq!(all.image.into_raw(), sample().into_raw());
}

#[test]
fn capture_crop_records_the_extent_asked_for() {
    let capture = CaptureResult { image: sample(), width: 4, height: 3 };
    let part = capture.crop(2, 2, 100, 200);
    assert_eq!((part.width, part.height), (100, 200));
    assert_eq!((part.image.width(), part.image.height()), (2, 1));
}

#[test]
fn to_unsigned_keeps_the_bit_pattern() {
    assert_eq!(to_unsigned(0), 0);
    assert_eq!(to_unsigned(17), 17);
    assert_eq!(to_unsigned(-1), u32::MAX);
    assert_eq!(to_unsigned(i32::MIN), 0x8000_0000);
    assert_eq!(to_unsigned(i32::MAX), 0x7FFF_FFFF);
    for v in [-5, -70000, 123456] {
        assert_eq!(to_unsigned(v), v as u32);
    }
}

#[test]
fn bgra_to_rgba_swaps_red_and_blue() {
    let mut buffer = vec![1, 2, 3, 4, 5, 6, 7, 8];
    bgra_to_rgba(&mut buffer);
    assert_eq!(buffer, vec![3, 2, 1, 4, 7, 6, 5, 8]);
}

#[test]
fn bgra_to_rgba_leaves_a_trailing_part_alone() {
    let mut buffer = vec![1, 2, 3, 4, 5, 6, 7];
    bgra_to_rgba(&mut buffer);
    assert_eq!(buffer, vec![3, 2, 1, 4, 5, 6, 7]);
    let mut short = vec![1, 2, 3];
    bgra_to_rgba(&mut short);
    assert_eq!(short, vec![1, 2, 3]);
    let mut empty: Vec<u8> = vec![];
    bgra_to_rgba(&mut empty);
    assert!(empty.is_empty());
}

#[test]
fn raw_image_reads_into_pixels() {
    let image = image_buffer_to_color_image(&sample());
    assert_eq!((image.width, image.height), (4, 3));
    assert_eq!(image.pixels.len(), 12);
    for y in 0..3u8 {
        for x in 0..4u8 {
            assert_eq!(image.pixels[(y * 4 + x) as usize], Color::from_rgba(x, y, 10 * y + x, 255));
        }
    }
    assert!(image.is_valid());
}

#[test]
fn raw_image_with_spare_bytes_reads_only_its_pixels() {
    let raw = RgbaImage::from_raw(1, 1, vec![1, 2, 3, 4, 5, 6, 7, 8, 9]).unwrap();
    let image = image_buffer_to_color_image(&raw);
    assert_eq!(image, ColorImage { width: 1, height: 1, pixels: vec![Color::from_rgba(1, 2, 3, 4)] });
}

#[test]
fn pixels_flatten_to_rgba_bytes() {
    let image = ColorImage {
        width: 2,
        height: 1,
        pixels: vec![Color::from_rgba(1, 2, 3, 4), Color::from_rgba(5, 6, 7, 8)],
    };
    assert_eq!(image.to_rgba_bytes(), vec![1, 2, 3, 4, 5, 6, 7, 8]);
    let empty = ColorImage { width: 0, height: 0, pixels: vec![] };
    assert!(empty.to_rgba_bytes().is_empty());
}

#[test]
fn pixel_image_and_raw_image_round_trip() {
    let image = image_buffer_to_color_image(&sample());
    let raw = image.to_image_buffer().unwrap();
    assert_eq!((raw.width(), raw.height()), (4, 3));
    assert_eq!(raw.as_raw(), sample().as_raw());
    assert_eq!(image_buffer_to_color_image(&raw), image);
}

#[test]
fn validity_asks_for_one_pixel_per_position() {
    let px = Color::red();
    assert!(ColorImage { width: 2, height: 2, pixels: vec![px; 4] }.is_valid());
    assert!(!ColorImage { width: 2, height: 2, pixels: vec![px; 3] }.is_valid());
    assert!(!ColorImage { width: 2, height: 2, pixels: vec![px; 5] }.is_valid());
    assert!(ColorImage { width: 0, height: 5, pixels: vec![] }.is_valid());
    assert!(!ColorImage { width: usize::MAX, height: usize::MAX, pixels: vec![px] }.is_valid());
}

#[test]
fn a_pixel_image_that_is_not_valid_has_no_raw_image() {
    let px = Color::red();
    assert!(ColorImage { width: 2, height: 2, pixels: vec![px; 3] }.to_image_buffer().is_none());
    assert!(ColorImage { width: 2, height: 2, pixels: vec![px; 5] }.to_image_buffer().is_none());
    assert!(ColorImage { width: 1 << 32, height: 0, pixels: vec![] }.to_image_buffer().is_none());
    assert!(ColorImage { width: 0, height: 1 << 32, pixels: vec![] }.to_image_buffer().is_none());
    let raw = ColorImage { width: 0, height: 3, pixels: vec![] }.to_image_buffer().unwrap();
    assert_eq!((raw.width(), raw.height()), (0, 3));
    assert!(raw.into_raw().is_empty());
}
