use image::{DynamicImage, ImageFormat, Rgb, RgbImage, Rgba, RgbaImage};
use simple_gallery::thumb::{
    can_scale, genthumb, load, thumbnail, ThumbError, THUMB_SIDE,
};
use std::io::Cursor;

fn encoded(image: DynamicImage, format: ImageFormat) -> Vec<u8> {
    let mut bytes = Cursor::new(Vec::new());
    image.write_to(&mut bytes, format).unwrap();
    bytes.into_inner()
}

fn plain(width: u32, height: u32) -> DynamicImage {
    DynamicImage::ImageRgb8(RgbImage::from_pixel(width, height, Rgb([200, 40, 10])))
}

fn halves(width: u32, height: u32) -> DynamicImage {
    let image = RgbImage::from_fn(width, height, |x, _| {
        if x < width / 2 {
            Rgb([255, 0, 0])
        } else {
            Rgb([0, 0, 255])
        }
    });
    DynamicImage::ImageRgb8(image)
}

#[test]
fn the_thumbnail_side_is_four_hundred_pixels() {
    assert_eq!(THUMB_SIDE, 400);
}

#[test]
fn a_thumbnail_measures_exactly_the_thumbnail_side() {
    for (width, height) in [(10, 20), (20, 10), (400, 400), (401, 399), (1, 1), (800, 600), (37, 1000)] {
        let source = encoded(plain(width, height), ImageFormat::Png);
        let made = genthumb(&source, "pic.png").unwrap();
        assert_eq!((made.width, made.height), (400, 400));
        let back = image::load_from_memory_with_format(&made.bytes, ImageFormat::Png).unwrap();
        assert_eq!((back.width(), back.height()), (400, 400));
    }
}

#[test]
fn a_scaled_picture_reports_its_new_size() {
    let source = encoded(plain(10, 20), ImageFormat::Png);
    let picture = load(&source, "pic.png").unwrap();
    assert_eq!((picture.width(), picture.height()), (10, 20));
    let square = thumbnail(&picture).unwrap();
    assert_eq!((square.width(), square.height()), (400, 400));
}

#[test]
fn a_thumbnail_keeps_the_format_of_its_source() {
    for (name, format) in [
        ("a.png", ImageFormat::Png),
        ("a.jpg", ImageFormat::Jpeg),
        ("a.JPEG", ImageFormat::Jpeg),
        ("a.gif", ImageFormat::Gif),
        ("a.bmp", ImageFormat::Bmp),
        ("dir.d/a.webp", ImageFormat::WebP),
        ("a.tiff", ImageFormat::Tiff),
    ] {
        let source = encoded(plain(30, 50), format);
        let made = genthumb(&source, name).unwrap();
        assert_eq!(image::guess_format(&made.bytes).unwrap(), format);
        let back = image::load_from_memory_with_format(&made.bytes, format).unwrap();
        assert_eq!((back.width(), back.height()), (400, 400));
    }
}

#[test]
fn a_thumbnail_is_cropped_about_the_middle() {
    let source = encoded(halves(800, 200), ImageFormat::Png);
    let made = genthumb(&source, "wide.png").unwrap();
    let back = image::load_from_memory_with_format(&made.bytes, ImageFormat::Png).unwrap().to_rgb8();
    assert_eq!(back.dimensions(), (400, 400));
    let left = back.get_pixel(20, 200);
    let right = back.get_pixel(379, 200);
    assert!(left[0] > 200 && left[2] < 50);
    assert!(right[2] > 200 && right[0] < 50);
}

#[test]
fn a_thumbnail_of_a_translucent_picture_keeps_its_alpha() {
    let image = DynamicImage::ImageRgba8(RgbaImage::from_pixel(12, 9, Rgba([10, 20, 30, 128])));
    let made = genthumb(&encoded(image, ImageFormat::Png), "glass.png").unwrap();
    let back = image::load_from_memory_with_format(&made.bytes, ImageFormat::Png).unwrap();
    assert_eq!(back.to_rgba8().get_pixel(200, 200)[3], 128);
}

#[test]
fn a_name_without_a_known_extension_is_unsupported() {
    let source = encoded(plain(10, 10), ImageFormat::Png);
    for name in ["notes.txt", "noextension", "", "archive.tar.gz", ".png", "png", "pic.png.bak"] {
        assert_eq!(genthumb(&source, name).err(), Some(ThumbError::Unsupported));
        assert_eq!(load(&source, name).err(), Some(ThumbError::Unsupported));
    }
}

#[test]
fn bytes_that_are_no_image_fail_to_decode() {
    assert_eq!(genthumb(b"not an image at all", "pic.png").err(), Some(ThumbError::Decode));
    assert_eq!(genthumb(b"", "pic.jpg").err(), Some(ThumbError::Decode));
    let png = encoded(plain(10, 10), ImageFormat::Png);
    assert_eq!(genthumb(&png, "pic.jpg").err(), Some(ThumbError::Decode));
    assert_eq!(genthumb(&png[..20], "pic.png").err(), Some(ThumbError::Decode));
    assert_eq!(load(b"GIF89a", "pic.gif").err(), Some(ThumbError::Decode));
}

#[test]
fn a_picture_with_sides_beyond_reach_has_the_wrong_shape() {
    let line = DynamicImage::ImageLuma8(image::GrayImage::new(1, 10_737_419));
    let tall = encoded(line, ImageFormat::Pnm);
    assert_eq!(genthumb(&tall, "tall.pgm").err(), Some(ThumbError::Shape));
    let picture = load(&tall, "tall.pgm").unwrap();
    assert_eq!((picture.width(), picture.height()), (1, 10_737_419));
    assert_eq!(thumbnail(&picture).err(), Some(ThumbError::Shape));
}

#[test]
fn a_much_elongated_picture_is_scaled() {
    let tall = encoded(plain(1, 129), ImageFormat::Png);
    let made = genthumb(&tall, "tall.png").unwrap();
    assert_eq!((made.width, made.height), (400, 400));
    let back = image::load_from_memory_with_format(&made.bytes, ImageFormat::Png).unwrap();
    assert_eq!((back.width(), back.height()), (400, 400));
}

#[test]
fn a_thumbnail_is_the_source_scaled_with_the_lanczos_filter() {
    for (width, height) in [(800, 200), (30, 50), (400, 400)] {
        let picture = halves(width, height);
        let want = picture.resize_to_fill(400, 400, image::imageops::FilterType::Lanczos3);
        let made = genthumb(&encoded(picture, ImageFormat::Png), "halves.png").unwrap();
        assert_eq!(made.bytes, encoded(want, ImageFormat::Png));
    }
    let picture = halves(30, 50);
    let other = picture.resize_to_fill(400, 400, image::imageops::FilterType::Nearest);
    let made = genthumb(&encoded(picture, ImageFormat::Png), "halves.png").unwrap();
    assert_ne!(made.bytes, encoded(other, ImageFormat::Png));
}

#[test]
fn making_a_thumbnail_twice_gives_the_same_bytes() {
    let source = encoded(halves(120, 90), ImageFormat::Jpeg);
    let one = genthumb(&source, "pic.jpg").unwrap();
    let two = genthumb(&source, "pic.jpg").unwrap();
    assert_eq!(one.bytes, two.bytes);
}

#[test]
fn a_tall_picture_is_scaled() {
    let tall = encoded(plain(2, 64), ImageFormat::Png);
    let made = genthumb(&tall, "tall.png").unwrap();
    assert_eq!((made.width, made.height), (400, 400));
}

#[test]
fn a_wide_picture_is_scaled() {
    let wide = encoded(plain(64, 2), ImageFormat::Png);
    let made = genthumb(&wide, "wide.png").unwrap();
    assert_eq!((made.width, made.height), (400, 400));
}

#[test]
fn a_thumbnail_that_its_format_cannot_hold_fails_to_encode() {
    let image = DynamicImage::ImageRgba8(RgbaImage::from_pixel(16, 16, Rgba([1, 2, 3, 255])));
    let icon = encoded(image, ImageFormat::Ico);
    assert_eq!(load(&icon, "favicon.ico").map(|picture| picture.width()).ok(), Some(16));
    assert_eq!(genthumb(&icon, "favicon.ico").err(), Some(ThumbError::Encode));
}

#[test]
fn sizes_that_can_be_scaled() {
    assert!(can_scale(1, 1));
    assert!(can_scale(400, 400));
    assert!(can_scale(1, 129));
    assert!(can_scale(129, 1));
    assert!(can_scale(70_000, 1000));
    assert!(can_scale(65_536, 65_536));
    assert!(can_scale(u32::MAX, u32::MAX));
    assert!(can_scale(1, 10_737_418));
    assert!(can_scale(10_737_418, 1));
    assert!(can_scale(400, u32::MAX));
    assert!(can_scale(u32::MAX, 400));
}

#[test]
fn sizes_that_cannot_be_scaled() {
    assert!(!can_scale(0, 0));
    assert!(!can_scale(0, 10));
    assert!(!can_scale(10, 0));
    assert!(!can_scale(1, 10_737_419));
    assert!(!can_scale(10_737_419, 1));
    assert!(!can_scale(399, u32::MAX));
    assert!(!can_scale(u32::MAX, 399));
    assert!(!can_scale(u32::MAX, 1));
    assert!(!can_scale(1, u32::MAX));
}
