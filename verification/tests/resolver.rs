use image::{DynamicImage, ImageFormat, Rgb, RgbImage, Rgba, RgbaImage};
use simple_gallery::paths::Config;
use simple_gallery::resolver::{gallery_file, resolve, settle, Resolved};
use simple_gallery::thumb::ThumbError;
use std::io::Cursor;

fn picture(width: u32, height: u32, format: ImageFormat) -> Vec<u8> {
    let image = DynamicImage::ImageRgb8(RgbImage::from_pixel(width, height, Rgb([1, 2, 3])));
    let mut bytes = Cursor::new(Vec::new());
    image.write_to(&mut bytes, format).unwrap();
    bytes.into_inner()
}

fn cached(outcome: Result<Resolved, ThumbError>) -> Vec<u8> {
    match outcome {
        Ok(Resolved::Cached(bytes)) => bytes,
        other => panic!("not from the cache: {:?}", other),
    }
}

fn generated(outcome: Result<Resolved, ThumbError>) -> Vec<u8> {
    match outcome {
        Ok(Resolved::Generated(bytes)) => bytes,
        other => panic!("not generated: {:?}", other),
    }
}

#[test]
fn a_missing_source_resolves_to_the_placeholder() {
    assert!(matches!(resolve(None, None, "nope.jpg"), Ok(Resolved::Placeholder)));
}

#[test]
fn a_cached_thumbnail_is_served_unchanged() {
    let bytes = vec![1u8, 2, 3, 4];
    assert_eq!(cached(resolve(Some(bytes.clone()), None, "a.jpg")), bytes);
    assert_eq!(cached(resolve(Some(Vec::new()), None, "a.jpg")), Vec::<u8>::new());
}

#[test]
fn a_cached_thumbnail_is_served_whatever_the_source() {
    let bytes = vec![9u8; 16];
    let source = picture(10, 10, ImageFormat::Png);
    assert_eq!(cached(resolve(Some(bytes.clone()), Some(source), "a.png")), bytes);
    assert_eq!(cached(resolve(Some(bytes.clone()), Some(vec![0, 1]), "a.txt")), bytes);
}

#[test]
fn a_thumbnail_is_generated_where_the_cache_has_none() {
    let source = picture(64, 48, ImageFormat::Jpeg);
    let bytes = generated(resolve(None, Some(source), "cats/fluffy.jpg"));
    let back = image::load_from_memory_with_format(&bytes, ImageFormat::Jpeg).unwrap();
    assert_eq!((back.width(), back.height()), (400, 400));
}

#[test]
fn the_second_request_is_answered_from_the_cache() {
    let source = picture(64, 48, ImageFormat::Jpeg);
    let mut cache: Option<Vec<u8>> = None;
    let mut writes = 0;
    let first = match resolve(cache.clone(), Some(source.clone()), "cats/fluffy.jpg").unwrap() {
        Resolved::Generated(bytes) => {
            cache = Some(bytes.clone());
            writes += 1;
            bytes
        }
        other => panic!("not generated: {:?}", other),
    };
    let second = match resolve(cache.clone(), None, "cats/fluffy.jpg").unwrap() {
        Resolved::Cached(bytes) => bytes,
        other => panic!("not from the cache: {:?}", other),
    };
    assert_eq!(first, second);
    assert_eq!(writes, 1);
    assert_eq!(cache, Some(first));
}

#[test]
fn a_source_that_is_no_image_is_an_error() {
    let outcome = resolve(None, Some(b"plain text".to_vec()), "a.png");
    assert_eq!(outcome.err(), Some(ThumbError::Decode));
    let outcome = resolve(None, Some(b"plain text".to_vec()), "a.txt");
    assert_eq!(outcome.err(), Some(ThumbError::Unsupported));
    let icon = DynamicImage::ImageRgba8(RgbaImage::from_pixel(8, 8, Rgba([1, 2, 3, 255])));
    let mut bytes = Cursor::new(Vec::new());
    icon.write_to(&mut bytes, ImageFormat::Ico).unwrap();
    let outcome = resolve(None, Some(bytes.into_inner()), "a.ico");
    assert_eq!(outcome.err(), Some(ThumbError::Encode));
}

#[test]
fn settling_prefers_the_cache() {
    assert_eq!(cached(settle(Some(vec![1]), None)), vec![1]);
    assert_eq!(cached(settle(Some(vec![1]), Some(Ok(vec![2])))), vec![1]);
    assert_eq!(cached(settle(Some(vec![1]), Some(Err(ThumbError::Decode)))), vec![1]);
}

#[test]
fn settling_without_a_cache_goes_by_the_source() {
    assert_eq!(generated(settle(None, Some(Ok(vec![2, 3])))), vec![2, 3]);
    assert!(matches!(settle(None, None), Ok(Resolved::Placeholder)));
    for error in [ThumbError::Unsupported, ThumbError::Decode, ThumbError::Shape, ThumbError::Encode] {
        assert_eq!(settle(None, Some(Err(error))).err(), Some(error));
    }
}

#[test]
fn a_media_file_that_exists_is_served_from_the_gallery() {
    let config = Config::new(None, None, None, None);
    assert_eq!(gallery_file(&config, "cats/fluffy.jpg", true), "gallery/cats/fluffy.jpg");
}

#[test]
fn a_media_file_that_is_missing_is_served_as_the_placeholder() {
    let config = Config::new(None, None, None, None);
    assert_eq!(gallery_file(&config, "cats/fluffy.jpg", false), "notfound.jpg");
    let other = Config::new(None, None, None, Some("assets/missing.png".to_string()));
    assert_eq!(gallery_file(&other, "nope.jpg", false), "assets/missing.png");
}

#[test]
fn a_source_that_is_no_image_leaves_nothing_to_cache() {
    let outcome = resolve(None, Some(b"not an image".to_vec()), "bad.jpg");
    assert!(matches!(outcome, Err(ThumbError::Decode)));
    let again = resolve(None, Some(b"not an image".to_vec()), "bad.jpg");
    assert!(matches!(again, Err(ThumbError::Decode)));
}

#[test]
fn the_same_source_resolves_to_the_same_bytes() {
    let source = picture(50, 70, ImageFormat::Png);
    let one = generated(resolve(None, Some(source.clone()), "a.png"));
    let two = generated(resolve(None, Some(source), "a.png"));
    assert_eq!(one, two);
}
