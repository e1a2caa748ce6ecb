//! Thumbnails: a source image scaled and cropped to a square of fixed size.

use image::imageops::FilterType;
use image::{DynamicImage, ImageError, ImageFormat};
use vstd::prelude::*;

verus! {

/// `image::DynamicImage`: a decoded image. Nothing inside it is known here.
#[verifier::external_type_specification]
#[verifier::external_body]
pub struct ExDynamicImage(image::DynamicImage);

/// `image::ImageError`: why an image could not be decoded or encoded. Nothing inside it is
/// known here.
#[verifier::external_type_specification]
#[verifier::external_body]
pub struct ExImageError(image::ImageError);

/// `image::ImageFormat`: an image file format. Nothing inside it is known here.
#[verifier::external_type_specification]
#[verifier::external_body]
pub struct ExImageFormat(image::ImageFormat);

/// `image::imageops::FilterType`: the resampling filters, known by their names.
#[verifier::external_type_specification]
pub struct ExFilterType(image::imageops::FilterType);

/// The side of a thumbnail, in pixels.
pub const THUMB_SIDE: u32 = 400;

/// What a `Picture` stands for: an image as plain values.
pub struct PictureView {
    /// The width in pixels.
    pub width: u32,
    /// The height in pixels.
    pub height: u32,
    /// The kind of pixel and the colour space, by their names.
    pub layout: Seq<char>,
    /// The samples of all pixels, row by row, as the bytes they are stored in.
    pub pixels: Seq<u8>,
}

/// A decoded image, together with what it holds as plain values.
pub struct Picture {
    image: DynamicImage,
    width: u32,
    height: u32,
    layout: String,
    pixels: Vec<u8>,
}

impl View for Picture {
    type V = PictureView;

    closed spec fn view(&self) -> PictureView {
        PictureView {
            width: self.width,
            height: self.height,
            layout: self.layout@,
            pixels: self.pixels@,
        }
    }
}

impl Picture {
    /// The width of the image in pixels.
    pub open spec fn pixel_width(&self) -> u32 {
        self@.width
    }

    /// The height of the image in pixels.
    pub open spec fn pixel_height(&self) -> u32 {
        self@.height
    }

    /// The width of the image in pixels.
    pub fn width(&self) -> (width: u32)
        ensures
            width == self.pixel_width(),
    {
        self.width
    }

    /// The height of the image in pixels.
    pub fn height(&self) -> (height: u32)
        ensures
            height == self.pixel_height(),
    {
        self.height
    }
}

/// An image file format, together with the name it goes by.
pub struct Format {
    inner: ImageFormat,
    name: String,
}

impl View for Format {
    type V = Seq<char>;

    closed spec fn view(&self) -> Seq<char> {
        self.name@
    }
}

/// The name of the format that the extension of a path tells, or `None` where it tells
/// none. It stands for what `image::ImageFormat::from_path` makes of the path, which goes
/// by the path alone.
pub uninterp spec fn format_named(path: Seq<char>) -> Option<Seq<char>>;

/// The image that `bytes` hold in the format named `format`, or `None` where they hold no
/// such image. It stands for what `image::load_from_memory_with_format` makes of the bytes,
/// which goes by the bytes and the format alone.
pub uninterp spec fn decoded(bytes: Seq<u8>, format: Seq<char>) -> Option<PictureView>;

/// The image that comes of scaling `picture` with `filter`, keeping its aspect ratio, until
/// it covers `width` by `height`, and cropping about the middle what juts out. It stands for
/// what `image::DynamicImage::resize_to_fill` returns, which goes by the image, the size
/// and the filter alone.
pub uninterp spec fn scaled(picture: PictureView, width: u32, height: u32, filter: FilterType)
    -> PictureView;

/// The bytes that `picture` is encoded to in the format named `format`, or `None` where
/// the format cannot hold it. It stands for what `image::DynamicImage::write_to` writes,
/// which goes by the image and the format alone.
pub uninterp spec fn encoded(picture: PictureView, format: Seq<char>) -> Option<Seq<u8>>;

/// Whether an image of `width` by `height` pixels can be scaled to cover `cover_width` by
/// `cover_height`: all four sides are at least one pixel, and the scaled image, which
/// covers the one side exactly and overshoots the other, has no side beyond `u32`.
pub open spec fn fills(width: u32, height: u32, cover_width: u32, cover_height: u32) -> bool {
    &&& 1 <= width
    &&& 1 <= height
    &&& 1 <= cover_width
    &&& 1 <= cover_height
    &&& height * cover_width <= width * u32::MAX
    &&& width * cover_height <= height * u32::MAX
}

/// Whether an image of this size can be scaled to a thumbnail.
pub open spec fn scalable(width: u32, height: u32) -> bool {
    fills(width, height, THUMB_SIDE, THUMB_SIDE)
}

/// `image::ImageFormat::from_path`: the image format that the extension of `path` names.
/// The claim is only that the outcome goes by the path alone: it is the one that
/// `format_named` stands for. The name of a format is the name of its variant.
#[verifier::external_body]
fn format_of(path: &str) -> (format: Result<Format, ImageError>)
    ensures
        match format {
            Ok(known) => format_named(path@) == Some(known@),
            Err(_) => format_named(path@) is None,
        },
{
    let inner = ImageFormat::from_path(path)?;
    Ok(Format { name: format!("{:?}", inner), inner })
}

/// `image::load_from_memory_with_format`: decodes `bytes` as an image of the given format.
/// The claim is only that the outcome goes by the bytes and the format alone: it is the
/// one that `decoded` stands for. What the picture holds is what `DynamicImage::width`,
/// `height`, `color`, `color_space` and `as_bytes` report of the decoded image.
#[verifier::external_body]
fn decode(bytes: &[u8], format: &Format) -> (picture: Result<Picture, ImageError>)
    ensures
        match picture {
            Ok(held) => decoded(bytes@, format@) == Some(held@),
            Err(_) => decoded(bytes@, format@) is None,
        },
{
    let image = image::load_from_memory_with_format(bytes, format.inner)?;
    let layout = format!("{:?} {:?}", image.color(), image.color_space());
    let pixels = image.as_bytes().to_vec();
    Ok(Picture { width: image.width(), height: image.height(), layout, pixels, image })
}

/// `image::DynamicImage::resize_to_fill`: scales the image with `filter`, keeping its aspect
/// ratio, until it covers `width` by `height`, and crops about the middle what juts out.
/// The claims are that the result goes by the image, the size and the filter alone, being
/// the one that `scaled` stands for, and that it measures exactly `width` by `height`.
/// The sizes admitted are those on which the scaled image has sides that fit `u32`.
#[verifier::external_body]
fn resize_to_fill(source: &Picture, width: u32, height: u32, filter: FilterType) -> (picture:
    Picture)
    requires
        fills(source@.width, source@.height, width, height),
    ensures
        picture@ == scaled(source@, width, height, filter),
        picture@.width == width,
        picture@.height == height,
{
    let image = source.image.resize_to_fill(width, height, filter);
    let layout = format!("{:?} {:?}", image.color(), image.color_space());
    let pixels = image.as_bytes().to_vec();
    Picture { width: image.width(), height: image.height(), layout, pixels, image }
}

/// `image::DynamicImage::write_to`: encodes the image in the given format. The claim is
/// only that the outcome goes by the image and the format alone: it is the one that
/// `encoded` stands for.
#[verifier::external_body]
fn encode(picture: &Picture, format: &Format) -> (bytes: Result<Vec<u8>, ImageError>)
    ensures
        match bytes {
            Ok(written) => encoded(picture@, format@) == Some(written@),
            Err(_) => encoded(picture@, format@) is None,
        },
{
    let mut bytes = std::io::Cursor::new(Vec::new());
    picture.image.write_to(&mut bytes, format.inner)?;
    Ok(bytes.into_inner())
}

/// Why no thumbnail could be made of a source.
#[derive(Clone, Copy, Debug, PartialEq, Eq, Structural)]
pub enum ThumbError {
    /// The name of the source tells no image format.
    Unsupported,
    /// The source is not a valid image of its format.
    Decode,
    /// The source has no pixels, or is so elongated that its scaled sides pass `u32`.
    Shape,
    /// The thumbnail could not be encoded in the format of the source.
    Encode,
}

/// Whether an image of this size can be scaled to a thumbnail.
pub fn can_scale(width: u32, height: u32) -> (ok: bool)
    ensures
        ok == scalable(width, height),
{
    if width < 1 || height < 1 {
        return false;
    }
    let wide: u64 = width as u64;
    let high: u64 = height as u64;
    let side: u64 = THUMB_SIDE as u64;
    let most: u64 = u32::MAX as u64;
    assert(high * side <= 0xffff_ffff * 400 && wide * most <= 0xffff_ffff * 0xffff_ffff)
        by (nonlinear_arith)
        requires
            high <= 0xffff_ffff,
            wide <= 0xffff_ffff,
            side == 400,
            most == 0xffff_ffff,
    ;
    high * side <= wide * most && wide * side <= high * most
}

/// The thumbnail of a picture: the picture scaled with the Lanczos filter and cropped to a
/// square of `THUMB_SIDE` pixels a side.
pub open spec fn thumbnail_of(picture: PictureView) -> PictureView {
    scaled(picture, THUMB_SIDE, THUMB_SIDE, FilterType::Lanczos3)
}

/// Scales and crops a picture to its thumbnail, a square of `THUMB_SIDE` pixels a side,
/// filled entirely. Fails exactly on the pictures that cannot be scaled.
pub fn thumbnail(source: &Picture) -> (thumb: Result<Picture, ThumbError>)
    ensures
        match thumb {
            Ok(picture) => {
                &&& scalable(source@.width, source@.height)
                &&& picture@ == thumbnail_of(source@)
                &&& picture@.width == THUMB_SIDE
                &&& picture@.height == THUMB_SIDE
            },
            Err(error) => !scalable(source@.width, source@.height) && error == ThumbError::Shape,
        },
{
    if can_scale(source.width(), source.height()) {
        Ok(resize_to_fill(source, THUMB_SIDE, THUMB_SIDE, FilterType::Lanczos3))
    } else {
        Err(ThumbError::Shape)
    }
}

/// A thumbnail as it is stored and served: the encoded image, and the size in pixels of
/// the image that was encoded.
#[derive(Debug)]
pub struct Thumbnail {
    pub bytes: Vec<u8>,
    pub width: u32,
    pub height: u32,
}

/// What loading a source comes to: the image that its bytes hold in the format that the
/// extension of its path tells. Loading fails where the path tells no format, and where
/// the bytes hold no image of that format.
pub open spec fn loading(source: Seq<u8>, path: Seq<char>) -> Result<PictureView, ThumbError> {
    match format_named(path) {
        None => Err(ThumbError::Unsupported),
        Some(format) => match decoded(source, format) {
            None => Err(ThumbError::Decode),
            Some(picture) => Ok(picture),
        },
    }
}

/// What making the thumbnail of a source comes to: the bytes that the source's image,
/// scaled and cropped to its thumbnail, is encoded to in the format of the source. It fails
/// where the source does not load, where its image cannot be scaled, and where the format
/// cannot hold the thumbnail.
pub open spec fn made_of(source: Seq<u8>, path: Seq<char>) -> Result<Seq<u8>, ThumbError> {
    match loading(source, path) {
        Err(error) => Err(error),
        Ok(picture) => if !scalable(picture.width, picture.height) {
            Err(ThumbError::Shape)
        } else {
            match encoded(thumbnail_of(picture), format_named(path)->Some_0) {
                None => Err(ThumbError::Encode),
                Some(bytes) => Ok(bytes),
            }
        },
    }
}

/// Decodes the bytes of a source as an image of the format that the extension of `path`
/// tells: the picture is the image that the bytes hold. Loading fails with `Unsupported`
/// exactly where the path tells no format, and with `Decode` exactly where it tells one and
/// the bytes hold no image of it.
pub fn load(source: &[u8], path: &str) -> (loaded: Result<Picture, ThumbError>)
    ensures
        match loaded {
            Ok(picture) => loading(source@, path@) == Ok::<PictureView, ThumbError>(picture@),
            Err(error) => loading(source@, path@) == Err::<PictureView, ThumbError>(error),
        },
{
    let format = match format_of(path) {
        Ok(format) => format,
        Err(_) => {
            return Err(ThumbError::Unsupported);
        },
    };
    match decode(source, &format) {
        Ok(picture) => Ok(picture),
        Err(_) => Err(ThumbError::Decode),
    }
}

/// Makes the thumbnail of a source from its bytes: decodes them as an image of the format
/// that the extension of `path` tells, scales and crops the image to a square of
/// `THUMB_SIDE` pixels a side, and encodes the square in the same format.
pub fn genthumb(source: &[u8], path: &str) -> (made: Result<Thumbnail, ThumbError>)
    ensures
        match made_of(source@, path@) {
            Ok(bytes) => made matches Ok(thumb) && thumb.bytes@ == bytes,
            Err(error) => made matches Err(found) && found == error,
        },
        made matches Ok(thumb) ==> thumb.width == THUMB_SIDE && thumb.height == THUMB_SIDE,
{
    let format = match format_of(path) {
        Ok(format) => format,
        Err(_) => {
            return Err(ThumbError::Unsupported);
        },
    };
    let picture = match decode(source, &format) {
        Ok(picture) => picture,
        Err(_) => {
            return Err(ThumbError::Decode);
        },
    };
    let square = match thumbnail(&picture) {
        Ok(square) => square,
        Err(error) => {
            return Err(error);
        },
    };
    match encode(&square, &format) {
        Ok(bytes) => Ok(Thumbnail { bytes, width: square.width(), height: square.height() }),
        Err(_) => Err(ThumbError::Encode),
    }
}

} // verus!
