//! The one texture: how the decoded image becomes pixels of four bytes, and
//! the description under which the pixels are uploaded.

use vstd::prelude::*;
use crate::error::StartupResourceError;

verus! {

/// Bytes of one pixel: red, green, blue, alpha.
pub const BYTES_PER_PIXEL: usize = 4;

/// The longest side that a texture can have.
pub const MAX_TEXTURE_SIDE: u32 = 65535;

/// How a texture is sampled against aliasing.
#[derive(Clone, Copy, Debug, PartialEq, Eq, Structural)]
pub enum AaMode {
    /// One sample for each pixel.
    Single,
}

/// The shape of a two-dimensional texture.
#[derive(Clone, Copy, Debug, PartialEq, Eq, Structural)]
pub struct TextureKind {
    pub width: u16,
    pub height: u16,
    pub aa: AaMode,
}

/// An image with four bytes to the pixel: its sides in pixels and its pixels
/// row by row.
#[derive(Debug)]
pub struct DecodedImage {
    pub width: u32,
    pub height: u32,
    pub pixels: Vec<u8>,
}

/// What is handed to the device to make the immutable texture.
#[derive(Debug)]
pub struct TextureUpload {
    pub kind: TextureKind,
    pub pixels: Vec<u8>,
}

/// A decoded image of the `image` crate, in whatever pixel format the file
/// had.
#[verifier::external_type_specification]
#[verifier::external_body]
pub struct ExDynamicImage(image::DynamicImage);

/// What reading and decoding the image file gave.
pub enum Asset {
    /// The file is missing or cannot be read.
    Missing,
    /// The file was read and is no image that the decoder takes.
    Undecodable,
    /// The file was read and decoded.
    Decoded(image::DynamicImage),
}

/// Width and height of a decoded image, in pixels.
pub uninterp spec fn image_sides(img: image::DynamicImage) -> (u32, u32);

/// The pixels of a decoded image, row by row, converted to four bytes each:
/// red, green, blue, alpha.
pub uninterp spec fn image_rgba(img: image::DynamicImage) -> Seq<u8>;

/// Number of bytes of an image of this size with four bytes to the pixel.
pub open spec fn rgba_len(width: u32, height: u32) -> int {
    BYTES_PER_PIXEL * width * height
}

/// Both sides fit a texture.
pub open spec fn fits_texture(width: u32, height: u32) -> bool {
    width <= MAX_TEXTURE_SIDE && height <= MAX_TEXTURE_SIDE
}

impl DecodedImage {
    /// The pixel data holds four bytes for each pixel.
    pub open spec fn well_formed(&self) -> bool {
        self.pixels@.len() == rgba_len(self.width, self.height)
    }
}

/// The shape of the single-sampled texture of an image with these sides.
pub open spec fn kind_of(width: u32, height: u32) -> TextureKind {
    TextureKind { width: width as u16, height: height as u16, aa: AaMode::Single }
}

/// What becomes of an image with four bytes to the pixel: the texture's shape
/// and its pixel bytes, or the reason why it cannot be uploaded. The sides
/// are looked at first, then the amount of pixel data.
pub open spec fn upload_result(width: u32, height: u32, pixels: Seq<u8>) -> Result<
    (TextureKind, Seq<u8>),
    StartupResourceError,
> {
    if !fits_texture(width, height) {
        Err(StartupResourceError::TextureTooLarge)
    } else if pixels.len() != rgba_len(width, height) {
        Err(StartupResourceError::PixelDataMismatch)
    } else {
        Ok((kind_of(width, height), pixels))
    }
}

/// What becomes of a decoded image with these sides and these converted
/// pixels: a texture of the same sides with those pixels. An image with a
/// side that no texture can have, or whose pixels at four bytes each are more
/// than the machine can address, is too large.
pub open spec fn image_result(sides: (u32, u32), rgba: Seq<u8>) -> Result<
    (TextureKind, Seq<u8>),
    StartupResourceError,
> {
    if !fits_texture(sides.0, sides.1) || rgba_len(sides.0, sides.1) > usize::MAX {
        Err(StartupResourceError::TextureTooLarge)
    } else {
        Ok((kind_of(sides.0, sides.1), rgba))
    }
}

/// What becomes of the outcome of reading and decoding the file: a missing
/// file is a missing asset, a file that is no image an undecodable asset, and
/// a decoded image goes on to [`image_result`].
pub open spec fn asset_result(asset: Asset) -> Result<
    (TextureKind, Seq<u8>),
    StartupResourceError,
> {
    match asset {
        Asset::Missing => Err(StartupResourceError::AssetMissing),
        Asset::Undecodable => Err(StartupResourceError::AssetUndecodable),
        Asset::Decoded(img) => image_result(image_sides(img), image_rgba(img)),
    }
}

/// An upload, or its refusal, with the pixel bytes as a sequence.
pub open spec fn upload_view(r: Result<TextureUpload, StartupResourceError>) -> Result<
    (TextureKind, Seq<u8>),
    StartupResourceError,
> {
    match r {
        Ok(upload) => Ok((upload.kind, upload.pixels@)),
        Err(e) => Err(e),
    }
}

/// Calls `image::GenericImageView::dimensions` on the image. Believed, not
/// proved: what comes back is the image's width and height, the same at
/// every call.
#[verifier::external_body]
fn read_sides(img: &image::DynamicImage) -> (r: (u32, u32))
    ensures
        r == image_sides(*img),
{
    image::GenericImageView::dimensions(img)
}

/// Calls `image::DynamicImage::to_rgba8` on the image and takes the byte
/// buffer out of the result with `into_raw`. Believed, not proved: the bytes
/// depend on the image alone, and there are four for each pixel of the
/// image's width and height. The conversion allocates that many bytes and
/// gives up where their number is more than the machine can address, so
/// such an image is not handed to it.
#[verifier::external_body]
fn convert_rgba(img: &image::DynamicImage) -> (r: Vec<u8>)
    requires
        rgba_len(image_sides(*img).0, image_sides(*img).1) <= usize::MAX,
    ensures
        r@ == image_rgba(*img),
        r@.len() == rgba_len(image_sides(*img).0, image_sides(*img).1),
{
    img.to_rgba8().into_raw()
}

/// The shape of a single-sampled texture with the sides of the image, or the
/// reason why there is none: a texture's side has sixteen bits.
pub fn texture_kind(width: u32, height: u32) -> (r: Result<TextureKind, StartupResourceError>)
    ensures
        r.is_ok() == fits_texture(width, height),
        r matches Ok(kind) ==> kind.width == width && kind.height == height && kind.aa
            == AaMode::Single,
        r matches Err(e) ==> e == StartupResourceError::TextureTooLarge,
{
    if width > MAX_TEXTURE_SIDE || height > MAX_TEXTURE_SIDE {
        return Err(StartupResourceError::TextureTooLarge);
    }
    Ok(TextureKind { width: width as u16, height: height as u16, aa: AaMode::Single })
}

/// Describes the texture for a decoded image. The texture has the image's
/// width and height and the image's pixel bytes; an image with a side that
/// no texture can have, or with pixel data of the wrong size, is refused.
pub fn texture_upload(image: DecodedImage) -> (r: Result<TextureUpload, StartupResourceError>)
    ensures
        upload_view(r) == upload_result(image.width, image.height, image.pixels@),
        r matches Ok(upload) ==> upload.kind.width == image.width && upload.kind.height
            == image.height,
{
    let kind = match texture_kind(image.width, image.height) {
        Ok(kind) => kind,
        Err(e) => { return Err(e); },
    };
    let width: u64 = image.width as u64;
    let height: u64 = image.height as u64;
    assert(width * height <= 65535 * 65535) by (nonlinear_arith)
        requires
            0 <= width <= 65535,
            0 <= height <= 65535,
    ;
    let expected: u64 = 4 * (width * height);
    assert(expected == rgba_len(image.width, image.height)) by (nonlinear_arith)
        requires
            expected == 4 * (width * height),
            width == image.width,
            height == image.height,
            rgba_len(image.width, image.height) == 4 * image.width * image.height,
    ;
    if image.pixels.len() as u64 != expected {
        return Err(StartupResourceError::PixelDataMismatch);
    }
    Ok(TextureUpload { kind, pixels: image.pixels })
}

/// Describes the texture for a decoded image: converts the image to four
/// bytes per pixel and gives the texture the image's width and height. An
/// image that is too large is refused before anything is converted.
pub fn texture_from_image(img: &image::DynamicImage) -> (r: Result<
    TextureUpload,
    StartupResourceError,
>)
    ensures
        upload_view(r) == image_result(image_sides(*img), image_rgba(*img)),
        r matches Ok(upload) ==> upload.kind.width == image_sides(*img).0 && upload.kind.height
            == image_sides(*img).1 && upload.pixels@.len() == rgba_len(
            image_sides(*img).0,
            image_sides(*img).1,
        ),
{
    let (width, height) = read_sides(img);
    if width > MAX_TEXTURE_SIDE || height > MAX_TEXTURE_SIDE {
        return Err(StartupResourceError::TextureTooLarge);
    }
    let w: u64 = width as u64;
    let h: u64 = height as u64;
    assert(w * h <= 65535 * 65535) by (nonlinear_arith)
        requires
            0 <= w <= 65535,
            0 <= h <= 65535,
    ;
    let needed: u64 = 4 * (w * h);
    assert(needed == rgba_len(width, height)) by (nonlinear_arith)
        requires
            needed == 4 * (w * h),
            w == width,
            h == height,
            rgba_len(width, height) == 4 * width * height,
    ;
    if needed > usize::MAX as u64 {
        return Err(StartupResourceError::TextureTooLarge);
    }
    let pixels = convert_rgba(img);
    texture_upload(DecodedImage { width, height, pixels })
}

/// Makes the texture's description from the outcome of reading and decoding
/// the image file. Success comes exactly where the file was read and
/// decoded and the image is not too large; a missing file is a missing
/// asset, and a file that is no image is an undecodable asset.
pub fn texture_from_asset(asset: Asset) -> (r: Result<TextureUpload, StartupResourceError>)
    ensures
        upload_view(r) == asset_result(asset),
{
    match asset {
        Asset::Missing => Err(StartupResourceError::AssetMissing),
        Asset::Undecodable => Err(StartupResourceError::AssetUndecodable),
        Asset::Decoded(img) => texture_from_image(&img),
    }
}

} // verus!
