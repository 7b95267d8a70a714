//! From a decoded image to what is uploaded as the quad's texture: its
//! extent in texels and its pixels as RGBA bytes.

use vstd::prelude::*;
use image::{DynamicImage, ImageError};

verus! {

/// A decoded image of the `image` crate. Verus sees nothing inside it.
#[verifier::external_type_specification]
#[verifier::external_body]
pub struct ExDynamicImage(image::DynamicImage);

/// The error of the `image` crate. Verus sees nothing inside it.
#[verifier::external_type_specification]
#[verifier::external_body]
pub struct ExImageError(image::ImageError);

/// Width and height of an image in pixels, as the `image` crate reports them.
pub uninterp spec fn image_dimensions(img: DynamicImage) -> (u32, u32);

/// The pixels of an image as the `image` crate converts them to 8-bit RGBA:
/// four bytes a pixel, row after row.
pub uninterp spec fn image_rgba(img: DynamicImage) -> Seq<u8>;

/// The number of bytes that `width` by `height` pixels take as 8-bit RGBA.
pub open spec fn rgba_len(width: int, height: int) -> int {
    4 * (width * height)
}

/// Whether an image of this size can become a texture: each side fits the
/// 16 bits that a texture's extent has, and its RGBA bytes fit a buffer.
pub open spec fn fits_texture(width: u32, height: u32) -> bool {
    &&& width <= u16::MAX
    &&& height <= u16::MAX
    &&& rgba_len(width as int, height as int) <= isize::MAX
}

/// An image ready for upload as an immutable 2D texture.
#[derive(Clone, Debug, PartialEq, Eq)]
pub struct Texture {
    /// Width in texels.
    pub width: u16,
    /// Height in texels.
    pub height: u16,
    /// The texels as RGBA bytes, row after row.
    pub pixels: Vec<u8>,
}

/// Why no texture came of an image.
#[derive(Debug)]
pub enum TextureError {
    /// The image could not be opened or decoded.
    Decode(ImageError),
    /// The image is larger than a texture can be.
    TooLarge,
}

/// Calls `GenericImageView::dimensions` on the image, which hands out the
/// width and height stored in its buffer.
#[verifier::external_body]
fn dimensions(img: &DynamicImage) -> (size: (u32, u32))
    ensures
        size == image_dimensions(*img),
{
    image::GenericImageView::dimensions(img)
}

/// Calls `DynamicImage::to_rgba`, which allocates a buffer of four bytes a
/// pixel, the image's width times its height of them, and converts every
/// pixel into it; `ImageBuffer::into_raw` then hands out that buffer's
/// bytes. The call panics where the byte count cannot be computed or
/// allocated, hence the `requires`.
#[verifier::external_body]
#[allow(deprecated)]
fn rgba_bytes(img: &DynamicImage) -> (bytes: Vec<u8>)
    requires
        fits_texture(image_dimensions(*img).0, image_dimensions(*img).1),
    ensures
        bytes@ == image_rgba(*img),
        bytes@.len() == rgba_len(image_dimensions(*img).0 as int, image_dimensions(*img).1 as int),
{
    img.to_rgba().into_raw()
}

/// The extent of the texture for an image of `width` by `height` pixels:
/// the image's own size, where a texture can have it.
pub fn texture_extent(width: u32, height: u32) -> (extent: Option<(u16, u16)>)
    ensures
        match extent {
            Some((w, h)) => fits_texture(width, height) && w == width && h == height,
            None => !fits_texture(width, height),
        },
{
    if width > 0xffff || height > 0xffff {
        return None;
    }
    assert(width * height <= 0xffff * 0xffff) by (nonlinear_arith)
        requires
            width <= 0xffff,
            height <= 0xffff,
    ;
    let bytes: u64 = 4 * (width as u64 * height as u64);
    if bytes > isize::MAX as u64 {
        return None;
    }
    Some((width as u16, height as u16))
}

impl Texture {
    /// The buffer holds exactly the texels of the extent.
    pub open spec fn wf(self) -> bool {
        self.pixels@.len() == rgba_len(self.width as int, self.height as int)
    }

    /// Whether this texture is `img` in full: same size, and the image's
    /// RGBA bytes.
    pub open spec fn shows(self, img: DynamicImage) -> bool {
        &&& self.width == image_dimensions(img).0
        &&& self.height == image_dimensions(img).1
        &&& self.pixels@ == image_rgba(img)
    }

    /// Converts a decoded image to a texture of the image's own size.
    /// Fails with `TooLarge`, and converts nothing, where the image does not
    /// fit a texture.
    pub fn from_image(img: &DynamicImage) -> (outcome: Result<Texture, TextureError>)
        ensures
            fits_texture(image_dimensions(*img).0, image_dimensions(*img).1) ==> (outcome matches Ok(
                texture,
            ) && texture.shows(*img) && texture.wf()),
            !fits_texture(image_dimensions(*img).0, image_dimensions(*img).1)
                ==> outcome matches Err(TextureError::TooLarge),
    {
        let (width, height) = dimensions(img);
        match texture_extent(width, height) {
            Some((w, h)) => {
                let pixels = rgba_bytes(img);
                Ok(Texture { width: w, height: h, pixels })
            },
            None => Err(TextureError::TooLarge),
        }
    }

    /// Takes what opening an image file gave. A failure to open or decode is
    /// passed on as `Decode` and no texture is made; an image goes through
    /// [`Texture::from_image`].
    pub fn from_opened(opened: Result<DynamicImage, ImageError>) -> (outcome: Result<
        Texture,
        TextureError,
    >)
        ensures
            opened matches Err(error) ==> outcome matches Err(TextureError::Decode(passed))
                && passed == error,
            opened matches Ok(img) ==> {
                let (width, height) = image_dimensions(img);
                &&& fits_texture(width, height) ==> (outcome matches Ok(texture) && texture.shows(img)
                    && texture.wf())
                &&& !fits_texture(width, height) ==> outcome matches Err(TextureError::TooLarge)
            },
    {
        match opened {
            Ok(img) => Texture::from_image(&img),
            Err(error) => Err(TextureError::Decode(error)),
        }
    }
}

} // verus!
