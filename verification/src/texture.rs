//! Decoding of a material's texture image.

use vstd::prelude::*;

use crate::material::{spec_texture_copy_layout, texture_copy_layout, TextureCopyLayout};

verus! {

/// An error of the `image` crate, carried through as an opaque value.
#[verifier::external_type_specification]
#[verifier::external_body]
pub struct ExImageError(image::ImageError);

/// What `image` decodes from the file contents `bytes` whose name has the
/// extension `ext`, converted to 8-bit RGBA: the width, the height and the
/// texels row by row; none where decoding fails.
pub uninterp spec fn spec_decode_rgba8(bytes: Seq<u8>, ext: Seq<char>) -> Option<(u32, u32, Seq<u8>)>;

/// Decodes `bytes` with `image`, in the format that
/// `image::ImageFormat::from_extension` gives for `ext` (with no format when
/// it gives none, which `decode` answers with an error), then converts the
/// image to 8-bit RGBA with `to_rgba8`. The contract claims only that the
/// outcome is a function of the bytes and the extension: the decoders read
/// nothing else, and their limits are the fixed defaults.
#[verifier::external_body]
fn decode_rgba8(bytes: &[u8], ext: &str) -> (r: Result<(u32, u32, Vec<u8>), image::ImageError>)
    ensures
        r is Ok <==> spec_decode_rgba8(bytes@, ext@) is Some,
        r matches Ok((w, h, px)) ==> spec_decode_rgba8(bytes@, ext@) == Some((w, h, px@)),
{
    let mut reader = image::ImageReader::new(std::io::Cursor::new(bytes));
    if let Some(format) = image::ImageFormat::from_extension(ext) {
        reader.set_format(format);
    }
    let rgba = reader.decode()?.to_rgba8();
    let (width, height) = rgba.dimensions();
    Ok((width, height, rgba.into_raw()))
}

/// Why a texture image could not be turned into a texture.
pub enum TextureError {
    /// The image could not be decoded.
    Image(image::ImageError),
    /// The image is too wide or too tall for the row layout of the copy.
    TooLarge,
}

/// A decoded texture image and the layout of its copy into a texture.
pub struct DecodedTexture {
    pub layout: TextureCopyLayout,
    pub width: u32,
    pub height: u32,
    /// RGBA texels, row by row.
    pub pixels: Vec<u8>,
}

/// Decodes the contents `bytes` of a texture image file whose name has the
/// extension `ext`, and lays out its copy into a texture.
pub fn decode_texture(bytes: &[u8], ext: &str) -> (r: Result<DecodedTexture, TextureError>)
    ensures
        r matches Err(TextureError::Image(_)) <==> spec_decode_rgba8(bytes@, ext@) is None,
        r matches Err(TextureError::TooLarge) <==> (spec_decode_rgba8(bytes@, ext@) matches Some((w, h, _))
            && (4 * w > u32::MAX || 4 * h > u32::MAX)),
        r matches Ok(t) ==> {
            &&& spec_decode_rgba8(bytes@, ext@) == Some((t.width, t.height, t.pixels@))
            &&& 4 * t.width <= u32::MAX
            &&& 4 * t.height <= u32::MAX
            &&& t.layout == spec_texture_copy_layout(t.width, t.height)
            &&& t.layout.offset == 0
            &&& t.layout.bytes_per_row == 4 * t.width
            &&& t.layout.rows_per_image == 4 * t.height
        },
{
    match decode_rgba8(bytes, ext) {
        Err(e) => Err(TextureError::Image(e)),
        Ok((width, height, pixels)) => {
            if width > u32::MAX / 4 || height > u32::MAX / 4 {
                Err(TextureError::TooLarge)
            } else {
                let layout = texture_copy_layout(width, height);
                Ok(DecodedTexture { layout, width, height, pixels })
            }
        },
    }
}

} // verus!
