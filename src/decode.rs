//! Decoding texture files with the `image` crate.
use vstd::prelude::*;
use image::ColorType as Ct;
use crate::texture::{spec_texel_size, texture_fits, texture_image, ColorKind, Image};

verus! {

/// Whether `image::load_from_memory` decodes these bytes.
pub uninterp spec fn decodes(bytes: Seq<u8>) -> bool;

/// The width in texels of the image these bytes decode to.
pub uninterp spec fn decoded_width(bytes: Seq<u8>) -> u32;

/// The height in texels of the image these bytes decode to.
pub uninterp spec fn decoded_height(bytes: Seq<u8>) -> u32;

/// The texel layout of the image these bytes decode to.
pub uninterp spec fn decoded_color(bytes: Seq<u8>) -> ColorKind;

/// The texel bytes of the image these bytes decode to, for the 8-bit
/// layouts (wider samples come out in the machine's own byte order and are
/// not covered by this name).
pub uninterp spec fn decoded_texels(bytes: Seq<u8>) -> Seq<u8>;

/// Layouts whose samples are single bytes.
pub open spec fn is_eight_bit(c: ColorKind) -> bool {
    c == ColorKind::L8 || c == ColorKind::La8 || c == ColorKind::Rgb8 || c == ColorKind::Rgba8
}

/// Bytes per texel in the buffer the decoder hands out for each layout.
pub open spec fn decoded_texel_bytes(c: ColorKind) -> int {
    match c {
        ColorKind::L8 => 1,
        ColorKind::La8 => 2,
        ColorKind::Rgb8 => 3,
        ColorKind::Rgba8 => 4,
        ColorKind::L16 => 2,
        ColorKind::La16 => 4,
        ColorKind::Rgb16 => 6,
        ColorKind::Rgba16 => 8,
        ColorKind::Rgb32F => 12,
        ColorKind::Rgba32F => 16,
        ColorKind::Unknown => 0,
    }
}

/// Relies on image::load_from_memory: it guesses the format from the leading
/// bytes and decodes with fixed default limits, so whether it succeeds, the
/// size and the layout depend on the bytes alone, as do the texel bytes of the
/// 8-bit layouts. The decoded image is handed out as its width, height, texel
/// layout (told apart variant by variant) and texel bytes. On success the
/// buffer holds exactly width x height texels (`decoder_to_image` builds it
/// from `total_bytes`), the PNG decoder accepts no zero dimension, and
/// `DynamicImage::color` names one of the ten known layouts.
#[verifier::external_body]
fn load_image(bytes: &[u8]) -> (r: Option<(u32, u32, ColorKind, Vec<u8>)>)
    ensures
        r is Some <==> decodes(bytes@),
        r matches Some((w, h, c, t)) ==> {
            &&& w == decoded_width(bytes@)
            &&& h == decoded_height(bytes@)
            &&& c == decoded_color(bytes@)
            &&& is_eight_bit(c) ==> t@ == decoded_texels(bytes@)
            &&& c != ColorKind::Unknown
            &&& w >= 1 && h >= 1
            &&& t@.len() == w * h * decoded_texel_bytes(c)
        },
{
    let img = match image::load_from_memory(bytes) { Ok(img) => img, Err(_) => return None };
    let color = match img.color() {
        Ct::L8 => ColorKind::L8, Ct::La8 => ColorKind::La8,
        Ct::Rgb8 => ColorKind::Rgb8, Ct::Rgba8 => ColorKind::Rgba8,
        Ct::L16 => ColorKind::L16, Ct::La16 => ColorKind::La16,
        Ct::Rgb16 => ColorKind::Rgb16, Ct::Rgba16 => ColorKind::Rgba16,
        Ct::Rgb32F => ColorKind::Rgb32F, Ct::Rgba32F => ColorKind::Rgba32F,
        _ => ColorKind::Unknown,
    };
    Some((img.width(), img.height(), color, img.into_bytes()))
}

/// Why a texture file could not be turned into an `Image`.
#[derive(Clone, Copy, Debug, PartialEq, Eq, Structural)]
pub enum TextureError {
    /// The decoder did not recognise or could not decode the bytes.
    Decode,
    /// The texture's pitches do not fit in 32 bits.
    TooLarge,
}

/// Decodes the contents of an image file and lays it out for upload.
pub fn decode_texture(bytes: &[u8]) -> (r: Result<Image, TextureError>)
    ensures
        r == Err::<Image, TextureError>(TextureError::Decode) <==> !decodes(bytes@),
        r is Ok <==> decodes(bytes@) && texture_fits(
            decoded_width(bytes@) as int,
            decoded_height(bytes@) as int,
            decoded_color(bytes@),
        ),
        r matches Ok(img) ==> {
            &&& img.width == decoded_width(bytes@)
            &&& img.height == decoded_height(bytes@)
            &&& img.row_pitch == spec_texel_size(decoded_color(bytes@)) * decoded_width(bytes@)
            &&& is_eight_bit(decoded_color(bytes@)) ==> img.raw_pointer@ == decoded_texels(bytes@)
            &&& img.raw_pointer@.len() == decoded_width(bytes@) * decoded_height(bytes@)
                * decoded_texel_bytes(decoded_color(bytes@))
            &&& img.is_texture_layout()
        },
{
    match load_image(bytes) {
        None => Err(TextureError::Decode),
        Some((width, height, color, texels)) => {
            match texture_image(width, height, color, texels) {
                Some(t) => Ok(t),
                None => Err(TextureError::TooLarge),
            }
        },
    }
}

} // verus!
