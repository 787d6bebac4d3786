//! Images decoded into RGBA bitmaps, ready to be handed to a renderer.

use vstd::prelude::*;

verus! {

/// What the `image` crate decodes `bytes` to, as width, height and RGBA
/// bytes in rows, or `None` where the bytes are not an image it can decode.
pub uninterp spec fn decoded_rgba_of(bytes: Seq<u8>) -> Option<(u32, u32, Seq<u8>)>;

/// `image::ImageError`, carried opaque from the decoder until it is dropped:
/// an image that does not decode is simply not shown.
#[verifier::external_type_specification]
#[verifier::external_body]
pub struct ExImageError(image::ImageError);

/// Relies on `image::load_from_memory`, which guesses the format and decodes,
/// then on `DynamicImage::width`, `DynamicImage::height` and
/// `DynamicImage::to_rgba8` to hand the bitmap out as RGBA bytes, which
/// allocates exactly four bytes per pixel; decoding depends on the bytes
/// alone.
#[verifier::external_body]
fn decode_rgba(bytes: &[u8]) -> (r: Result<(u32, u32, Vec<u8>), image::ImageError>)
    ensures
        match r {
            Ok((w, h, px)) => {
                &&& decoded_rgba_of(bytes@) == Some((w, h, px@))
                &&& px@.len() == 4 * (w as nat) * (h as nat)
            },
            Err(_) => decoded_rgba_of(bytes@) is None,
        },
{
    match image::load_from_memory(bytes) {
        Ok(img) => Ok((img.width(), img.height(), img.to_rgba8().into_vec())),
        Err(e) => Err(e),
    }
}

/// A bitmap of `width` by `height` pixels, four bytes (red, green, blue,
/// alpha) per pixel, row after row.
#[derive(Clone, Debug)]
pub struct DecodedImage {
    pub width: u32,
    pub height: u32,
    pub rgba: Vec<u8>,
}

impl View for DecodedImage {
    type V = (u32, u32, Seq<u8>);

    open spec fn view(&self) -> (u32, u32, Seq<u8>) {
        (self.width, self.height, self.rgba@)
    }
}

/// A bitmap whose byte count is four per pixel.
pub open spec fn bitmap_is_complete(b: (u32, u32, Seq<u8>)) -> bool {
    b.2.len() == 4 * (b.0 as nat) * (b.1 as nat)
}

/// The bitmap that `bytes` decode to, where they decode to a complete one.
pub open spec fn image_from_bytes(bytes: Seq<u8>) -> Option<(u32, u32, Seq<u8>)> {
    match decoded_rgba_of(bytes) {
        Some(b) => if bitmap_is_complete(b) {
            Some(b)
        } else {
            None
        },
        None => None,
    }
}

/// The bitmaps that an optional image holds, as values.
pub open spec fn image_view(o: Option<DecodedImage>) -> Option<(u32, u32, Seq<u8>)> {
    match o {
        Some(img) => Some(img@),
        None => None,
    }
}

impl DecodedImage {
    pub open spec fn wf(&self) -> bool {
        bitmap_is_complete(self@)
    }

    /// Takes a bitmap handed out by a decoder, where it holds four bytes
    /// per pixel.
    pub fn from_rgba(width: u32, height: u32, rgba: Vec<u8>) -> (r: Option<DecodedImage>)
        ensures
            image_view(r) == (if bitmap_is_complete((width, height, rgba@)) {
                Some((width, height, rgba@))
            } else {
                None
            }),
            r matches Some(img) ==> img.wf(),
    {
        proof {
            assert((width as nat) * (height as nat) <= 0xffff_ffff * 0xffff_ffff) by (nonlinear_arith)
                requires
                    width <= 0xffff_ffff,
                    height <= 0xffff_ffff,
            ;
            assert(4 * (width as nat) * (height as nat) == 4 * ((width as nat) * (height as nat)))
                by (nonlinear_arith);
        }
        let pixels: u128 = width as u128 * height as u128;
        if rgba.len() as u128 == 4 * pixels {
            Some(DecodedImage { width, height, rgba })
        } else {
            None
        }
    }

    /// Decodes the bytes of an image file. Bytes that are no image, or that
    /// do not give four bytes per pixel, give `None`.
    pub fn from_bytes(bytes: &[u8]) -> (r: Option<DecodedImage>)
        ensures
            image_view(r) == image_from_bytes(bytes@),
            r is Some <==> decoded_rgba_of(bytes@) is Some,
            r matches Some(img) ==> img.wf(),
    {
        match decode_rgba(bytes) {
            Ok((width, height, rgba)) => DecodedImage::from_rgba(width, height, rgba),
            Err(_) => None,
        }
    }
}

} // verus!
