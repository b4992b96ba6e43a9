//! The window icon, decoded from the picture file that the program embeds.

use vstd::prelude::*;

verus! {

/// Name for what `image::load_from_memory` followed by `to_rgba8` gives
/// for the bytes of a picture file: its pixels as RGBA bytes, row by row,
/// with its width and height; `None` when the bytes are not a picture that
/// the crate can decode.
pub uninterp spec fn decoded_rgba(bytes: Seq<u8>) -> Option<(Seq<u8>, u32, u32)>;

/// Calls `image::load_from_memory`, then `to_rgba8`, `dimensions` and
/// `into_raw` on the decoded picture. Claims that the result is determined by
/// the bytes, through `decoded_rgba`, and that the pixel bytes are four per
/// pixel (`to_rgba8` fills a buffer that `ImageBuffer::new` allocates with
/// 4 * width * height bytes).
#[verifier::external_body]
fn decode_rgba(bytes: &[u8]) -> (r: Option<(Vec<u8>, u32, u32)>)
    ensures
        r matches Some(x) ==> decoded_rgba(bytes@) == Some((x.0@, x.1, x.2)),
        r matches Some(x) ==> x.0@.len() == 4 * x.1 * x.2,
        r is None ==> decoded_rgba(bytes@) is None,
{
    match image::load_from_memory(bytes) {
        Ok(picture) => {
            let rgba = picture.to_rgba8();
            let (width, height) = rgba.dimensions();
            Some((rgba.into_raw(), width, height))
        },
        Err(_) => None,
    }
}

/// A window icon: RGBA bytes row by row, and its size in pixels.
pub struct IconImage {
    pub rgba: Vec<u8>,
    pub width: u32,
    pub height: u32,
}

/// The icon that decoding gave, or the empty icon when decoding failed.
pub open spec fn icon_of(decoded: Option<(Seq<u8>, u32, u32)>) -> (Seq<u8>, u32, u32) {
    match decoded {
        Some(x) => x,
        None => (Seq::empty(), 0, 0),
    }
}

/// The icon made of decoded pixels, or the empty icon.
pub fn icon_from(decoded: Option<(Vec<u8>, u32, u32)>) -> (r: IconImage)
    ensures
        (r.rgba@, r.width, r.height) == icon_of(
            match decoded {
                Some(x) => Some((x.0@, x.1, x.2)),
                None => None,
            },
        ),
        (decoded matches Some(x) ==> x.0@.len() == 4 * x.1 * x.2) ==> r.rgba@.len() == 4 * r.width * r.height,
{
    match decoded {
        Some((rgba, width, height)) => IconImage { rgba, width, height },
        None => IconImage { rgba: Vec::new(), width: 0, height: 0 },
    }
}

/// The window icon of the picture file `bytes`: its pixels when it
/// decodes, else the empty icon.
pub fn get_embedded_window_icon(bytes: &[u8]) -> (r: IconImage)
    ensures
        (r.rgba@, r.width, r.height) == icon_of(decoded_rgba(bytes@)),
        r.rgba@.len() == 4 * r.width * r.height,
{
    let decoded = decode_rgba(bytes);
    icon_from(decoded)
}

} // verus!
