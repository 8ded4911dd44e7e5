//! The default window icon, decoded from the PNG the host ships with.

use vstd::prelude::*;
use crate::text::joined;

verus! {

/// The pixels `image` decodes a PNG to, as RGBA bytes with the width and the
/// height; `None` when the bytes are not a PNG it can decode.
pub uninterp spec fn png_rgba(png: Seq<u8>) -> Option<(Seq<u8>, u32, u32)>;

/// The text of the error `image` reports for bytes it cannot decode as PNG.
pub uninterp spec fn png_error_text(png: Seq<u8>) -> Seq<char>;

/// `image::load_from_memory_with_format(png, ImageFormat::Png)`, converted to
/// RGBA with eight bits per channel (`into_rgba8`), then taken apart into its
/// raw bytes and dimensions; on failure the error's `Display` text.
///
/// The contract names the decoded pixels and the error text (both depend on
/// the bytes alone) and claims one documented fact: an RGBA8 buffer holds
/// four bytes per pixel. Nothing is claimed about which PNGs decode.
#[verifier::external_body]
fn decode_png_rgba(png: &[u8]) -> (r: Result<(Vec<u8>, u32, u32), String>)
    ensures
        r is Ok <==> png_rgba(png@) is Some,
        r matches Ok((px, w, h)) ==> png_rgba(png@) == Some((px@, w, h)) && px@.len() == 4 * (w as int) * (h as int),
        r matches Err(e) ==> e@ == png_error_text(png@),
{
    match image::load_from_memory_with_format(png, image::ImageFormat::Png) {
        Ok(img) => {
            let rgba = img.into_rgba8();
            let (w, h) = rgba.dimensions();
            Ok((rgba.into_raw(), w, h))
        },
        Err(error) => Err(error.to_string()),
    }
}

/// A decoded window icon: RGBA bytes, four per pixel, row by row.
#[derive(Debug, PartialEq, Eq)]
pub struct DecodedIcon {
    pub rgba: Vec<u8>,
    pub width: u32,
    pub height: u32,
}

/// Decodes the default window icon from its PNG bytes; the error names the
/// asset and gives the decoder's message.
pub fn decode_window_icon(png: &[u8]) -> (r: Result<DecodedIcon, String>)
    ensures
        png_rgba(png@) is None ==> (r matches Err(e) && e@ == "无法解码默认窗口图标 assets/my_wry.png："@ + png_error_text(png@)),
        png_rgba(png@) matches Some((px, w, h)) ==> (r matches Ok(icon) && icon.rgba@ == px && icon.width == w && icon.height == h),
        r matches Ok(icon) ==> icon.rgba@.len() == 4 * (icon.width as int) * (icon.height as int),
{
    match decode_png_rgba(png) {
        Ok((rgba, width, height)) => Ok(DecodedIcon { rgba, width, height }),
        Err(e) => Err(joined("无法解码默认窗口图标 assets/my_wry.png：", e.as_str())),
    }
}

} // verus!
