//! Cursor sprite loading: decoding a PNG byte stream through the image
//! library and promoting 24-bit images to fully opaque RGBA.

use vstd::prelude::*;
use vstd::arithmetic::div_mod::{
    lemma_fundamental_div_mod, lemma_fundamental_div_mod_converse_div,
    lemma_fundamental_div_mod_converse_mod,
};
use crate::compose::CursorSprite;
use crate::types::ExportError;

verus! {

/// What the image library decodes a PNG byte stream to: the pixel size,
/// whether the pixels carry an alpha channel, and the raw bytes; nothing
/// when the decode fails or the colour type is neither RGB nor RGBA. The
/// outcome is a function of the byte stream alone.
pub uninterp spec fn png_decode_of(bytes: Seq<u8>) -> Option<(u32, u32, bool, Seq<u8>)>;

/// Relies on png::Decoder, png::Reader::output_buffer_size and
/// png::Reader::next_frame: decode a PNG byte stream into raw pixel
/// data, reporting the frame size and whether the colour type is RGBA
/// (true) or RGB (false). Any failure of the library, and any other
/// colour type, is an error; success and failure alike are decided by
/// the bytes alone.
#[verifier::external_body]
fn decode_png_raw(bytes: &[u8]) -> (r: Result<(u32, u32, bool, Vec<u8>), String>)
    ensures
        r matches Ok(t) ==> png_decode_of(bytes@) == Some((t.0, t.1, t.2, t.3@)),
        r is Err ==> png_decode_of(bytes@) is None,
{
    let decoder = png::Decoder::new(std::io::Cursor::new(bytes));
    let mut reader = decoder.read_info().map_err(|e| e.to_string())?;
    let size = reader.output_buffer_size().ok_or_else(|| String::from("image too large"))?;
    let mut buf = vec![0u8; size];
    let info = reader.next_frame(&mut buf).map_err(|e| e.to_string())?;
    buf.truncate(info.buffer_size());
    match info.color_type {
        png::ColorType::Rgba => Ok((info.width, info.height, true, buf)),
        png::ColorType::Rgb => Ok((info.width, info.height, false, buf)),
        _ => Err(String::from("unsupported colour type")),
    }
}

/// A decoded cursor image: RGBA pixels and the size.
#[derive(Clone, Debug)]
pub struct CursorImage {
    /// RGBA bytes, four per pixel.
    pub data: Vec<u8>,
    /// Image width in pixels.
    pub width: u32,
    /// Image height in pixels.
    pub height: u32,
}

impl CursorImage {
    /// The image invariant: the buffer matches the size, and the size is
    /// small enough for exact index arithmetic.
    pub open spec fn well_formed(self) -> bool {
        &&& self.width <= 0x4000
        &&& self.height <= 0x4000
        &&& self.data@.len() == self.width * self.height * 4
    }

    /// The image as a sprite with the given hotspot.
    pub fn into_sprite(self, hotspot_x: i64, hotspot_y: i64) -> (r: CursorSprite)
        requires
            self.well_formed(),
            -0x10000000 <= hotspot_x <= 0x10000000,
            -0x10000000 <= hotspot_y <= 0x10000000,
        ensures
            r.well_formed(),
            r.width == self.width,
            r.height == self.height,
            r.hotspot_x == hotspot_x,
            r.hotspot_y == hotspot_y,
            r.data == self.data,
    {
        CursorSprite {
            width: self.width,
            height: self.height,
            hotspot_x,
            hotspot_y,
            data: self.data,
        }
    }
}

/// RGB bytes expanded to RGBA with every pixel fully opaque.
pub open spec fn spec_promote_rgb(rgb: Seq<u8>) -> Seq<u8> {
    Seq::new(
        rgb.len() / 3 * 4,
        |k: int|
            if k % 4 == 3 {
                255u8
            } else {
                rgb[k / 4 * 3 + k % 4]
            },
    )
}

/// Expand RGB pixel data to RGBA, adding a fully opaque alpha channel.
pub fn promote_rgb(rgb: &Vec<u8>) -> (r: Vec<u8>)
    requires
        rgb@.len() % 3 == 0,
    ensures
        r@ == spec_promote_rgb(rgb@),
{
    let n_pixels = rgb.len() / 3;
    let mut out: Vec<u8> = Vec::new();
    let mut i: usize = 0;
    proof {
        lemma_fundamental_div_mod(rgb@.len() as int, 3);
        assert(3 * (n_pixels as int) == rgb@.len());
    }
    while i < n_pixels
        invariant
            n_pixels == rgb@.len() as int / 3,
            3 * (n_pixels as int) == rgb@.len(),
            rgb@.len() <= usize::MAX,
            i <= n_pixels,
            out@.len() == 4 * i,
            forall|k: int|
                0 <= k < out@.len() ==> out@[k] == (if k % 4 == 3 {
                    255u8
                } else {
                    rgb@[k / 4 * 3 + k % 4]
                }),
        decreases n_pixels - i,
    {
        let ghost before = out@;
        out.push(rgb[3 * i]);
        out.push(rgb[3 * i + 1]);
        out.push(rgb[3 * i + 2]);
        out.push(255);
        proof {
            assert forall|k: int| 0 <= k < out@.len() implies out@[k] == (if k % 4 == 3 {
                255u8
            } else {
                rgb@[k / 4 * 3 + k % 4]
            }) by {
                if k >= before.len() {
                    let ch = k - 4 * i;
                    lemma_fundamental_div_mod_converse_div(k, 4, i as int, ch);
                    lemma_fundamental_div_mod_converse_mod(k, 4, i as int, ch);
                }
            }
        }
        i = i + 1;
    }
    proof {
        assert(out@ =~= spec_promote_rgb(rgb@));
    }
    out
}

/// Decode a PNG byte stream to a cursor image: RGBA pixels are taken as
/// they are, RGB pixels are promoted to fully opaque RGBA, and anything
/// else — a decode failure, a buffer that does not match the reported
/// size, or an image too large for exact index arithmetic — is a
/// decoding error. Success is owed whenever the decode succeeds with
/// consistent dimensions within the size cap.
pub fn load_cursor_image(bytes: &[u8]) -> (r: Result<CursorImage, ExportError>)
    ensures
        r matches Ok(img) ==> {
            &&& img.well_formed()
            &&& png_decode_of(bytes@) matches Some(t)
            &&& img.width == t.0
            &&& img.height == t.1
            &&& t.2 ==> img.data@ == t.3
            &&& !t.2 ==> img.data@ == spec_promote_rgb(t.3)
        },
        (png_decode_of(bytes@) matches Some(t) && t.0 <= 0x4000 && t.1 <= 0x4000 && (t.2
            ==> t.3.len() == t.0 * t.1 * 4) && (!t.2 ==> t.3.len() == t.0 * t.1 * 3)) ==> r is Ok,
        r matches Err(e) ==> e is Decoding,
{
    let (width, height, has_alpha, buf) = match decode_png_raw(bytes) {
        Ok(t) => t,
        Err(m) => {
            return Err(ExportError::Decoding(m));
        },
    };
    if width > 0x4000 || height > 0x4000 {
        return Err(ExportError::Decoding("image too large".to_owned()));
    }
    proof {
        assert((width as int) * (height as int) * 4 <= 0x4000 * 0x4000 * 4) by (nonlinear_arith)
            requires
                0 <= width as int <= 0x4000,
                0 <= height as int <= 0x4000,
        ;
    }
    let pixels: usize = (width as usize) * (height as usize);
    if has_alpha {
        if buf.len() != pixels * 4 {
            return Err(ExportError::Decoding("pixel data size mismatch".to_owned()));
        }
        Ok(CursorImage { data: buf, width, height })
    } else {
        if buf.len() != pixels * 3 {
            return Err(ExportError::Decoding("pixel data size mismatch".to_owned()));
        }
        proof {
            assert((pixels * 3) as int % 3 == 0 && (pixels * 3) as int / 3 == pixels) by {
                lemma_fundamental_div_mod_converse_div((pixels * 3) as int, 3, pixels as int, 0);
                lemma_fundamental_div_mod_converse_mod((pixels * 3) as int, 3, pixels as int, 0);
            }
        }
        let data = promote_rgb(&buf);
        Ok(CursorImage { data, width, height })
    }
}

} // verus!
