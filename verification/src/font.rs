//! The project font: 8x8 characters, one byte per pixel row with the
//! leftmost pixel in the high bit. The engine's canonical font holds 64
//! characters (ASCII 32..=95), imported from a 256x16 `font.png`.

use vstd::prelude::*;

verus! {

/// Characters in the engine's canonical font.
pub const FONT_CHARS: usize = 64;

/// The mask of pixel column `x` (0..8) in a row byte.
pub open spec fn pixel_mask(x: int) -> u8 {
    (1u8 << (7 - x) as u8)
}

/// Whether pixel `(x, y)` of character `c` is lit in font `f`; pixels past
/// the end of the font read as unlit.
pub open spec fn font_pixel(f: Seq<u8>, c: int, x: int, y: int) -> bool {
    0 <= c * 8 + y < f.len() && f[c * 8 + y] & pixel_mask(x) != 0
}

/// The selected character, brought back to the first one when it lies past
/// the 64 characters of the font.
pub fn clamp_font_char(idx: usize) -> (r: usize)
    ensures
        r == if idx >= 64 { 0 } else { idx },
{
    if idx >= FONT_CHARS { 0 } else { idx }
}

/// The font after pixel `(x, y)` of character `c` is painted (`on`) or
/// erased. A pixel outside the 8x8 cell or past the end of the font
/// changes nothing.
pub open spec fn with_pixel(f: Seq<u8>, c: int, x: int, y: int, on: bool) -> Seq<u8> {
    let i = c * 8 + y;
    if 0 <= x < 8 && 0 <= y < 8 && i < f.len() {
        f.update(i, if on { f[i] | pixel_mask(x) } else { f[i] & !pixel_mask(x) })
    } else {
        f
    }
}

/// Paints (left button) or erases (right button) one pixel of a character.
pub fn set_font_pixel(font: &mut Vec<u8>, char_idx: usize, cell_x: usize, cell_y: usize, on: bool)
    requires
        char_idx < 64,
    ensures
        final(font)@ == with_pixel(old(font)@, char_idx as int, cell_x as int, cell_y as int, on),
{
    if cell_x < 8 && cell_y < 8 {
        let i = char_idx * 8 + cell_y;
        if i < font.len() {
            let mask: u8 = 1u8 << ((7 - cell_x) as u8);
            let b = font[i];
            if on {
                font.set(i, b | mask);
            } else {
                font.set(i, b & !mask);
            }
        }
    }
}

/// The rows of character `c` that exist in the font, transformed by `g`;
/// everything else unchanged.
pub open spec fn map_glyph(f: Seq<u8>, c: int, g: spec_fn(u8) -> u8) -> Seq<u8> {
    Seq::new(f.len(), |i: int| if c * 8 <= i < c * 8 + 8 { g(f[i]) } else { f[i] })
}

/// Clears every row of a character.
pub fn clear_glyph(font: &mut Vec<u8>, char_idx: usize)
    requires
        char_idx < 64,
    ensures
        final(font)@ == map_glyph(old(font)@, char_idx as int, |b: u8| 0u8),
{
    let off = char_idx * 8;
    let mut y: usize = 0;
    while y < 8
        invariant
            off == char_idx * 8,
            char_idx < 64,
            y <= 8,
            font@.len() == old(font)@.len(),
            forall|i: int|
                0 <= i < font@.len() ==> font@[i] == (if off <= i < off + y { 0u8 } else { old(font)@[i] }),
        decreases 8 - y,
    {
        if off + y < font.len() {
            font.set(off + y, 0);
        }
        y += 1;
    }
    assert(font@ =~= map_glyph(old(font)@, char_idx as int, |b: u8| 0u8));
}

/// Inverts every pixel of a character.
pub fn invert_glyph(font: &mut Vec<u8>, char_idx: usize)
    requires
        char_idx < 64,
    ensures
        final(font)@ == map_glyph(old(font)@, char_idx as int, |b: u8| !b),
{
    let off = char_idx * 8;
    let mut y: usize = 0;
    while y < 8
        invariant
            off == char_idx * 8,
            char_idx < 64,
            y <= 8,
            font@.len() == old(font)@.len(),
            forall|i: int|
                0 <= i < font@.len() ==> font@[i] == (if off <= i < off + y { !old(font)@[i] } else { old(font)@[i] }),
        decreases 8 - y,
    {
        if off + y < font.len() {
            let b = font[off + y];
            font.set(off + y, !b);
        }
        y += 1;
    }
    assert(font@ =~= map_glyph(old(font)@, char_idx as int, |b: u8| !b));
}

/// Painting a pixel and reading it back gives the painted state; the other
/// pixels of the font keep theirs.
pub proof fn lemma_pixel_read_back(f: Seq<u8>, c: int, x: int, y: int, on: bool, x2: int, y2: int)
    requires
        0 <= c < 64,
        0 <= x < 8,
        0 <= y < 8,
        0 <= x2 < 8,
        0 <= y2 < 8,
        c * 8 + y < f.len(),
        x2 != x || y2 != y,
    ensures
        font_pixel(with_pixel(f, c, x, y, on), c, x, y) == on,
        font_pixel(with_pixel(f, c, x, y, on), c, x2, y2) == font_pixel(f, c, x2, y2),
{
    let b = f[c * 8 + y];
    let s1 = (7 - x) as u8;
    let s2 = (7 - x2) as u8;
    assert(pixel_mask(x) == 1u8 << s1);
    assert(pixel_mask(x2) == 1u8 << s2);
    assert((b | (1u8 << s1)) & (1u8 << s1) != 0) by (bit_vector)
        requires
            s1 < 8;
    assert((b & !(1u8 << s1)) & (1u8 << s1) == 0) by (bit_vector)
        requires
            s1 < 8;
    assert(s2 != s1 ==> ((b | (1u8 << s1)) & (1u8 << s2) != 0) == (b & (1u8 << s2) != 0)) by (bit_vector)
        requires
            s1 < 8,
            s2 < 8;
    assert(s2 != s1 ==> ((b & !(1u8 << s1)) & (1u8 << s2) != 0) == (b & (1u8 << s2) != 0)) by (bit_vector)
        requires
            s1 < 8,
            s2 < 8;
}

/// Inverting a character twice restores it; clearing leaves all its
/// pixels unlit.
pub proof fn lemma_invert_twice_and_clear(f: Seq<u8>, c: int, x: int, y: int)
    requires
        0 <= x < 8,
        0 <= y < 8,
    ensures
        map_glyph(map_glyph(f, c, |b: u8| !b), c, |b: u8| !b) == f,
        !font_pixel(map_glyph(f, c, |b: u8| 0u8), c, x, y),
{
    let g = map_glyph(map_glyph(f, c, |b: u8| !b), c, |b: u8| !b);
    assert forall|i: int| 0 <= i < f.len() implies g[i] == f[i] by {
        let b = f[i];
        assert(!(!b) == b) by (bit_vector);
    }
    assert(g =~= f);
    let s1 = (7 - x) as u8;
    assert(pixel_mask(x) == 1u8 << s1);
    assert(0u8 & (1u8 << s1) == 0) by (bit_vector);
}


/// Why a `font.png` could not be imported.
#[derive(Clone, Copy, Debug, PartialEq, Eq, Structural)]
pub enum FontImportError {
    /// The bytes are not an image the decoder can read.
    Unreadable,
    /// The image is not 256x16 pixels.
    WrongSize,
}

/// Whether pixel `(px, py)` of a 256-pixel-wide RGB image is lit: any
/// channel brighter than 30 counts as ink.
pub open spec fn pixel_lit(rgb: Seq<u8>, px: int, py: int) -> bool {
    let i = (py * 256 + px) * 3;
    rgb[i] > 30 || rgb[i + 1] > 30 || rgb[i + 2] > 30
}

/// Row `y` of character `c` holds exactly the lit pixels of the image,
/// where the 64 characters sit in two rows of 32 cells of 8x8 pixels.
pub open spec fn row_matches_image(b: u8, rgb: Seq<u8>, c: int, y: int) -> bool {
    forall|x: int|
        0 <= x < 8 ==> ((b & #[trigger] pixel_mask(x) != 0) == pixel_lit(rgb, (c % 32) * 8 + x, (c / 32) * 8 + y))
}

/// `f` is the 512-byte font drawn in the 256x16 RGB image `rgb`.
pub open spec fn font_matches_image(f: Seq<u8>, rgb: Seq<u8>) -> bool {
    &&& f.len() == 512
    &&& forall|c: int, y: int|
        0 <= c < 64 && 0 <= y < 8 ==> #[trigger] row_matches_image(f[c * 8 + y], rgb, c, y)
}

proof fn lemma_or_bit(row: u8, s: u8, t: u8)
    requires
        s < 8,
        t < 8,
    ensures
        (row | (1u8 << s)) & (1u8 << s) != 0,
        s != t ==> (((row | (1u8 << s)) & (1u8 << t) != 0) == (row & (1u8 << t) != 0)),
        0u8 & (1u8 << t) == 0,
{
    assert((row | (1u8 << s)) & (1u8 << s) != 0) by (bit_vector)
        requires
            s < 8;
    assert(s != t ==> (((row | (1u8 << s)) & (1u8 << t) != 0) == (row & (1u8 << t) != 0))) by (bit_vector)
        requires
            s < 8,
            t < 8;
    assert(0u8 & (1u8 << t) == 0) by (bit_vector);
}

/// Converts a decoded RGB image (row-major, 3 bytes per pixel) into the
/// 64-character font, if it has the canonical size of 256x16 pixels.
pub fn font_from_rgb(width: u32, height: u32, rgb: &[u8]) -> (r: Result<Vec<u8>, FontImportError>)
    requires
        width == 256 && height == 16 ==> rgb@.len() >= 256 * 16 * 3,
    ensures
        (width == 256 && height == 16) <==> r is Ok,
        r matches Ok(f) ==> font_matches_image(f@, rgb@),
        r matches Err(e) ==> e == FontImportError::WrongSize,
{
    if !(width == 256 && height == 16) {
        return Err(FontImportError::WrongSize);
    }
    let mut font: Vec<u8> = Vec::new();
    let mut c: usize = 0;
    while c < 64
        invariant
            c <= 64,
            rgb@.len() >= 256 * 16 * 3,
            font@.len() == c * 8,
            forall|c2: int, y2: int|
                0 <= c2 < c && 0 <= y2 < 8 ==> #[trigger] row_matches_image(font@[c2 * 8 + y2], rgb@, c2, y2),
        decreases 64 - c,
    {
        let gx = c % 32;
        let gy = c / 32;
        let mut y: usize = 0;
        while y < 8
            invariant
                c < 64,
                gx == c % 32,
                gy == c / 32,
                y <= 8,
                rgb@.len() >= 256 * 16 * 3,
                font@.len() == c * 8 + y,
                forall|c2: int, y2: int|
                    0 <= c2 < 64 && 0 <= y2 < 8 && c2 * 8 + y2 < c * 8 + y ==> #[trigger] row_matches_image(
                        font@[c2 * 8 + y2],
                        rgb@,
                        c2,
                        y2,
                    ),
            decreases 8 - y,
        {
            let mut row: u8 = 0;
            let mut x: usize = 0;
            proof {
                assert forall|k: int| 0 <= k < 8 implies row & #[trigger] pixel_mask(k) == 0 by {
                    let t = (7 - k) as u8;
                    assert(pixel_mask(k) == 1u8 << t);
                    lemma_or_bit(row, 0, t);
                }
            }
            while x < 8
                invariant
                    c < 64,
                    gx == c % 32,
                    gy == c / 32,
                    y < 8,
                    x <= 8,
                    rgb@.len() >= 256 * 16 * 3,
                    forall|k: int|
                        0 <= k < x ==> ((row & #[trigger] pixel_mask(k) != 0) == pixel_lit(
                            rgb@,
                            (c % 32) * 8 + k,
                            (c / 32) * 8 + y,
                        )),
                    forall|k: int| x <= k < 8 ==> row & #[trigger] pixel_mask(k) == 0,
                decreases 8 - x,
            {
                let px = gx * 8 + x;
                let py = gy * 8 + y;
                let i = (py * 256 + px) * 3;
                let lit = rgb[i] > 30 || rgb[i + 1] > 30 || rgb[i + 2] > 30;
                let ghost old_row = row;
                let s = (7 - x) as u8;
                if lit {
                    row = row | (1u8 << s);
                }
                proof {
                    assert(pixel_mask(x as int) == 1u8 << s);
                    assert forall|k: int| 0 <= k < x + 1 implies ((row & #[trigger] pixel_mask(k) != 0)
                        == pixel_lit(rgb@, (c % 32) * 8 + k, (c / 32) * 8 + y)) by {
                        let t = (7 - k) as u8;
                        assert(pixel_mask(k) == 1u8 << t);
                        lemma_or_bit(old_row, s, t);
                        if k < x {
                            assert((old_row & pixel_mask(k) != 0) == pixel_lit(rgb@, (c % 32) * 8 + k, (c / 32) * 8 + y));
                        }
                    }
                    assert forall|k: int| x + 1 <= k < 8 implies row & #[trigger] pixel_mask(k) == 0 by {
                        let t = (7 - k) as u8;
                        assert(pixel_mask(k) == 1u8 << t);
                        lemma_or_bit(old_row, s, t);
                        assert(old_row & pixel_mask(k) == 0);
                        if lit {
                            assert(((old_row | (1u8 << s)) & (1u8 << t) != 0) == (old_row & (1u8 << t) != 0));
                        }
                    }
                }
                x += 1;
            }
            font.push(row);
            proof {
                assert(row_matches_image(row, rgb@, c as int, y as int));
                assert forall|c2: int, y2: int|
                    0 <= c2 < 64 && 0 <= y2 < 8 && c2 * 8 + y2 < c * 8 + y + 1 implies #[trigger] row_matches_image(
                    font@[c2 * 8 + y2],
                    rgb@,
                    c2,
                    y2,
                ) by {
                    if c2 * 8 + y2 == c * 8 + y {
                        assert(c2 == c && y2 == y);
                    }
                }
            }
            y += 1;
        }
        c += 1;
    }
    Ok(font)
}


/// The error type of the `image` crate, carried from the decoder to
/// `import_font_png`.
#[verifier::external_type_specification]
#[verifier::external_body]
pub struct ExImageError(image::ImageError);

/// What the `image` crate decodes a byte string to, as 8-bit RGB: width,
/// height and the row-major pixel bytes, or nothing when it cannot decode
/// the bytes.
pub uninterp spec fn decoded_rgb8(bytes: Seq<u8>) -> Option<(u32, u32, Seq<u8>)>;

/// Decodes an image with `image::load_from_memory` and converts it with
/// `DynamicImage::to_rgb8`. Trusted: the result is the one named by
/// `decoded_rgb8` for these bytes, and the pixel buffer holds at least
/// 3 bytes per pixel (an `ImageBuffer` is never built on a smaller buffer).
#[verifier::external_body]
fn decode_rgb8(bytes: &[u8]) -> (r: Result<(u32, u32, Vec<u8>), image::ImageError>)
    ensures
        match r {
            Ok((w, h, px)) => decoded_rgb8(bytes@) == Some((w, h, px@)) && px@.len() >= w * h * 3,
            Err(_) => decoded_rgb8(bytes@) is None,
        },
{
    match image::load_from_memory(bytes) {
        Ok(img) => {
            let rgb = img.to_rgb8();
            let (w, h) = rgb.dimensions();
            Ok((w, h, rgb.into_raw()))
        },
        Err(e) => Err(e),
    }
}

/// Imports the font from the bytes of a `font.png`: the image must decode
/// and be 256x16 pixels; its 64 character cells become the font.
pub fn import_font_png(bytes: &[u8]) -> (r: Result<Vec<u8>, FontImportError>)
    ensures
        match decoded_rgb8(bytes@) {
            None => r == Err::<Vec<u8>, FontImportError>(FontImportError::Unreadable),
            Some((w, h, px)) => {
                &&& (w == 256 && h == 16) <==> r is Ok
                &&& r matches Ok(f) ==> font_matches_image(f@, px)
                &&& !(w == 256 && h == 16) ==> r == Err::<Vec<u8>, FontImportError>(FontImportError::WrongSize)
            },
        },
{
    match decode_rgb8(bytes) {
        Ok((w, h, px)) => font_from_rgb(w, h, px.as_slice()),
        Err(_) => Err(FontImportError::Unreadable),
    }
}

} // verus!
