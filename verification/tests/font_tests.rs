use churrera_studio::font::{clamp_font_char, clear_glyph, font_from_rgb, import_font_png, invert_glyph, set_font_pixel, FontImportError};
use std::io::Cursor;

fn png_bytes(w: u32, h: u32, lit: &[(u32, u32)]) -> Vec<u8> {
    let mut img = image::RgbImage::new(w, h);
    for &(x, y) in lit {
        img.put_pixel(x, y, image::Rgb([200, 10, 10]));
    }
    let mut out = Cursor::new(Vec::new());
    img.write_to(&mut out, image::ImageFormat::Png).unwrap();
    out.into_inner()
}

#[test]
fn char_index_is_clamped() {
    assert_eq!(clamp_font_char(63), 63);
    assert_eq!(clamp_font_char(64), 0);
    assert_eq!(clamp_font_char(1000), 0);
}

#[test]
fn paint_and_erase_pixels() {
    let mut f = vec![0u8; 512];
    set_font_pixel(&mut f, 2, 0, 3, true);
    assert_eq!(f[2 * 8 + 3], 0x80);
    set_font_pixel(&mut f, 2, 7, 3, true);
    assert_eq!(f[2 * 8 + 3], 0x81);
    set_font_pixel(&mut f, 2, 0, 3, false);
    assert_eq!(f[2 * 8 + 3], 0x01);
    set_font_pixel(&mut f, 2, 8, 3, true);
    set_font_pixel(&mut f, 2, 0, 8, true);
    assert_eq!(f.iter().filter(|&&b| b != 0).count(), 1);
    let mut short = vec![0u8; 4];
    set_font_pixel(&mut short, 1, 0, 0, true);
    assert_eq!(short, vec![0u8; 4]);
}

#[test]
fn clear_and_invert_glyph() {
    let mut f: Vec<u8> = (0..24).map(|i| i as u8).collect();
    invert_glyph(&mut f, 1);
    assert_eq!(&f[8..16], &[!8u8, !9, !10, !11, !12, !13, !14, !15]);
    assert_eq!(&f[0..8], &[0u8, 1, 2, 3, 4, 5, 6, 7]);
    invert_glyph(&mut f, 1);
    assert_eq!(f, (0..24).map(|i| i as u8).collect::<Vec<u8>>());
    clear_glyph(&mut f, 2);
    assert_eq!(&f[16..24], &[0u8; 8]);
    let mut short = vec![5u8; 10];
    clear_glyph(&mut short, 1);
    assert_eq!(short, vec![5u8, 5, 5, 5, 5, 5, 5, 5, 0, 0]);
}

#[test]
fn font_from_rgb_reads_cells() {
    let mut rgb = vec![0u8; 256 * 16 * 3];
    // character 33 sits in the second row (y 8..16), column 1 (x 8..16)
    let (px, py) = (8 + 2, 8 + 5);
    rgb[(py * 256 + px) * 3 + 2] = 31;
    let f = font_from_rgb(256, 16, &rgb).unwrap();
    assert_eq!(f.len(), 512);
    assert_eq!(f[33 * 8 + 5], 0b0010_0000);
    assert_eq!(f.iter().filter(|&&b| b != 0).count(), 1);
    rgb[(py * 256 + px) * 3 + 2] = 30;
    assert!(font_from_rgb(256, 16, &rgb).unwrap().iter().all(|&b| b == 0));
    assert_eq!(font_from_rgb(128, 16, &rgb), Err(FontImportError::WrongSize));
}

#[test]
fn import_png_font() {
    let bytes = png_bytes(256, 16, &[(0, 0), (7, 0), (255, 15)]);
    let f = import_font_png(&bytes).unwrap();
    assert_eq!(f.len(), 512);
    assert_eq!(f[0], 0x81);
    assert_eq!(f[63 * 8 + 7], 0x01);
    assert_eq!(f.iter().filter(|&&b| b != 0).count(), 2);
}

#[test]
fn import_rejects_other_sizes_and_garbage() {
    let bytes = png_bytes(256, 8, &[]);
    assert_eq!(import_font_png(&bytes), Err(FontImportError::WrongSize));
    assert_eq!(import_font_png(&[1, 2, 3, 4]), Err(FontImportError::Unreadable));
    assert_eq!(import_font_png(&[]), Err(FontImportError::Unreadable));
}
