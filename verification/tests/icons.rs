use std::io::Cursor;

use voiceforge::icon::{app_icon, badge, decode_logo, idle, listening, paint_badge, Rgba, BADGE_SIZE};

fn png(width: u32, height: u32, rgba: [u8; 4]) -> Vec<u8> {
    let img = image::RgbaImage::from_pixel(width, height, image::Rgba(rgba));
    let mut out = Cursor::new(Vec::new());
    img.write_to(&mut out, image::ImageFormat::Png).unwrap();
    out.into_inner()
}

fn pixel(img: &Rgba, x: u32, y: u32) -> [u8; 4] {
    let i = ((y * img.width + x) * 4) as usize;
    [img.bytes[i], img.bytes[i + 1], img.bytes[i + 2], img.bytes[i + 3]]
}

fn solid_logo() -> Rgba {
    decode_logo(&png(4, 4, [10, 200, 30, 255])).unwrap()
}

#[test]
fn decodes_a_png_logo() {
    let logo = solid_logo();
    assert_eq!((logo.width, logo.height), (4, 4));
    assert_eq!(logo.bytes.len(), 64);
    assert_eq!(pixel(&logo, 3, 2), [10, 200, 30, 255]);
}

#[test]
fn rejects_bytes_that_are_not_an_image() {
    assert!(decode_logo(b"definitely not a png").is_none());
    assert!(decode_logo(&[]).is_none());
}

#[test]
fn window_icon_is_resized() {
    let logo = solid_logo();
    let icon = app_icon(&logo, 8);
    assert_eq!((icon.width, icon.height), (8, 8));
    assert_eq!(icon.bytes.len(), 8 * 8 * 4);
    let resized = image::imageops::resize(
        &image::RgbaImage::from_raw(4, 4, logo.bytes.clone()).unwrap(),
        8,
        8,
        image::imageops::FilterType::Lanczos3,
    );
    assert_eq!(icon.bytes, resized.into_raw());
}

#[test]
fn badges_carry_a_status_dot() {
    let logo = solid_logo();
    let base = app_icon(&logo, BADGE_SIZE);
    let i = idle(&logo);
    assert_eq!((i.width, i.height), (32, 32));
    assert_eq!(i.bytes.len(), 4096);
    // The dot's centre and a point at distance 7.
    assert_eq!(pixel(&i, 24, 24), [0x2f, 0x6f, 0xed, 0xff]);
    assert_eq!(pixel(&i, 31, 24), [0x2f, 0x6f, 0xed, 0xff]);
    // The white ring at distance 8.
    assert_eq!(pixel(&i, 24, 16), [255, 255, 255, 255]);
    // Outside the ring the logo shows.
    assert_eq!(pixel(&i, 0, 0), pixel(&base, 0, 0));
    assert_eq!(pixel(&i, 15, 24), pixel(&base, 15, 24));

    let l = listening(&logo);
    assert_eq!(pixel(&l, 24, 24), [0xe0, 0x3b, 0x3b, 0xff]);
    assert_eq!(pixel(&l, 28, 28), [0xe0, 0x3b, 0x3b, 0xff]);
    assert_eq!(pixel(&l, 2, 30), pixel(&base, 2, 30));

    let custom = badge(&logo, [1, 2, 3, 4]);
    assert_eq!(pixel(&custom, 20, 20), [1, 2, 3, 4]);
}

#[test]
fn paint_badge_exact_pixels() {
    let base: Vec<u8> = (0..4096u32).map(|i| (i % 7) as u8).collect();
    let out = paint_badge(&base, [9, 8, 7, 6]);
    assert_eq!(out.len(), 4096);
    let at = |x: usize, y: usize| -> [u8; 4] {
        let i = (y * 32 + x) * 4;
        [out[i], out[i + 1], out[i + 2], out[i + 3]]
    };
    let base_at = |x: usize, y: usize| -> [u8; 4] {
        let i = (y * 32 + x) * 4;
        [base[i], base[i + 1], base[i + 2], base[i + 3]]
    };
    for y in 0..32usize {
        for x in 0..32usize {
            let d2 = (x as i32 - 24).pow(2) + (y as i32 - 24).pow(2);
            let expected = if d2 <= 49 {
                [9, 8, 7, 6]
            } else if d2 <= 64 {
                [255, 255, 255, 255]
            } else {
                base_at(x, y)
            };
            assert_eq!(at(x, y), expected, "pixel ({x}, {y})");
        }
    }
}
