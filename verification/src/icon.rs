//! App branding: the logo, rendered as raw RGBA for the tray icon and the window icon.
//! The tray icon is the logo at 32×32 with a small status dot baked into the corner (blue
//! while idle, red while listening) so the tray communicates state at a glance.
//!
//! Decoding the PNG and resampling use the `image` crate; the status dot is painted
//! here.

use vstd::prelude::*;

verus! {

/// A raw RGBA image: width, height, and `width * height * 4` bytes.
#[derive(Debug, Clone)]
pub struct Rgba {
    pub width: u32,
    pub height: u32,
    pub bytes: Vec<u8>,
}

/// The bytes hold exactly one RGBA pixel per position.
pub open spec fn well_formed(img: &Rgba) -> bool {
    img.bytes@.len() == img.width * img.height * 4
}

/// What `image::load_from_memory(png)` followed by `to_rgba8` yields: width, height and
/// pixel bytes, or `None` when the bytes do not decode.
pub uninterp spec fn png_decoded(png: Seq<u8>) -> Option<(u32, u32, Seq<u8>)>;

/// Calls `image::load_from_memory` and converts the image to 8-bit RGBA. Claimed: the
/// result is `png_decoded(png)`, and a decoded image holds four bytes per pixel.
#[verifier::external_body]
fn decode_png(png: &[u8]) -> (r: Option<Rgba>)
    ensures
        match r {
            Some(img) => png_decoded(png@) == Some((img.width, img.height, img.bytes@))
                && well_formed(&img),
            None => png_decoded(png@) is None,
        },
{
    match image::load_from_memory(png) {
        Ok(d) => {
            let img = d.to_rgba8();
            let (width, height) = img.dimensions();
            Some(Rgba { width, height, bytes: img.into_raw() })
        },
        Err(_) => None,
    }
}

/// What `image::imageops::resize` with the Lanczos3 filter yields for an RGBA image
/// resized to `size` × `size`.
pub uninterp spec fn lanczos_resized(width: u32, height: u32, bytes: Seq<u8>, size: u32) -> Seq<u8>;

/// Calls `image::imageops::resize` (Lanczos3) to make a `size` × `size` image. Claimed: the
/// result is `lanczos_resized(..)` and holds four bytes per pixel of the new size. The
/// new buffer's length must fit in `usize`, or the crate panics.
#[verifier::external_body]
fn resize_square(img: &Rgba, size: u32) -> (r: Vec<u8>)
    requires
        well_formed(img),
        size * size * 4 <= usize::MAX,
    ensures
        r@ == lanczos_resized(img.width, img.height, img.bytes@, size),
        r@.len() == size * size * 4,
{
    let buf = image::RgbaImage::from_raw(img.width, img.height, img.bytes.clone()).unwrap();
    image::imageops::resize(&buf, size, size, image::imageops::FilterType::Lanczos3).into_raw()
}

/// Decodes the bundled logo (a PNG) into RGBA pixels.
pub fn decode_logo(png: &[u8]) -> (r: Option<Rgba>)
    ensures
        match r {
            Some(img) => png_decoded(png@) == Some((img.width, img.height, img.bytes@))
                && well_formed(&img),
            None => png_decoded(png@) is None,
        },
{
    decode_png(png)
}

/// The plain logo at `size` × `size`, without a status dot (the window icon).
pub fn app_icon(logo: &Rgba, size: u32) -> (r: Rgba)
    requires
        well_formed(logo),
        size * size * 4 <= usize::MAX,
    ensures
        r.width == size && r.height == size,
        r.bytes@ == lanczos_resized(logo.width, logo.height, logo.bytes@, size),
{
    let bytes = resize_square(logo, size);
    Rgba { width: size, height: size, bytes }
}

/// The tray badge size.
pub const BADGE_SIZE: u32 = 32;

/// Squared distance of pixel (`px`, `py`) from the dot's centre (24, 24).
pub open spec fn dot_dist2(px: int, py: int) -> int {
    (px - 24) * (px - 24) + (py - 24) * (py - 24)
}

/// The 32×32 badge: pixels within distance 7 of (24, 24) take the dot colour, pixels
/// within distance 8 (but not 7) are white, and all others keep the logo's colour.
pub open spec fn badge_bytes(base: Seq<u8>, color: Seq<u8>) -> Seq<u8> {
    Seq::new(
        4096,
        |i: int|
            {
                let px = (i / 4) % 32;
                let py = (i / 4) / 32;
                let d2 = dot_dist2(px, py);
                if d2 <= 49 {
                    color[i % 4]
                } else if d2 <= 64 {
                    255u8
                } else {
                    base[i]
                }
            },
    )
}

/// Paints the status dot onto 32×32 RGBA pixels: the dot colour within distance 7 of
/// (24, 24), a white ring out to distance 8, the pixels as they were elsewhere.
pub fn paint_badge(base: &Vec<u8>, dot_color: [u8; 4]) -> (r: Vec<u8>)
    requires
        base@.len() == 4096,
    ensures
        r@ == badge_bytes(base@, dot_color@),
{
    let mut out: Vec<u8> = Vec::new();
    let mut i: usize = 0;
    while i < 4096
        invariant
            i <= 4096,
            base@.len() == 4096,
            out@.len() == i,
            forall|k: int| 0 <= k < i ==> #[trigger] out@[k] == badge_bytes(base@, dot_color@)[k],
        decreases 4096 - i,
    {
        let p = i / 4;
        let px = (p % 32) as i32;
        let py = (p / 32) as i32;
        let x = px - 24;
        let y = py - 24;
        assert(-24 <= x <= 7 && -24 <= y <= 7);
        assert(0 <= x * x <= 576 && 0 <= y * y <= 576) by (nonlinear_arith)
            requires
                -24 <= x <= 7,
                -24 <= y <= 7,
        ;
        let d2 = x * x + y * y;
        let byte = if d2 <= 49 {
            dot_color[i % 4]
        } else if d2 <= 64 {
            255u8
        } else {
            base[i]
        };
        assert(d2 == dot_dist2(px as int, py as int));
        let ghost before = out@;
        out.push(byte);
        assert(forall|k: int| 0 <= k < i ==> out@[k] == before[k]);
        i = i + 1;
    }
    assert(out@ =~= badge_bytes(base@, dot_color@));
    out
}

/// Renders the logo at tray size with a filled status-colour dot in the bottom-right
/// corner, ringed in white so it reads against any background.
pub fn badge(logo: &Rgba, dot_color: [u8; 4]) -> (r: Rgba)
    requires
        well_formed(logo),
    ensures
        r.width == BADGE_SIZE && r.height == BADGE_SIZE,
        r.bytes@ == badge_bytes(lanczos_resized(logo.width, logo.height, logo.bytes@, BADGE_SIZE), dot_color@),
        well_formed(&r),
{
    let base = resize_square(logo, BADGE_SIZE);
    let bytes = paint_badge(&base, dot_color);
    Rgba { width: BADGE_SIZE, height: BADGE_SIZE, bytes }
}

/// The idle tray badge: the logo with a blue status dot.
pub fn idle(logo: &Rgba) -> (r: Rgba)
    requires
        well_formed(logo),
    ensures
        r.width == BADGE_SIZE && r.height == BADGE_SIZE,
        r.bytes@ == badge_bytes(
            lanczos_resized(logo.width, logo.height, logo.bytes@, BADGE_SIZE),
            seq![0x2fu8, 0x6f, 0xed, 0xff],
        ),
{
    let c: [u8; 4] = [0x2f, 0x6f, 0xed, 0xff];
    assert(c@ =~= seq![0x2fu8, 0x6f, 0xed, 0xff]);
    badge(logo, c)
}

/// The listening tray badge: the logo with a red status dot.
pub fn listening(logo: &Rgba) -> (r: Rgba)
    requires
        well_formed(logo),
    ensures
        r.width == BADGE_SIZE && r.height == BADGE_SIZE,
        r.bytes@ == badge_bytes(
            lanczos_resized(logo.width, logo.height, logo.bytes@, BADGE_SIZE),
            seq![0xe0u8, 0x3b, 0x3b, 0xff],
        ),
{
    let c: [u8; 4] = [0xe0, 0x3b, 0x3b, 0xff];
    assert(c@ =~= seq![0xe0u8, 0x3b, 0x3b, 0xff]);
    badge(logo, c)
}

} // verus!
