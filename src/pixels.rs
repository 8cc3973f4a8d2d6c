use vstd::prelude::*;
use crate::error::EarsError;
use crate::region::AlfalfaEraseEntryData;

verus! {

/// An RGBA image with eight bits per channel, rows top to bottom, four bytes per pixel.
#[derive(Clone, Debug)]
pub struct PixelBuffer {
    width: u32,
    height: u32,
    data: Vec<u8>,
}

impl View for PixelBuffer {
    type V = Seq<u8>;

    closed spec fn view(&self) -> Seq<u8> {
        self.data@
    }
}

impl PixelBuffer {
    pub closed spec fn spec_width(&self) -> u32 {
        self.width
    }

    pub closed spec fn spec_height(&self) -> u32 {
        self.height
    }

    /// The bytes are exactly four per pixel.
    pub open spec fn wf(&self) -> bool {
        self@.len() == 4 * (self.spec_width() * self.spec_height())
    }

    /// A buffer over `data`, or `None` when `data` is not four bytes per pixel.
    pub fn new(width: u32, height: u32, data: Vec<u8>) -> (r: Option<Self>)
        ensures
            r is Some <==> data@.len() == 4 * (width * height),
            r matches Some(p) ==> p.wf() && p.spec_width() == width && p.spec_height() == height && p@ == data@,
    {
        assert(width as int * height as int <= u64::MAX) by (nonlinear_arith)
            requires width <= u32::MAX, height <= u32::MAX;
        let area: u64 = width as u64 * height as u64;
        if area <= (usize::MAX / 4) as u64 && data.len() == 4 * (area as usize) {
            Some(PixelBuffer { width, height, data })
        } else {
            proof {
                assert(data@.len() == data.len());
                if data@.len() == 4 * (width * height) {
                    assert(area <= usize::MAX / 4);
                }
            }
            None
        }
    }

    pub fn width(&self) -> (r: u32)
        ensures
            r == self.spec_width(),
    {
        self.width
    }

    pub fn height(&self) -> (r: u32)
        ensures
            r == self.spec_height(),
    {
        self.height
    }

    pub fn data(&self) -> (r: &Vec<u8>)
        ensures
            r@ == self@,
    {
        &self.data
    }

    pub fn into_raw(self) -> (r: (u32, u32, Vec<u8>))
        ensures
            r.0 == self.spec_width(),
            r.1 == self.spec_height(),
            r.2@ == self@,
    {
        (self.width, self.height, self.data)
    }
}

/// An opaque color.
#[derive(Clone, Copy, PartialEq, Eq, Structural, Debug)]
pub struct Rgb {
    pub r: u8,
    pub g: u8,
    pub b: u8,
}

/// `0xFFRRGGBB`: the color as a packed word with a fully opaque alpha byte.
pub open spec fn hex_of(c: Rgb) -> u32 {
    (0xFF00_0000 + c.r * 0x1_0000 + c.g * 0x100 + c.b) as u32
}

/// The color held by the low three bytes of a packed word.
pub open spec fn rgb_of(hex: u32) -> Rgb {
    Rgb { r: ((hex / 0x1_0000) % 0x100) as u8, g: ((hex / 0x100) % 0x100) as u8, b: (hex % 0x100) as u8 }
}

pub fn rgb_to_hex(c: Rgb) -> (r: u32)
    ensures
        r == hex_of(c),
{
    0xFF00_0000u32 + (c.r as u32) * 0x1_0000 + (c.g as u32) * 0x100 + (c.b as u32)
}

pub fn hex_to_rgb(hex: u32) -> (r: Rgb)
    ensures
        r == rgb_of(hex),
{
    assert(((hex >> 16u32) & 0xFFu32) == (hex / 0x1_0000) % 0x100) by (bit_vector);
    assert(((hex >> 8u32) & 0xFFu32) == (hex / 0x100) % 0x100) by (bit_vector);
    assert((hex & 0xFFu32) == hex % 0x100) by (bit_vector);
    Rgb { r: ((hex >> 16u32) & 0xFF) as u8, g: ((hex >> 8u32) & 0xFF) as u8, b: (hex & 0xFF) as u8 }
}

/// Unpacking a packed color gives back the color.
pub proof fn lemma_hex_round_trip(c: Rgb)
    ensures
        rgb_of(hex_of(c)) == c,
{
    let h = hex_of(c) as int;
    assert(h == 0xFF * 0x1_0000 * 0x100 + c.r * 0x1_0000 + c.g * 0x100 + c.b);
    assert(h / 0x1_0000 == 0xFF * 0x100 + c.r) by (nonlinear_arith)
        requires h == 0xFF * 0x1_0000 * 0x100 + c.r * 0x1_0000 + c.g * 0x100 + c.b, 0 <= c.g < 256, 0 <= c.b < 256;
    assert(h / 0x100 == 0xFF * 0x1_0000 + c.r * 0x100 + c.g) by (nonlinear_arith)
        requires h == 0xFF * 0x1_0000 * 0x100 + c.r * 0x1_0000 + c.g * 0x100 + c.b, 0 <= c.b < 256;
}

/// Whether the pixel that starts at byte `4 * p` of `s` has one of the palette's colors.
pub open spec fn pixel_in_palette(s: Seq<u8>, p: int, palette: Seq<Rgb>) -> bool {
    exists|k: int| 0 <= k < palette.len() && #[trigger] palette[k] == Rgb { r: s[4 * p], g: s[4 * p + 1], b: s[4 * p + 2] }
}

/// The emissive overlay of `s`: pixels of a palette color are copied, all others are fully transparent.
pub open spec fn emissive_overlay(s: Seq<u8>, palette: Seq<Rgb>) -> Seq<u8> {
    Seq::new(s.len(), |j: int| if pixel_in_palette(s, j / 4, palette) { s[j] } else { 0u8 })
}

fn in_palette(c: Rgb, palette: &Vec<Rgb>) -> (r: bool)
    ensures
        r <==> exists|k: int| 0 <= k < palette@.len() && #[trigger] palette@[k] == c,
{
    let mut k: usize = 0;
    while k < palette.len()
        invariant
            k <= palette@.len(),
            forall|m: int| 0 <= m < k ==> palette@[m] != c,
        decreases palette@.len() - k,
    {
        if palette[k] == c {
            return true;
        }
        k = k + 1;
    }
    false
}

proof fn lemma_pixel_byte(p: int, c: int)
    requires
        0 <= c < 4,
    ensures
        (4 * p + c) / 4 == p,
{
}

/// The overlay of the pixels of `buf` whose color is in `palette`. An empty
/// palette has nothing to mark and is refused.
pub fn apply_emissive_palette(buf: &PixelBuffer, palette: &Vec<Rgb>) -> (r: Result<PixelBuffer, EarsError>)
    requires
        buf.wf(),
    ensures
        palette@.len() == 0 <==> r is Err,
        r is Err ==> r == Err::<PixelBuffer, _>(EarsError::EncodeError),
        r matches Ok(out) ==> out.wf() && out.spec_width() == buf.spec_width() && out.spec_height() == buf.spec_height()
            && out@ == emissive_overlay(buf@, palette@),
{
    if palette.len() == 0 {
        return Err(EarsError::EncodeError);
    }
    let src = &buf.data;
    let n: usize = src.len() / 4;
    let mut out: Vec<u8> = Vec::new();
    let mut p: usize = 0;
    while p < n
        invariant
            p <= n,
            n == src@.len() / 4,
            src@.len() % 4 == 0,
            src@.len() == src.len(),
            src@ == buf@,
            out@.len() == 4 * p,
            forall|j: int| 0 <= j < 4 * p ==> out@[j] == emissive_overlay(src@, palette@)[j],
        decreases n - p,
    {
        let base: usize = 4 * p;
        let c = Rgb { r: src[base], g: src[base + 1], b: src[base + 2] };
        let hit = in_palette(c, palette);
        proof {
            lemma_pixel_byte(p as int, 0);
            lemma_pixel_byte(p as int, 1);
            lemma_pixel_byte(p as int, 2);
            lemma_pixel_byte(p as int, 3);
            assert(hit == pixel_in_palette(src@, p as int, palette@));
        }
        if hit {
            out.push(src[base]);
            out.push(src[base + 1]);
            out.push(src[base + 2]);
            out.push(src[base + 3]);
        } else {
            out.push(0);
            out.push(0);
            out.push(0);
            out.push(0);
        }
        p = p + 1;
    }
    assert(out@ =~= emissive_overlay(buf@, palette@));
    Ok(PixelBuffer { width: buf.width, height: buf.height, data: out })
}


/// Whether rectangle `r` covers the pixel at column `x`, row `y`.
pub open spec fn region_covers(r: AlfalfaEraseEntryData, x: int, y: int) -> bool {
    r.x <= x < r.x + r.width && r.y <= y < r.y + r.height
}

/// Whether any of the rectangles covers the pixel at column `x`, row `y`.
pub open spec fn is_erased(rs: Seq<AlfalfaEraseEntryData>, x: int, y: int) -> bool {
    exists|k: int| 0 <= k < rs.len() && #[trigger] region_covers(rs[k], x, y)
}

/// The pixels of an image `width` pixels wide with every covered pixel made fully transparent.
pub open spec fn erased_pixels(s: Seq<u8>, width: int, rs: Seq<AlfalfaEraseEntryData>) -> Seq<u8> {
    Seq::new(s.len(), |j: int| if is_erased(rs, (j / 4) % width, (j / 4) / width) { 0u8 } else { s[j] })
}

fn covered(rs: &Vec<AlfalfaEraseEntryData>, x: u32, y: u32) -> (r: bool)
    ensures
        r == is_erased(rs@, x as int, y as int),
{
    let mut k: usize = 0;
    while k < rs.len()
        invariant
            k <= rs@.len(),
            forall|m: int| 0 <= m < k ==> !region_covers(#[trigger] rs@[m], x as int, y as int),
        decreases rs@.len() - k,
    {
        let r = rs[k];
        if r.x as u32 <= x && x < r.x as u32 + r.width as u32 && r.y as u32 <= y && y < r.y as u32 + r.height as u32 {
            assert(region_covers(rs@[k as int], x as int, y as int));
            return true;
        }
        k = k + 1;
    }
    false
}

/// Makes every pixel that one of the rectangles covers fully transparent.
/// Rectangles reaching past the image edge are clipped to it.
pub fn apply_erase_regions(buf: &PixelBuffer, rs: &Vec<AlfalfaEraseEntryData>) -> (r: PixelBuffer)
    requires
        buf.wf(),
    ensures
        r.wf(),
        r.spec_width() == buf.spec_width(),
        r.spec_height() == buf.spec_height(),
        r@ == erased_pixels(buf@, buf.spec_width() as int, rs@),
{
    let src = &buf.data;
    let w = buf.width;
    let n: usize = src.len() / 4;
    let mut out: Vec<u8> = Vec::new();
    let mut p: usize = 0;
    let mut x: u32 = 0;
    let mut y: u32 = 0;
    let ghost h = buf.spec_height() as int;
    assert(n == w * h);
    assert(n > 0 ==> w > 0) by (nonlinear_arith)
        requires n == w * h, w >= 0, h >= 0;
    while p < n
        invariant
            p <= n,
            n == w * h,
            h == buf.spec_height(),
            n == src@.len() / 4,
            src@.len() == 4 * (w * buf.spec_height()),
            src@.len() == src.len(),
            src@ == buf@,
            w == buf.spec_width(),
            p == y * w + x,
            p < n ==> x < w,
            out@.len() == 4 * p,
            forall|j: int| 0 <= j < 4 * p ==> out@[j] == erased_pixels(src@, w as int, rs@)[j],
        decreases n - p,
    {
        let base: usize = 4 * p;
        assert(y < h) by (nonlinear_arith)
            requires p == y * w + x, p < n, n == w * h, x >= 0, w >= 0;
        assert((y + 1) * w == y * w + w) by (nonlinear_arith);
        let hit = covered(rs, x, y);
        proof {
            vstd::arithmetic::div_mod::lemma_fundamental_div_mod_converse(p as int, w as int, y as int, x as int);
            lemma_pixel_byte(p as int, 0);
            lemma_pixel_byte(p as int, 1);
            lemma_pixel_byte(p as int, 2);
            lemma_pixel_byte(p as int, 3);
        }
        if hit {
            out.push(0);
            out.push(0);
            out.push(0);
            out.push(0);
        } else {
            out.push(src[base]);
            out.push(src[base + 1]);
            out.push(src[base + 2]);
            out.push(src[base + 3]);
        }
        p = p + 1;
        if x + 1 == w {
            x = 0;
            y = y + 1;
        } else {
            x = x + 1;
        }
    }
    assert(out@ =~= erased_pixels(buf@, w as int, rs@));
    PixelBuffer { width: buf.width, height: buf.height, data: out }
}

} // verus!
