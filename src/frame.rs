use vstd::prelude::*;

verus! {

/// The red, green and blue bytes of pixel `i` in a packed RGB buffer.
pub open spec fn rgb_at(rgb: Seq<u8>, i: int) -> (u8, u8, u8) {
    (rgb[3 * i], rgb[3 * i + 1], rgb[3 * i + 2])
}

/// The red, green and blue bytes of pixel `i` in a packed BGRA buffer.
pub open spec fn rgb_of_bgra(bgra: Seq<u8>, i: int) -> (u8, u8, u8) {
    (bgra[4 * i + 2], bgra[4 * i + 1], bgra[4 * i])
}

/// Grey level of the placeholder pattern at column `x`, row `y`.
pub open spec fn placeholder_level(x: u32, y: u32) -> u8 {
    (((x ^ y) & 0x3F) + 16) as u8
}

/// Pixel `i` of the placeholder pattern on a canvas `width` pixels wide: a grey level
/// with a slightly stronger blue.
pub open spec fn placeholder_pixel(i: int, width: u32) -> (u8, u8, u8) {
    let v = placeholder_level((i % width as int) as u32, (i / width as int) as u32);
    (v, v, (v + 8) as u8)
}

/// Converts the first `pixels` pixels of a BGRA frame into packed RGB, dropping alpha.
pub fn bgra_to_rgb(bgra: &Vec<u8>, pixels: usize) -> (r: Vec<u8>)
    requires
        4 * pixels <= bgra@.len(),
    ensures
        r@.len() == 3 * pixels,
        forall|i: int| 0 <= i < pixels ==> #[trigger] rgb_at(r@, i) == rgb_of_bgra(bgra@, i),
{
    let mut rgb: Vec<u8> = Vec::new();
    let mut i: usize = 0;
    let total = bgra.len();
    while i < pixels
        invariant
            i <= pixels,
            4 * pixels <= bgra@.len(),
            bgra@.len() == total,
            rgb@.len() == 3 * i,
            forall|j: int| 0 <= j < i ==> #[trigger] rgb_at(rgb@, j) == rgb_of_bgra(bgra@, j),
        decreases pixels - i,
    {
        let b = bgra[4 * i];
        let g = bgra[4 * i + 1];
        let red = bgra[4 * i + 2];
        let ghost prev = rgb@;
        rgb.push(red);
        rgb.push(g);
        rgb.push(b);
        assert forall|j: int| 0 <= j <= i implies #[trigger] rgb_at(rgb@, j) == rgb_of_bgra(bgra@, j) by {
            if j < i {
                assert(rgb_at(prev, j) == rgb_of_bgra(bgra@, j));
            }
        }
        i = i + 1;
    }
    rgb
}

/// The placeholder pattern served when the screen cannot be captured, as packed RGB,
/// row by row.
pub fn placeholder_rgb(width: u32, height: u32) -> (r: Vec<u8>)
    requires
        width > 0,
        width as int * height as int <= u32::MAX,
    ensures
        r@.len() == 3 * (width as int * height as int),
        forall|i: int| 0 <= i < width as int * height as int ==> #[trigger] rgb_at(r@, i) == placeholder_pixel(i, width),
{
    let n: u32 = width * height;
    let mut rgb: Vec<u8> = Vec::new();
    let mut i: u32 = 0;
    while i < n
        invariant
            i <= n,
            n == width as int * height as int,
            width > 0,
            rgb@.len() == 3 * i,
            forall|j: int| 0 <= j < i ==> #[trigger] rgb_at(rgb@, j) == placeholder_pixel(j, width),
        decreases n - i,
    {
        let x: u32 = i % width;
        let y: u32 = i / width;
        let m: u32 = (x ^ y) & 0x3F;
        assert(m <= 0x3F) by (bit_vector)
            requires
                m == (x ^ y) & 0x3F,
        ;
        let v: u8 = (m + 16) as u8;
        let ghost prev = rgb@;
        rgb.push(v);
        rgb.push(v);
        rgb.push(v + 8);
        assert forall|j: int| 0 <= j <= i implies #[trigger] rgb_at(rgb@, j) == placeholder_pixel(j, width) by {
            if j < i {
                assert(rgb_at(prev, j) == placeholder_pixel(j, width));
            }
        }
        i = i + 1;
    }
    rgb
}

} // verus!
