use vstd::prelude::*;

verus! {

/// The packed `0xAARRGGBB` value of an 8-bit RGBA color.
pub open spec fn argb_value(rgba: [u8; 4]) -> int {
    rgba[3] as int * 0x100_0000 + rgba[0] as int * 0x1_0000 + rgba[1] as int * 0x100 + rgba[2] as int
}

/// Packs an RGBA color into the `0xAARRGGBB` word of a framebuffer.
pub fn to_argb_u32(rgba: [u8; 4]) -> (r: u32)
    ensures
        r as int == argb_value(rgba),
{
    let (r, g, b, a) = (rgba[0] as u32, rgba[1] as u32, rgba[2] as u32, rgba[3] as u32);
    let packed = a << 24 | r << 16 | g << 8 | b;
    assert(packed == a * 0x100_0000 + r * 0x1_0000 + g * 0x100 + b) by (bit_vector)
        requires
            packed == a << 24 | r << 16 | g << 8 | b,
            a < 256,
            r < 256,
            g < 256,
            b < 256,
    ;
    packed
}


/// The column and row of the pixel at linear `index` of a `width`-wide image,
/// rows counted from the top.
pub fn pixel_coords(width: u32, height: u32, index: u32) -> (r: (u32, u32))
    requires
        (index as int) < width as int * height as int,
    ensures
        r.0 as int == index as int % width as int,
        r.1 as int == index as int / width as int,
        r.0 < width,
        r.1 < height,
{
    assert(width > 0) by (nonlinear_arith)
        requires
            (index as int) < width as int * height as int,
    ;
    let x = index % width;
    let y = index / width;
    assert(y < height) by (nonlinear_arith)
        requires
            (index as int) < width as int * height as int,
            width > 0,
            y == index / width,
    ;
    (x, y)
}

/// The number of pixels of a `width` by `height` image.
pub open spec fn pixel_count(width: u32, height: u32) -> int {
    width as int * height as int
}

/// The linear indices `0 .. width * height` of an image's pixels, in order.
pub fn pixel_indices(width: u32, height: u32) -> (r: Vec<u32>)
    requires
        pixel_count(width, height) <= u32::MAX,
    ensures
        r@.len() == pixel_count(width, height),
        forall|i: int| 0 <= i < r@.len() ==> #[trigger] r@[i] == i,
{
    let n: u32 = width * height;
    let mut indices: Vec<u32> = Vec::new();
    let mut i: u32 = 0;
    while i < n
        invariant
            n == pixel_count(width, height),
            i <= n,
            indices@.len() == i,
            forall|j: int| 0 <= j < i ==> #[trigger] indices@[j] == j,
        decreases n - i,
    {
        indices.push(i);
        i = i + 1;
    }
    indices
}

/// Stores the RGBA color of pixel `index` into a byte buffer holding four
/// bytes per pixel; the other bytes are kept.
pub fn write_rgba(buffer: &mut Vec<u8>, index: u32, rgba: [u8; 4])
    requires
        4 * (index as int) + 4 <= old(buffer)@.len(),
    ensures
        final(buffer)@.len() == old(buffer)@.len(),
        forall|k: int|
            0 <= k < 4 ==> #[trigger] final(buffer)@[4 * index as int + k] == rgba[k],
        forall|j: int|
            0 <= j < old(buffer)@.len() && !(4 * index as int <= j < 4 * index as int + 4)
                ==> #[trigger] final(buffer)@[j] == old(buffer)@[j],
{
    let len: usize = buffer.len();
    assert(4 * (index as int) + 4 <= len);
    let base: usize = (index as usize) * 4;
    buffer.set(base, rgba[0]);
    buffer.set(base + 1, rgba[1]);
    buffer.set(base + 2, rgba[2]);
    buffer.set(base + 3, rgba[3]);
    assert(forall|k: int| 0 <= k < 4 ==> #[trigger] buffer@[4 * index as int + k] == rgba[k]) by {
        assert forall|k: int| 0 <= k < 4 implies #[trigger] buffer@[4 * index as int + k] == rgba[k] by {
            if k == 0 {} else if k == 1 {} else if k == 2 {} else {}
        }
    }
}

/// Stores the packed `0xAARRGGBB` color of pixel `index` into a framebuffer of
/// one word per pixel; the other words are kept.
pub fn write_argb(buffer: &mut Vec<u32>, index: u32, rgba: [u8; 4])
    requires
        (index as int) < old(buffer)@.len(),
    ensures
        final(buffer)@ == old(buffer)@.update(index as int, argb_value(rgba) as u32),
{
    let packed = to_argb_u32(rgba);
    buffer.set(index as usize, packed);
}

} // verus!
