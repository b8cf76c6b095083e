//! Row-major intensity buffer: where each pixel's byte goes and what it
//! holds, given that pixel's escape-time result.

use vstd::prelude::*;

verus! {

/// The grayscale byte for one escape-time result: black for a point that
/// never escaped, and `255 - count` for one that escaped after `count`
/// iterations, so that faster-escaping points are brighter.
pub open spec fn intensity_spec(escape: Option<usize>) -> u8 {
    match escape {
        None => 0u8,
        Some(count) => (255 - count) as u8,
    }
}

/// Flat index of the pixel at `column`, `row` in a row-major raster of the
/// given width.
pub open spec fn pixel_index(width: int, column: int, row: int) -> int {
    row * width + column
}

/// A pixel inside the bounds lands inside the buffer: row-major indexing
/// stays below `width * height`.
pub proof fn lemma_pixel_index_in_range(width: int, height: int, column: int, row: int)
    requires
        0 <= column < width,
        0 <= row < height,
    ensures
        0 <= pixel_index(width, column, row) < width * height,
{
    assert(0 <= row * width + column < width * height) by (nonlinear_arith)
        requires
            0 <= column < width,
            0 <= row < height,
    ;
}

/// Distinct pixels of one raster occupy distinct buffer slots.
pub proof fn lemma_pixel_index_injective(width: int, c1: int, r1: int, c2: int, r2: int)
    requires
        0 <= c1 < width,
        0 <= c2 < width,
        0 <= r1,
        0 <= r2,
        (c1, r1) != (c2, r2),
    ensures
        pixel_index(width, c1, r1) != pixel_index(width, c2, r2),
{
    assert(r1 * width + c1 != r2 * width + c2) by (nonlinear_arith)
        requires
            0 <= c1 < width,
            0 <= c2 < width,
            0 <= r1,
            0 <= r2,
            !(c1 == c2 && r1 == r2),
    ;
}

/// Black marks exactly the points that never escaped: an escape after any
/// count inside the iteration budget gives a byte in `[1, 255]`, never `0`,
/// so set membership stays readable off the finished raster.
pub proof fn lemma_black_marks_non_escape(escape: Option<usize>)
    requires
        (escape matches Some(count) ==> count < 255),
    ensures
        intensity_spec(escape) == 0 <==> escape is None,
        escape is Some ==> 1 <= intensity_spec(escape) <= 255,
{
}

/// The grayscale byte for one escape-time result.
pub fn intensity_of(escape: Option<usize>) -> (b: u8)
    requires
        (escape matches Some(count) ==> count < 255),
    ensures
        b == intensity_spec(escape),
{
    match escape {
        None => 0,
        Some(count) => (255 - count) as u8,
    }
}

/// Writes one pixel's intensity byte at its row-major slot, leaving every
/// other slot of the buffer unchanged.
pub fn write_pixel(
    pixels: &mut Vec<u8>,
    bounds: (usize, usize),
    column: usize,
    row: usize,
    escape: Option<usize>,
)
    requires
        old(pixels)@.len() == bounds.0 * bounds.1,
        column < bounds.0,
        row < bounds.1,
        (escape matches Some(count) ==> count < 255),
    ensures
        final(pixels)@ == old(pixels)@.update(
            pixel_index(bounds.0 as int, column as int, row as int),
            intensity_spec(escape),
        ),
{
    let len = pixels.len();
    proof {
        lemma_pixel_index_in_range(bounds.0 as int, bounds.1 as int, column as int, row as int);
        let w = bounds.0 as int;
        let h = bounds.1 as int;
        assert((row as int * w + column as int) < w * h);
        assert(w * h == len as int);
    }
    let index = row * bounds.0 + column;
    let byte = intensity_of(escape);
    pixels.set(index, byte);
}

/// Every pixel's slot depends only on that pixel's own inputs: filling two
/// distinct pixels of one raster gives the same buffer in either order, so
/// the rasterization loop may visit pixels in any order — or in parallel over
/// disjoint partitions — without changing a byte of the output.
pub proof fn lemma_pixel_writes_commute(
    buffer: Seq<u8>,
    width: int,
    c1: int,
    r1: int,
    e1: Option<usize>,
    c2: int,
    r2: int,
    e2: Option<usize>,
)
    requires
        0 <= c1 < width,
        0 <= c2 < width,
        0 <= r1,
        0 <= r2,
        (c1, r1) != (c2, r2),
        pixel_index(width, c1, r1) < buffer.len(),
        pixel_index(width, c2, r2) < buffer.len(),
    ensures
        buffer.update(pixel_index(width, c1, r1), intensity_spec(e1)).update(
            pixel_index(width, c2, r2),
            intensity_spec(e2),
        ) == buffer.update(pixel_index(width, c2, r2), intensity_spec(e2)).update(
            pixel_index(width, c1, r1),
            intensity_spec(e1),
        ),
{
    lemma_pixel_index_injective(width, c1, r1, c2, r2);
    assert(buffer.update(pixel_index(width, c1, r1), intensity_spec(e1)).update(
        pixel_index(width, c2, r2),
        intensity_spec(e2),
    ) =~= buffer.update(pixel_index(width, c2, r2), intensity_spec(e2)).update(
        pixel_index(width, c1, r1),
        intensity_spec(e1),
    ));
}

} // verus!
