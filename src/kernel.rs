use vstd::prelude::*;

verus! {

/// Largest magnitude of a kernel weight: with it the weighted sum of nine
/// 8-bit samples stays well inside `i32`.
pub const WEIGHT_LIMIT: i32 = 65535;

/// The sharpening kernel, row by row: the centre sample counts five times and
/// each of its four direct neighbours is subtracted once.
pub open spec fn sharpen_kernel() -> Seq<i32> {
    seq![0i32, -1i32, 0i32, -1i32, 5i32, -1i32, 0i32, -1i32, 0i32]
}

/// Nine weights, each within `WEIGHT_LIMIT` in magnitude.
pub open spec fn kernel_in_range(k: Seq<i32>) -> bool {
    &&& k.len() == 9
    &&& forall|j: int| 0 <= j < 9 ==> -WEIGHT_LIMIT <= #[trigger] k[j] <= WEIGHT_LIMIT
}

/// A coordinate moved back inside `0 .. n`: the border is replicated outward.
pub open spec fn clamp_coord(i: int, n: int) -> int {
    if i < 0 {
        0
    } else if i >= n {
        n - 1
    } else {
        i
    }
}

/// A value saturated to the 8-bit range.
pub open spec fn saturate_u8(v: int) -> u8 {
    if v < 0 {
        0
    } else if v > 255 {
        255
    } else {
        v as u8
    }
}

/// Channel `c` of the pixel at `(x, y)`, with coordinates outside the image
/// taken from the nearest border pixel.
pub open spec fn sample_at(width: int, height: int, px: Seq<u8>, x: int, y: int, c: int) -> int {
    px[(clamp_coord(y, height) * width + clamp_coord(x, width)) * 4 + c] as int
}

/// The 3x3 correlation of the kernel with the neighbourhood of `(x, y)` in
/// channel `c`; weight `k[3 * j + i]` applies to the pixel at
/// `(x + i - 1, y + j - 1)`.
pub open spec fn weighted_sum(
    k: Seq<i32>,
    width: int,
    height: int,
    px: Seq<u8>,
    x: int,
    y: int,
    c: int,
) -> int {
    k[0] * sample_at(width, height, px, x - 1, y - 1, c) + k[1] * sample_at(
        width,
        height,
        px,
        x,
        y - 1,
        c,
    ) + k[2] * sample_at(width, height, px, x + 1, y - 1, c) + k[3] * sample_at(
        width,
        height,
        px,
        x - 1,
        y,
        c,
    ) + k[4] * sample_at(width, height, px, x, y, c) + k[5] * sample_at(
        width,
        height,
        px,
        x + 1,
        y,
        c,
    ) + k[6] * sample_at(width, height, px, x - 1, y + 1, c) + k[7] * sample_at(
        width,
        height,
        px,
        x,
        y + 1,
        c,
    ) + k[8] * sample_at(width, height, px, x + 1, y + 1, c)
}

/// The samples of an image convolved with a 3x3 kernel: each channel of
/// each pixel is the saturated weighted sum of its neighbourhood.
pub open spec fn convolved(k: Seq<i32>, width: int, height: int, px: Seq<u8>) -> Seq<u8> {
    Seq::new(
        (width * height * 4) as nat,
        |i: int| saturate_u8(weighted_sum(k, width, height, px, (i / 4) % width, (i / 4) / width, i % 4)),
    )
}

/// Tells whether every weight of the kernel is within `WEIGHT_LIMIT`.
pub fn check_kernel(kernel: &[i32; 9]) -> (r: bool)
    ensures
        r == kernel_in_range(kernel@),
{
    let mut j: usize = 0;
    while j < 9
        invariant
            j <= 9,
            kernel@.len() == 9,
            forall|m: int| 0 <= m < j ==> -WEIGHT_LIMIT <= #[trigger] kernel@[m] <= WEIGHT_LIMIT,
        decreases 9 - j,
    {
        if kernel[j] < -WEIGHT_LIMIT || kernel[j] > WEIGHT_LIMIT {
            return false;
        }
        j = j + 1;
    }
    true
}

} // verus!
