use vstd::prelude::*;

verus! {

/// Width in pixels of the frames decoded for the on-screen preview. Smaller
/// frames decode faster and upload faster; exports use the full source size.
pub const PREVIEW_WIDTH: u32 = 720;

/// `round(720 * source_h / source_w)` with halves rounded away from zero, as a
/// saturating conversion to `u32` yields it: a zero-width source gives `0`
/// for a zero height (the quotient is undefined) and `u32::MAX` otherwise.
///
/// The exact integer quotient agrees with the double-precision one: a quotient
/// that is not a half-integer lies at least `1 / (2 * source_w)` away from one,
/// while the rounding error of the division is below `720 * source_h / source_w * 2^-53`,
/// which is smaller for every `u32` height.
pub open spec fn scaled_height(source_w: int, source_h: int) -> int {
    if source_w == 0 {
        if source_h == 0 { 0 } else { u32::MAX as int }
    } else {
        let q = (2 * PREVIEW_WIDTH * source_h + source_w) / (2 * source_w);
        if q > u32::MAX { u32::MAX as int } else { q }
    }
}

/// Preview height: the scaled height made even (lowest bit cleared, as video
/// encoders need) and at least `2`.
pub open spec fn preview_height(source_w: int, source_h: int) -> int {
    let raw = scaled_height(source_w, source_h);
    let even = raw - raw % 2;
    if even < 2 { 2 } else { even }
}

/// Size of the preview frames for a `source_w` x `source_h` source: the
/// preview width and the height that keeps the source's aspect ratio.
pub fn preview_size(source_w: u32, source_h: u32) -> (r: (u32, u32))
    ensures
        r.0 == PREVIEW_WIDTH,
        r.1 == preview_height(source_w as int, source_h as int),
{
    let raw: u32 = if source_w == 0 {
        if source_h == 0 { 0 } else { u32::MAX }
    } else {
        let num: u64 = 1440 * (source_h as u64) + (source_w as u64);
        let q: u64 = num / (2 * (source_w as u64));
        if q > u32::MAX as u64 { u32::MAX } else { q as u32 }
    };
    let even = raw - raw % 2;
    let h = if even < 2 { 2 } else { even };
    (PREVIEW_WIDTH, h)
}

/// The preview height is always even and at least `2`.
pub proof fn lemma_preview_height_even(source_w: int, source_h: int)
    requires
        0 <= source_w <= u32::MAX,
        0 <= source_h <= u32::MAX,
    ensures
        preview_height(source_w, source_h) % 2 == 0,
        2 <= preview_height(source_w, source_h) <= u32::MAX,
{
}

/// Unless it saturates, the scaled height keeps the source's aspect ratio to
/// within half a pixel: `|height * source_w - 720 * source_h| <= source_w / 2`.
pub proof fn lemma_scaled_height_keeps_aspect(source_w: int, source_h: int)
    requires
        1 <= source_w <= u32::MAX,
        0 <= source_h <= u32::MAX,
        scaled_height(source_w, source_h) < u32::MAX,
    ensures
        ({
            let q = scaled_height(source_w, source_h);
            let e = 2 * (q * source_w - PREVIEW_WIDTH * source_h);
            -source_w < e <= source_w
        }),
{
    let n = 2 * PREVIEW_WIDTH * source_h + source_w;
    let d = 2 * source_w;
    let q = n / d;
    assert(q * d <= n < q * d + d) by (nonlinear_arith)
        requires
            d > 0,
            q == n / d,
    ;
    assert(q * d == 2 * (q * source_w)) by (nonlinear_arith)
        requires
            d == 2 * source_w,
    ;
    assert(scaled_height(source_w, source_h) == q);
    assert(2 * (q * source_w - PREVIEW_WIDTH * source_h) == q * d - 2 * PREVIEW_WIDTH * source_h)
        by (nonlinear_arith)
        requires
            d == 2 * source_w,
            PREVIEW_WIDTH == 720,
    ;
}

/// Number of bytes in one raw RGBA frame of `width` x `height` pixels.
pub fn rgba_frame_len(width: u32, height: u32) -> (n: usize)
    requires
        4 * width * height <= usize::MAX,
    ensures
        n == 4 * width * height,
{
    proof {
        assert(0 <= width * height <= 0xffff_ffff * 0xffff_ffff) by (nonlinear_arith)
            requires
                width <= 0xffff_ffff,
                height <= 0xffff_ffff,
        ;
        assert(4 * width * height == 4 * (width * height)) by (nonlinear_arith);
    }
    let wh: u64 = (width as u64) * (height as u64);
    (wh as usize) * 4
}

} // verus!
