use vstd::prelude::*;

verus! {

/// Value of a `u32` reinterpreted as an `i32` (two's complement wrap).
pub open spec fn wrap_i32(v: int) -> int {
    if v <= i32::MAX { v } else { v - 0x1_0000_0000 }
}

/// Reinterpret a `u32` as an `i32`, as `v as i32` does.
fn to_i32_wrapping(v: u32) -> (r: i32)
    ensures
        r == wrap_i32(v as int),
{
    if v <= 0x7fff_ffff {
        v as i32
    } else {
        let low = (v - 0x8000_0000) as i32;
        low - 0x7fff_ffff - 1
    }
}

/// A crop window in source pixel space: top-left corner `(x, y)`, size `w` x `h`.
#[derive(Clone, Copy, Debug, Default, PartialEq, Eq)]
pub struct CropRect {
    pub x: i32,
    pub y: i32,
    pub w: u32,
    pub h: u32,
}

/// Width of a 9:16 window of height `h`: `h * 9 / 16` rounded to the nearest
/// integer, halves away from zero.
pub open spec fn width_for_height(h: int) -> int {
    (9 * h + 8) / 16
}

/// Height of a 9:16 window of width `w`: `w * 16 / 9` rounded to the nearest
/// integer, halves away from zero.
pub open spec fn height_for_width(w: int) -> int {
    (32 * w + 9) / 18
}

/// The default 9:16 window of a `src_w` x `src_h` source: the largest one
/// that fits, centred. A source at least `height * 9 / 16` wide gets a
/// full-height window centred horizontally; a narrower source gets a
/// full-width window centred vertically.
pub open spec fn default_crop(src_w: int, src_h: int) -> CropRect {
    let dw = width_for_height(src_h);
    if dw <= src_w {
        CropRect { x: ((src_w - dw) / 2) as i32, y: 0, w: dw as u32, h: src_h as u32 }
    } else {
        let dh = height_for_width(src_w);
        CropRect { x: 0, y: ((src_h - dh) / 2) as i32, w: src_w as u32, h: dh as u32 }
    }
}

impl CropRect {
    /// The default crop for a `src_w` x `src_h` source: the largest 9:16
    /// window inside the frame, centred (full height on a landscape source).
    pub fn default_for(src_w: u32, src_h: u32) -> (r: Self)
        ensures
            r == default_crop(src_w as int, src_h as int),
    {
        let dw64: u64 = (9 * (src_h as u64) + 8) / 16;
        if dw64 <= src_w as u64 {
            let dw = dw64 as u32;
            let x = ((src_w - dw) / 2) as i32;
            CropRect { x, y: 0, w: dw, h: src_h }
        } else {
            let dh64: u64 = (32 * (src_w as u64) + 9) / 18;
            proof {
                assert(dh64 <= src_h);
            }
            let dh = dh64 as u32;
            let y = ((src_h - dh) / 2) as i32;
            CropRect { x: 0, y, w: src_w, h: dh }
        }
    }
}

/// `v` but at least `1`.
pub open spec fn at_least_one(v: int) -> int {
    if v < 1 { 1 } else { v }
}

/// The window size after `clamp_to`: a window that fits the frame keeps its
/// size (at least 1 x 1); a larger one is scaled down, keeping its aspect
/// ratio, until it just fits: the side that overhangs most becomes the
/// frame's side and the other is scaled by the same factor (rounded down).
pub open spec fn clamped_size(w: int, h: int, src_w: int, src_h: int) -> (int, int) {
    if w <= src_w && h <= src_h {
        (at_least_one(w), at_least_one(h))
    } else if w * src_h >= h * src_w {
        (at_least_one(src_w), at_least_one(h * src_w / w))
    } else {
        (at_least_one(w * src_h / h), at_least_one(src_h))
    }
}

/// Position after `clamp_to` on one axis: a negative position becomes `0`;
/// a window that overhangs the far edge is moved so that it ends on that edge.
pub open spec fn clamp_pos(pos: int, size: int, limit: int) -> int {
    let p = if pos < 0 { 0 } else { pos };
    if p + size > limit { wrap_i32(limit - size) } else { p }
}

/// The size chosen by [`clamped_size`] is at least 1 x 1 and fits the frame.
pub proof fn lemma_clamped_size_fits(w: int, h: int, src_w: int, src_h: int)
    requires
        0 <= w,
        0 <= h,
        1 <= src_w,
        1 <= src_h,
    ensures
        1 <= clamped_size(w, h, src_w, src_h).0 <= src_w,
        1 <= clamped_size(w, h, src_w, src_h).1 <= src_h,
        !(w <= src_w && h <= src_h) && w * src_h >= h * src_w ==> w > 0,
        !(w <= src_w && h <= src_h) && w * src_h < h * src_w ==> h > 0,
{
    if w <= src_w && h <= src_h {
    } else if w * src_h >= h * src_w {
        assert(w > src_w) by (nonlinear_arith)
            requires
                !(w <= src_w && h <= src_h),
                w * src_h >= h * src_w,
                1 <= src_w,
                1 <= src_h,
                0 <= h,
        ;
        assert(h * src_w / w <= src_h) by (nonlinear_arith)
            requires
                w * src_h >= h * src_w,
                w > 0,
                h >= 0,
                src_w >= 0,
        ;
    } else {
        assert(h > 0) by (nonlinear_arith)
            requires
                w * src_h < h * src_w,
                0 <= w,
                0 <= h,
                1 <= src_h,
                1 <= src_w,
        ;
        assert(w * src_h / h <= src_w) by (nonlinear_arith)
            requires
                w * src_h < h * src_w,
                h > 0,
                w >= 0,
                src_h >= 0,
        ;
    }
}

impl CropRect {
    /// The rectangle that `clamp_to(src_w, src_h)` leaves behind.
    pub open spec fn clamped(self, src_w: int, src_h: int) -> CropRect {
        let (w, h) = clamped_size(self.w as int, self.h as int, src_w, src_h);
        CropRect {
            x: clamp_pos(self.x as int, w, src_w) as i32,
            y: clamp_pos(self.y as int, h, src_h) as i32,
            w: w as u32,
            h: h as u32,
        }
    }

    /// `clamp_to` needs a non-empty frame.
    pub open spec fn can_clamp(self, src_w: int, src_h: int) -> bool {
        src_w >= 1 && src_h >= 1
    }

    /// The window lies entirely inside a `src_w` x `src_h` frame and is not empty.
    pub open spec fn inside(self, src_w: int, src_h: int) -> bool {
        &&& 0 <= self.x
        &&& 0 <= self.y
        &&& 1 <= self.w
        &&& 1 <= self.h
        &&& self.x + self.w <= src_w
        &&& self.y + self.h <= src_h
    }

    /// Fit the window into the `src_w` x `src_h` frame: scale it down, keeping
    /// its aspect ratio, if it is larger than the frame, then move it so that
    /// it lies inside.
    pub fn clamp_to(&mut self, src_w: u32, src_h: u32)
        requires
            old(self).can_clamp(src_w as int, src_h as int),
        ensures
            *final(self) == old(self).clamped(src_w as int, src_h as int),
            1 <= final(self).w <= src_w,
            1 <= final(self).h <= src_h,
            old(self).x < 0 ==> final(self).x == 0,
            old(self).y < 0 ==> final(self).y == 0,
            1 <= old(self).w <= src_w && 1 <= old(self).h <= src_h ==> final(self).w == old(
                self,
            ).w && final(self).h == old(self).h,
            0 <= old(self).x && old(self).x + final(self).w <= src_w ==> final(self).x == old(
                self,
            ).x,
            0 <= old(self).y && old(self).y + final(self).h <= src_h ==> final(self).y == old(
                self,
            ).y,
            src_w <= 0x8000_0000 ==> 0 <= final(self).x && final(self).x + final(self).w <= src_w,
            src_h <= 0x8000_0000 ==> 0 <= final(self).y && final(self).y + final(self).h <= src_h,
            src_w <= 0x8000_0000 && 0 <= old(self).x && old(self).x + final(self).w > src_w
                ==> final(self).x + final(self).w == src_w,
            src_h <= 0x8000_0000 && 0 <= old(self).y && old(self).y + final(self).h > src_h
                ==> final(self).y + final(self).h == src_h,
    {
        proof {
            lemma_clamped_size_fits(self.w as int, self.h as int, src_w as int, src_h as int);
            lemma_clamp_edges(*self, src_w as int, src_h as int);
        }
        let ghost size = clamped_size(self.w as int, self.h as int, src_w as int, src_h as int);
        proof {
            let (a, b, c, d) = (self.w as int, self.h as int, src_w as int, src_h as int);
            assert(0 <= a * d <= 0xffff_ffff * 0xffff_ffff) by (nonlinear_arith)
                requires
                    0 <= a <= 0xffff_ffff,
                    0 <= d <= 0xffff_ffff,
            ;
            assert(0 <= b * c <= 0xffff_ffff * 0xffff_ffff) by (nonlinear_arith)
                requires
                    0 <= b <= 0xffff_ffff,
                    0 <= c <= 0xffff_ffff,
            ;
        }
        let (w, h): (u32, u32) = if self.w <= src_w && self.h <= src_h {
            (if self.w < 1 { 1 } else { self.w }, if self.h < 1 { 1 } else { self.h })
        } else if (self.w as u64) * (src_h as u64) >= (self.h as u64) * (src_w as u64) {
            let q: u64 = (self.h as u64) * (src_w as u64) / (self.w as u64);
            (src_w, if q < 1 { 1 } else { q as u32 })
        } else {
            let q: u64 = (self.w as u64) * (src_h as u64) / (self.h as u64);
            (if q < 1 { 1 } else { q as u32 }, src_h)
        };
        assert(w == size.0 && h == size.1);
        self.w = w;
        self.h = h;
        if self.x < 0 {
            self.x = 0;
        }
        if self.y < 0 {
            self.y = 0;
        }
        if (self.x as u64) + (w as u64) > src_w as u64 {
            self.x = to_i32_wrapping(src_w - w);
        }
        if (self.y as u64) + (h as u64) > src_h as u64 {
            self.y = to_i32_wrapping(src_h - h);
        }
    }
}

impl CropRect {
    /// The window translated by `(dx, dy)`.
    pub open spec fn translated(self, dx: int, dy: int) -> CropRect {
        CropRect { x: (self.x + dx) as i32, y: (self.y + dy) as i32, w: self.w, h: self.h }
    }

    /// Drag the window by `(dx, dy)` source pixels, then clamp it to the
    /// `src_w` x `src_h` frame.
    pub fn move_by(&mut self, dx: i32, dy: i32, src_w: u32, src_h: u32)
        requires
            i32::MIN <= old(self).x + dx <= i32::MAX,
            i32::MIN <= old(self).y + dy <= i32::MAX,
            old(self).translated(dx as int, dy as int).can_clamp(src_w as int, src_h as int),
        ensures
            *final(self) == old(self).translated(dx as int, dy as int).clamped(
                src_w as int,
                src_h as int,
            ),
            old(self).x + dx < 0 ==> final(self).x == 0,
            old(self).y + dy < 0 ==> final(self).y == 0,
            1 <= old(self).w <= src_w && 1 <= old(self).h <= src_h ==> final(self).w == old(
                self,
            ).w && final(self).h == old(self).h,
            1 <= old(self).w <= src_w && 1 <= old(self).h <= src_h && 0 <= old(self).x + dx
                && old(self).x + dx + old(self).w <= src_w ==> final(self).x == old(self).x + dx,
            1 <= old(self).w <= src_w && 1 <= old(self).h <= src_h && 0 <= old(self).y + dy
                && old(self).y + dy + old(self).h <= src_h ==> final(self).y == old(self).y + dy,
    {
        self.x = self.x + dx;
        self.y = self.y + dy;
        self.clamp_to(src_w, src_h);
    }
}

/// Where clamping puts a window, stated by its edges: the size fits the frame
/// (and is kept when it already fitted); a window past the left or top edge
/// stops on that edge, never on the opposite one; a position that leaves the
/// window inside is kept; a window past the right or bottom edge ends on that
/// edge; and the result lies inside the frame whenever its positions can be
/// held in an `i32`.
pub proof fn lemma_clamp_edges(r: CropRect, src_w: int, src_h: int)
    requires
        1 <= src_w <= u32::MAX,
        1 <= src_h <= u32::MAX,
    ensures
        ({
            let c = r.clamped(src_w, src_h);
            &&& 1 <= c.w <= src_w
            &&& 1 <= c.h <= src_h
            &&& r.x < 0 ==> c.x == 0
            &&& r.y < 0 ==> c.y == 0
            &&& 1 <= r.w <= src_w && 1 <= r.h <= src_h ==> c.w == r.w && c.h == r.h
            &&& 0 <= r.x && r.x + c.w <= src_w ==> c.x == r.x
            &&& 0 <= r.y && r.y + c.h <= src_h ==> c.y == r.y
            &&& src_w <= 0x8000_0000 ==> 0 <= c.x && c.x + c.w <= src_w
            &&& src_h <= 0x8000_0000 ==> 0 <= c.y && c.y + c.h <= src_h
            &&& src_w <= 0x8000_0000 && 0 <= r.x && r.x + c.w > src_w ==> c.x + c.w == src_w
            &&& src_h <= 0x8000_0000 && 0 <= r.y && r.y + c.h > src_h ==> c.y + c.h == src_h
        }),
{
    lemma_clamped_size_fits(r.w as int, r.h as int, src_w, src_h);
}

/// A source extent for which a clamped position is exact in an `i32`.
pub open spec fn frame_extent_ok(v: int) -> bool {
    1 <= v <= 0x8000_0000
}

/// Clamping always yields a non-empty window that lies entirely inside the
/// source frame.
pub proof fn lemma_clamp_inside(r: CropRect, src_w: int, src_h: int)
    requires
        frame_extent_ok(src_w),
        frame_extent_ok(src_h),
    ensures
        r.can_clamp(src_w, src_h),
        r.clamped(src_w, src_h).inside(src_w, src_h),
{
    lemma_clamped_size_fits(r.w as int, r.h as int, src_w, src_h);
}

/// A window that already lies inside the frame is left exactly as it is.
pub proof fn lemma_clamp_keeps_inside(r: CropRect, src_w: int, src_h: int)
    requires
        r.inside(src_w, src_h),
    ensures
        r.can_clamp(src_w, src_h),
        r.clamped(src_w, src_h) == r,
{
}

/// Clamping twice is the same as clamping once.
pub proof fn lemma_clamp_idempotent(r: CropRect, src_w: int, src_h: int)
    requires
        frame_extent_ok(src_w),
        frame_extent_ok(src_h),
    ensures
        r.clamped(src_w, src_h).clamped(src_w, src_h) == r.clamped(src_w, src_h),
{
    lemma_clamp_inside(r, src_w, src_h);
    lemma_clamp_keeps_inside(r.clamped(src_w, src_h), src_w, src_h);
}

/// A window that fits the frame keeps its size; pushed past the right
/// (bottom) edge it is stopped with that edge on the frame's edge, and left
/// where it is when it lies inside.
pub proof fn lemma_clamp_stops_at_edge(r: CropRect, src_w: int, src_h: int)
    requires
        frame_extent_ok(src_w),
        frame_extent_ok(src_h),
        1 <= r.w <= src_w,
        1 <= r.h <= src_h,
    ensures
        r.clamped(src_w, src_h).w == r.w,
        r.clamped(src_w, src_h).h == r.h,
        r.x + r.w > src_w ==> r.clamped(src_w, src_h).x + r.w == src_w,
        r.y + r.h > src_h ==> r.clamped(src_w, src_h).y + r.h == src_h,
        0 <= r.x && r.x + r.w <= src_w ==> r.clamped(src_w, src_h).x == r.x,
        0 <= r.y && r.y + r.h <= src_h ==> r.clamped(src_w, src_h).y == r.y,
{
}

/// A window larger than the frame is scaled down to fit with its aspect
/// ratio kept: one side becomes the frame's side and the other is the same
/// fraction of the original, rounded down, so `w' / h'` stays `w / h` up to
/// less than one pixel. A 1080 x 1920 window in a 720-wide frame becomes
/// 720 x 1280.
pub proof fn lemma_clamp_keeps_aspect(r: CropRect, src_w: int, src_h: int)
    requires
        frame_extent_ok(src_w),
        frame_extent_ok(src_h),
        r.w > src_w || r.h > src_h,
    ensures
        ({
            let c = r.clamped(src_w, src_h);
            ||| (c.w == src_w && r.w > 0 && 0 <= r.h * src_w - c.h * r.w < r.w) || (c.w
                == src_w && r.h * src_w < r.w)
            ||| (c.h == src_h && r.h > 0 && 0 <= r.w * src_h - c.w * r.h < r.h) || (c.h
                == src_h && r.w * src_h < r.h)
        }),
{
    lemma_clamped_size_fits(r.w as int, r.h as int, src_w, src_h);
    let w = r.w as int;
    let h = r.h as int;
    if w * src_h >= h * src_w {
        assert(w > 0) by (nonlinear_arith)
            requires
                w > src_w || h > src_h,
                w * src_h >= h * src_w,
                1 <= src_w,
                1 <= src_h,
                0 <= h,
        ;
        let q = h * src_w / w;
        let c = r.clamped(src_w, src_h);
        assert(c.w == src_w && c.h == at_least_one(q));
        assert(0 <= h * src_w - q * w < w) by (nonlinear_arith)
            requires
                w > 0,
                h >= 0,
                src_w >= 0,
                q == h * src_w / w,
        ;
        if q == 0 {
            assert(q * w == 0) by (nonlinear_arith)
                requires
                    q == 0,
            ;
            assert(h * src_w < w);
        } else {
            assert(c.h == q);
        }
    } else {
        assert(h > 0) by (nonlinear_arith)
            requires
                w * src_h < h * src_w,
                0 <= w,
                0 <= h,
                1 <= src_h,
                1 <= src_w,
        ;
        let q = w * src_h / h;
        let c = r.clamped(src_w, src_h);
        assert(c.h == src_h && c.w == at_least_one(q));
        assert(0 <= w * src_h - q * h < h) by (nonlinear_arith)
            requires
                h > 0,
                w >= 0,
                src_h >= 0,
                q == w * src_h / h,
        ;
        if q == 0 {
            assert(q * h == 0) by (nonlinear_arith)
                requires
                    q == 0,
            ;
            assert(w * src_h < h);
        } else {
            assert(c.w == q);
        }
    }
}

/// The default window lies inside the frame of any non-empty source of up
/// to `i32::MAX` pixels a side, is 9:16 up to rounding, and is centred: the
/// margins on either side differ by at most one pixel. On a landscape
/// source it is full height.
pub proof fn lemma_default_centred(src_w: int, src_h: int)
    requires
        1 <= src_w <= i32::MAX,
        1 <= src_h <= i32::MAX,
    ensures
        ({
            let r = default_crop(src_w, src_h);
            &&& r.inside(src_w, src_h)
            &&& 0 <= (src_w - (r.x + r.w)) - r.x <= 1
            &&& 0 <= (src_h - (r.y + r.h)) - r.y <= 1
            &&& (r.w == width_for_height(r.h as int) || r.h == height_for_width(r.w as int))
            &&& width_for_height(src_h) <= src_w ==> r.h == src_h
        }),
{
}

} // verus!
