use vstd::prelude::*;
use crate::color::Color;
use crate::geometry::{saturate, saturate_i64, Rect, Size};
use crate::render::model::Transform;
use crate::render::coverage::Coverage;
use crate::render::raster::{blend, spec_blend};

verus! {

/// The overlap of two rectangles, or `None` when they do not overlap. The overlap's width and
/// height saturate at `i32::MAX`.
pub open spec fn spec_intersect_rect(a: Rect, b: Rect) -> Option<Rect> {
    let left = if a.origin.x >= b.origin.x {
        a.origin.x as int
    } else {
        b.origin.x as int
    };
    let top = if a.origin.y >= b.origin.y {
        a.origin.y as int
    } else {
        b.origin.y as int
    };
    let right = if a.spec_right() <= b.spec_right() {
        a.spec_right()
    } else {
        b.spec_right()
    };
    let bottom = if a.spec_bottom() <= b.spec_bottom() {
        a.spec_bottom()
    } else {
        b.spec_bottom()
    };
    if right <= left || bottom <= top {
        None
    } else {
        Some(
            Rect::xywh_spec(
                left as i32,
                top as i32,
                saturate(right - left) as i32,
                saturate(bottom - top) as i32,
            ),
        )
    }
}

pub fn intersect_rect(a: Rect, b: Rect) -> (r: Option<Rect>)
    ensures
        r == spec_intersect_rect(a, b),
{
    let left = if a.x() >= b.x() {
        a.x()
    } else {
        b.x()
    };
    let top = if a.y() >= b.y() {
        a.y()
    } else {
        b.y()
    };
    let right = if a.right() <= b.right() {
        a.right()
    } else {
        b.right()
    };
    let bottom = if a.bottom() <= b.bottom() {
        a.bottom()
    } else {
        b.bottom()
    };
    if right <= left as i64 || bottom <= top as i64 {
        return None;
    }
    Some(Rect::xywh(left, top, saturate_i64(right - left as i64), saturate_i64(bottom - top as i64)))
}

/// Overlapping is symmetric.
pub proof fn lemma_intersect_commutes(a: Rect, b: Rect)
    ensures
        spec_intersect_rect(a, b) == spec_intersect_rect(b, a),
{
}

/// A point lies in the overlap exactly when it lies in both rectangles (for rectangles with
/// non-negative sizes, whose overlap never saturates).
pub proof fn lemma_intersect_contains(a: Rect, b: Rect, px: int, py: int)
    requires
        a.size.width >= 0,
        a.size.height >= 0,
        b.size.width >= 0,
        b.size.height >= 0,
    ensures
        (spec_intersect_rect(a, b) matches Some(r) && r.spec_contains(px, py)) <==> (a.spec_contains(
            px,
            py,
        ) && b.spec_contains(px, py)),
{
}

/// The current clip: `None` draws everywhere, `Some(rect)` only inside `rect` (so a rectangle
/// without area admits nothing).
#[derive(Clone, Copy, Debug, PartialEq, Eq, Structural)]
pub struct ClipState {
    pub rect: Option<Rect>,
}

/// The clip that admits no pixel.
pub open spec fn spec_empty_clip_rect() -> Rect {
    Rect::xywh_spec(0, 0, 0, 0)
}

impl ClipState {
    pub fn none() -> (c: Self)
        ensures
            c.rect is None,
    {
        ClipState { rect: None }
    }

    pub fn rect(self) -> (r: Option<Rect>)
        ensures
            r == self.rect,
    {
        self.rect
    }

    /// Whether the clip lets drawing reach pixel (`x`, `y`).
    pub open spec fn spec_admits(self, x: int, y: int) -> bool {
        match self.rect {
            Some(r) => r.spec_contains(x, y),
            None => true,
        }
    }

    /// Narrows the clip to `rect`. With no clip yet, the clip becomes `rect`; otherwise it
    /// becomes the overlap, and when there is no overlap it becomes the empty clip, which
    /// admits nothing.
    pub open spec fn spec_intersect(self, rect: Rect) -> ClipState {
        ClipState {
            rect: match self.rect {
                Some(current) => match spec_intersect_rect(current, rect) {
                    Some(overlap) => Some(overlap),
                    None => Some(spec_empty_clip_rect()),
                },
                None => Some(rect),
            },
        }
    }

    pub fn intersect(self, rect: Rect) -> (c: Self)
        ensures
            c == self.spec_intersect(rect),
    {
        ClipState {
            rect: match self.rect {
                Some(current) => match intersect_rect(current, rect) {
                    Some(overlap) => Some(overlap),
                    None => Some(Rect::xywh(0, 0, 0, 0)),
                },
                None => Some(rect),
            },
        }
    }
}

/// Clips only narrow: a pixel that the narrowed clip admits is admitted by the clip before
/// and lies in the new rectangle, so drawing stays inside every clip applied so far.
pub proof fn lemma_clip_narrows(clip: ClipState, rect: Rect, x: int, y: int)
    ensures
        clip.spec_intersect(rect).spec_admits(x, y) ==> clip.spec_admits(x, y) && rect.spec_contains(x, y),
{
}

impl Default for ClipState {
    fn default() -> (c: Self)
        ensures
            c.rect is None,
    {
        Self::none()
    }
}

/// The drawing state that save and restore keep: the clip and the transform.
#[derive(Clone, Copy, Debug, PartialEq, Eq, Structural)]
pub struct FrameState {
    pub clip: ClipState,
    pub transform: Transform,
}

impl FrameState {
    pub open spec fn initial() -> FrameState {
        FrameState { clip: ClipState { rect: None }, transform: Transform::identity() }
    }

    pub fn new() -> (s: Self)
        ensures
            s == Self::initial(),
    {
        FrameState { clip: ClipState::none(), transform: Transform::translation(0, 0) }
    }
}

/// A frame as drawing sees it: its size, its pixels, the current state and the saved states.
pub struct RasterView {
    pub width: u32,
    pub height: u32,
    pub pixels: Seq<Color>,
    pub state: FrameState,
    pub stack: Seq<FrameState>,
}

/// A pixel buffer of `width * height` colors, row by row, with the current drawing state and
/// the stack of saved states.
pub struct Frame {
    pub(crate) width: u32,
    pub(crate) height: u32,
    pub(crate) pixels: Vec<Color>,
    pub(crate) state: FrameState,
    pub(crate) state_stack: Vec<FrameState>,
}

impl Frame {
    pub closed spec fn spec_width(&self) -> u32 {
        self.width
    }

    pub closed spec fn spec_height(&self) -> u32 {
        self.height
    }

    pub closed spec fn spec_pixels(&self) -> Seq<Color> {
        self.pixels@
    }

    pub closed spec fn spec_state(&self) -> FrameState {
        self.state
    }

    pub closed spec fn spec_stack(&self) -> Seq<FrameState> {
        self.state_stack@
    }

    /// The buffer holds exactly one color per pixel.
    pub open spec fn wf(&self) -> bool {
        self.spec_pixels().len() == self.spec_width() as int * self.spec_height() as int
    }

    /// Everything drawing reads and changes, as one value.
    pub open spec fn raster_view(&self) -> RasterView {
        RasterView {
            width: self.spec_width(),
            height: self.spec_height(),
            pixels: self.spec_pixels(),
            state: self.spec_state(),
            stack: self.spec_stack(),
        }
    }

    /// A frame over `pixels`, which hold `width * height` colors row by row, with no clip, no
    /// transform and nothing saved.
    pub fn new(width: u32, height: u32, pixels: Vec<Color>) -> (f: Self)
        requires
            pixels@.len() == width as int * height as int,
        ensures
            f.spec_width() == width,
            f.spec_height() == height,
            f.spec_pixels() == pixels@,
            f.spec_state() == FrameState::initial(),
            f.spec_stack() == Seq::<FrameState>::empty(),
    {
        Frame { width, height, pixels, state: FrameState::new(), state_stack: Vec::new() }
    }

    pub fn size(&self) -> (s: Size)
        ensures
            s == (Size { width: saturate(self.spec_width() as int) as i32, height: saturate(self.spec_height() as int) as i32 }),
    {
        Size::new(saturate_i64(self.width as i64), saturate_i64(self.height as i64))
    }

    pub fn pixel_width(&self) -> (w: u32)
        ensures
            w == self.spec_width(),
    {
        self.width
    }

    pub fn pixel_height(&self) -> (h: u32)
        ensures
            h == self.spec_height(),
    {
        self.height
    }

    pub fn into_pixels(self) -> (p: Vec<Color>)
        ensures
            p@ == self.spec_pixels(),
    {
        self.pixels
    }

    pub fn clip(&self) -> (c: ClipState)
        ensures
            c == self.spec_state().clip,
    {
        self.state.clip
    }

    pub fn transform(&self) -> (t: Transform)
        ensures
            t == self.spec_state().transform,
    {
        self.state.transform
    }

    pub fn save_state(&mut self)
        ensures
            final(self).spec_stack() == old(self).spec_stack().push(old(self).spec_state()),
            final(self).spec_state() == old(self).spec_state(),
            final(self).spec_pixels() == old(self).spec_pixels(),
            final(self).spec_width() == old(self).spec_width(),
            final(self).spec_height() == old(self).spec_height(),
    {
        self.state_stack.push(self.state);
    }

    /// Returns to the last saved state; with nothing saved, nothing changes.
    pub fn restore_state(&mut self)
        ensures
            old(self).spec_stack().len() == 0 ==> final(self).spec_stack() == old(self).spec_stack()
                && final(self).spec_state() == old(self).spec_state(),
            old(self).spec_stack().len() > 0 ==> final(self).spec_stack() == old(
                self,
            ).spec_stack().drop_last() && final(self).spec_state() == old(self).spec_stack().last(),
            final(self).spec_pixels() == old(self).spec_pixels(),
            final(self).spec_width() == old(self).spec_width(),
            final(self).spec_height() == old(self).spec_height(),
    {
        if let Some(state) = self.state_stack.pop() {
            self.state = state;
        }
    }

    /// Narrows the clip to `rect` as the current transform places it.
    pub fn apply_clip_rect(&mut self, rect: Rect)
        ensures
            final(self).spec_state() == (FrameState {
                clip: old(self).spec_state().clip.spec_intersect(
                    old(self).spec_state().transform.spec_map_rect(rect),
                ),
                ..old(self).spec_state()
            }),
            final(self).spec_stack() == old(self).spec_stack(),
            final(self).spec_pixels() == old(self).spec_pixels(),
            final(self).spec_width() == old(self).spec_width(),
            final(self).spec_height() == old(self).spec_height(),
    {
        let mapped = self.state.transform.map_rect(rect);
        self.state.clip = self.state.clip.intersect(mapped);
    }

    /// Composes `transform` after the current transform.
    pub fn apply_transform(&mut self, transform: Transform)
        ensures
            final(self).spec_state() == (FrameState {
                transform: old(self).spec_state().transform.spec_followed_by(transform),
                ..old(self).spec_state()
            }),
            final(self).spec_stack() == old(self).spec_stack(),
            final(self).spec_pixels() == old(self).spec_pixels(),
            final(self).spec_width() == old(self).spec_width(),
            final(self).spec_height() == old(self).spec_height(),
    {
        self.state.transform = self.state.transform.followed_by(transform);
    }
}

/// The part of `rect` that drawing may touch under `clip`: the overlap with the clip, or the
/// whole of `rect` when nothing clips.
pub open spec fn spec_region(clip: ClipState, rect: Rect) -> Option<Rect> {
    match clip.rect {
        Some(c) => spec_intersect_rect(rect, c),
        None => Some(rect),
    }
}

/// Whether pixel (`x`, `y`) of a `w` by `h` buffer lies in `region`.
pub open spec fn spec_in_region(region: Option<Rect>, w: int, h: int, x: int, y: int) -> bool {
    &&& 0 <= x < w
    &&& 0 <= y < h
    &&& region matches Some(r) && r.spec_contains(x, y)
}

/// The pixels after blending `color` onto each pixel of `region` that `coverage` covers; all
/// other pixels are kept.
pub open spec fn spec_paint(
    pixels: Seq<Color>,
    w: int,
    h: int,
    region: Option<Rect>,
    coverage: Coverage,
    color: Color,
) -> Seq<Color> {
    Seq::new(
        pixels.len(),
        |i: int|
            if spec_in_region(region, w, h, i % w, i / w) && coverage.spec_covers(i % w, i / w) {
                spec_blend(pixels[i], color)
            } else {
                pixels[i]
            },
    )
}

/// Pixel `i` of a buffer `w` wide sits at column `i % w` of row `i / w`.
proof fn lemma_pixel_index(i: int, w: int, x: int, y: int)
    requires
        w > 0,
        0 <= x < w,
        0 <= y,
        i == y * w + x,
    ensures
        i % w == x,
        i / w == y,
{
    vstd::arithmetic::div_mod::lemma_fundamental_div_mod_converse(i, w, y, x);
}

/// Blends `color` onto the pixels of a `width_px` by `height_px` buffer that lie in `region`
/// and that `coverage` covers.
fn paint_pixels(
    pixels: &mut Vec<Color>,
    width_px: u32,
    height_px: u32,
    region: Option<Rect>,
    coverage: &Coverage,
    color: Color,
)
    requires
        old(pixels)@.len() == width_px as int * height_px as int,
        coverage.well_formed(),
    ensures
        final(pixels)@ == spec_paint(
            old(pixels)@,
            width_px as int,
            height_px as int,
            region,
            *coverage,
            color,
        ),
{
        let ghost old_pixels = pixels@;
        let ghost w = width_px as int;
        let ghost h = height_px as int;
        let r = match region {
            Some(r) => r,
            None => {
                assert(pixels@ =~= spec_paint(old_pixels, w, h, region, *coverage, color));
                return;
            },
        };
        let x0: i64 = if r.x() > 0 { r.x() as i64 } else { 0 };
        let y0: i64 = if r.y() > 0 { r.y() as i64 } else { 0 };
        let x1: i64 = if r.right() < width_px as i64 { r.right() } else { width_px as i64 };
        let y1: i64 = if r.bottom() < height_px as i64 { r.bottom() } else { height_px as i64 };
        let width = width_px as usize;
        let n = pixels.len();
        let mut y = y0;
        while y < y1
            invariant
                pixels@.len() == old_pixels.len(),
                old_pixels.len() == w * h,
                n == old_pixels.len(),
                w == width_px,
                h == height_px,
                width == w,
                region == Some(r),
                coverage.well_formed(),
                0 <= y0 <= y,
                y1 <= h,
                0 <= x0,
                x1 <= w,
                y0 == (if r.origin.y > 0 { r.origin.y as int } else { 0 }),
                y1 == (if r.spec_bottom() < h { r.spec_bottom() } else { h }),
                x0 == (if r.origin.x > 0 { r.origin.x as int } else { 0 }),
                x1 == (if r.spec_right() < w { r.spec_right() } else { w }),
                forall|i: int|
                    0 <= i < old_pixels.len() ==> #[trigger] pixels@[i] == (if i / w < y
                        && spec_in_region(region, w, h, i % w, i / w) && coverage.spec_covers(
                        i % w,
                        i / w,
                    ) {
                        spec_blend(old_pixels[i], color)
                    } else {
                        old_pixels[i]
                    }),
            decreases y1 - y,
        {
            let mut x = x0;
            while x < x1
                invariant
                    pixels@.len() == old_pixels.len(),
                    old_pixels.len() == w * h,
                    n == old_pixels.len(),
                    w == width_px,
                    h == height_px,
                    width == w,
                    region == Some(r),
                    coverage.well_formed(),
                    0 <= y0 <= y < y1,
                    y1 <= h,
                    0 <= x0 <= x,
                    x1 <= w,
                    y0 == (if r.origin.y > 0 { r.origin.y as int } else { 0 }),
                    y1 == (if r.spec_bottom() < h { r.spec_bottom() } else { h }),
                    x0 == (if r.origin.x > 0 { r.origin.x as int } else { 0 }),
                    x1 == (if r.spec_right() < w { r.spec_right() } else { w }),
                    forall|i: int|
                        0 <= i < old_pixels.len() ==> #[trigger] pixels@[i] == (if (i / w < y
                            || (i / w == y && i % w < x)) && spec_in_region(
                            region,
                            w,
                            h,
                            i % w,
                            i / w,
                        ) && coverage.spec_covers(i % w, i / w) {
                            spec_blend(old_pixels[i], color)
                        } else {
                            old_pixels[i]
                        }),
                decreases x1 - x,
            {
                proof {
                    assert(0 <= y * w && y * w + x < w * h) by (nonlinear_arith)
                        requires
                            0 <= y < h,
                            0 <= x < w,
                    ;
                    lemma_pixel_index(y * w + x, w, x as int, y as int);
                }
                let index = (y as usize) * width + (x as usize);
                if coverage.covers(x, y) {
                    let painted = blend(pixels[index], color);
                    pixels.set(index, painted);
                }
                proof {
                    assert forall|i: int| 0 <= i < old_pixels.len() implies #[trigger] pixels@[i]
                        == (if (i / w < y || (i / w == y && i % w < x + 1)) && spec_in_region(
                        region,
                        w,
                        h,
                        i % w,
                        i / w,
                    ) && coverage.spec_covers(i % w, i / w) {
                        spec_blend(old_pixels[i], color)
                    } else {
                        old_pixels[i]
                    }) by {
                        vstd::arithmetic::div_mod::lemma_fundamental_div_mod(i, w);
                        let (qi, ri) = (i / w, i % w);
                        if qi == y && ri == x {
                            assert(i == index) by (nonlinear_arith)
                                requires
                                    i == w * qi + ri,
                                    qi == y,
                                    ri == x,
                                    index == y * w + x,
                            ;
                        }
                    }
                }
                x = x + 1;
            }
            y = y + 1;
        }
        proof {
            assert forall|i: int| 0 <= i < old_pixels.len() implies #[trigger] pixels@[i]
                == spec_paint(old_pixels, w, h, region, *coverage, color)[i] by {
                vstd::arithmetic::div_mod::lemma_fundamental_div_mod(i, w);
                assert(0 <= i / w < h) by (nonlinear_arith)
                    requires
                        0 <= i < w * h,
                        w > 0,
                ;
            }
            assert(pixels@ =~= spec_paint(old_pixels, w, h, region, *coverage, color));
        }
}

impl Frame {
    /// Blends `color` onto the covered pixels of `rect`, as far as the clip and the buffer
    /// reach.
    pub fn paint(&mut self, rect: Rect, coverage: &Coverage, color: Color)
        requires
            old(self).wf(),
            coverage.well_formed(),
        ensures
            final(self).spec_pixels() == spec_paint(
                old(self).spec_pixels(),
                old(self).spec_width() as int,
                old(self).spec_height() as int,
                spec_region(old(self).spec_state().clip, rect),
                *coverage,
                color,
            ),
            final(self).spec_state() == old(self).spec_state(),
            final(self).spec_stack() == old(self).spec_stack(),
            final(self).spec_width() == old(self).spec_width(),
            final(self).spec_height() == old(self).spec_height(),
    {
        let region = match self.state.clip.rect {
            Some(c) => intersect_rect(rect, c),
            None => Some(rect),
        };
        paint_pixels(&mut self.pixels, self.width, self.height, region, coverage, color);
    }

    /// Sets every pixel to `color`, whatever the clip.
    pub fn fill_all(&mut self, color: Color)
        ensures
            final(self).spec_pixels() == Seq::new(old(self).spec_pixels().len(), |i: int| color),
            final(self).spec_state() == old(self).spec_state(),
            final(self).spec_stack() == old(self).spec_stack(),
            final(self).spec_width() == old(self).spec_width(),
            final(self).spec_height() == old(self).spec_height(),
    {
        let n = self.pixels.len();
        let ghost st = self.state;
        let ghost stack = self.state_stack@;
        let ghost w0 = self.width;
        let ghost h0 = self.height;
        let mut i: usize = 0;
        while i < n
            invariant
                self.pixels@.len() == n,
                self.state == st,
                self.state_stack@ == stack,
                self.width == w0,
                self.height == h0,
                i <= n,
                forall|j: int| 0 <= j < i ==> #[trigger] self.pixels@[j] == color,
            decreases n - i,
        {
            self.pixels.set(i, color);
            i = i + 1;
        }
        assert(self.pixels@ =~= Seq::new(n as nat, |i: int| color));
    }
}

} // verus!
