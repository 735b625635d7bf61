use vstd::prelude::*;
use crate::geometry::{saturate, saturate_i64, Point};
use crate::layout::{max_int, max_i32};
use crate::render::style::{TextAlign, TextBaseline, TextMetrics, TextStyle};

verus! {

/// The number of characters on each line of `text`, lines being separated by `'\n'`; there is
/// always at least one line.
pub open spec fn spec_line_counts(text: Seq<char>) -> Seq<int>
    decreases text.len(),
{
    if text.len() == 0 {
        seq![0int]
    } else {
        let init = spec_line_counts(text.drop_last());
        if text.last() == '\n' {
            init.push(0int)
        } else {
            init.update(init.len() - 1, init.last() + 1)
        }
    }
}

pub proof fn lemma_line_counts_shape(text: Seq<char>)
    ensures
        spec_line_counts(text).len() >= 1,
        spec_line_counts(text).len() <= text.len() + 1,
        forall|i: int|
            0 <= i < spec_line_counts(text).len() ==> 0 <= #[trigger] spec_line_counts(text)[i]
                <= text.len(),
    decreases text.len(),
{
    if text.len() > 0 {
        lemma_line_counts_shape(text.drop_last());
    }
}

/// The integer scale of the 8x8 bitmap font for a pixel size: the size divided by eight,
/// rounded to the nearest integer, and at least one.
pub open spec fn spec_scale(size: int) -> int {
    max_int((size + 4) / 8, 1)
}

/// The font metrics a style resolves to, in whole pixels.
#[derive(Clone, Copy, Debug, PartialEq, Eq, Structural)]
pub struct ResolvedTextStyle {
    pub scale: i32,
    pub glyph_width: i32,
    pub glyph_height: i32,
    pub line_height: i32,
    pub baseline: i32,
}

/// Glyphs are eight scaled pixels square; the line height is the style's, but never less than
/// a glyph; the baseline sits one scaled pixel above the glyph's bottom, and at least one pixel
/// down.
pub open spec fn spec_resolve_text_style(style: TextStyle) -> ResolvedTextStyle {
    let scale = spec_scale(style.spec_size() as int);
    let glyph = saturate(8 * scale);
    let line_height = match style.spec_line_height() {
        Some(v) => max_int(v as int, glyph),
        None => glyph,
    };
    ResolvedTextStyle {
        scale: scale as i32,
        glyph_width: glyph as i32,
        glyph_height: glyph as i32,
        line_height: line_height as i32,
        baseline: max_int(glyph - scale, 1) as i32,
    }
}

pub fn resolve_text_style(style: &TextStyle) -> (r: ResolvedTextStyle)
    ensures
        r == spec_resolve_text_style(*style),
        r.scale >= 1,
        r.glyph_width >= 8,
        r.line_height >= 8,
{
    let size = style.pixel_size();
    let scale = max_i32(((size as i64 + 4) / 8) as i32, 1);
    let glyph = saturate_i64(8 * scale as i64);
    let line_height = match style.line_height_override() {
        Some(v) => max_i32(v, glyph),
        None => glyph,
    };
    let baseline = max_i32(glyph - scale, 1);
    ResolvedTextStyle {
        scale,
        glyph_width: glyph,
        glyph_height: glyph,
        line_height,
        baseline,
    }
}


/// Saturates a wide intermediate value into `i32`.
pub fn saturate_i128(v: i128) -> (r: i32)
    ensures
        r == saturate(v as int),
{
    if v < i32::MIN as i128 {
        i32::MIN
    } else if v > i32::MAX as i128 {
        i32::MAX
    } else {
        v as i32
    }
}

/// A line of `count` characters, `glyph_width` pixels each, in saturated pixels.
fn count_width(count: usize, glyph_width: i32) -> (w: i32)
    requires
        glyph_width >= 0,
    ensures
        w == saturate(count * glyph_width),
{
    proof {
        assert(0 <= count as int * glyph_width as int <= 0x1_0000_0000_0000_0000 * 0x1_0000_0000)
            by (nonlinear_arith)
            requires
                count <= usize::MAX,
                usize::MAX <= 0xffff_ffff_ffff_ffff,
                0 <= glyph_width <= 0x7fff_ffff,
        ;
    }
    saturate_i128(count as i128 * glyph_width as i128)
}

/// The pixel width of each line: its character count times the glyph width, saturated.
pub open spec fn spec_line_widths(text: Seq<char>, glyph_width: int) -> Seq<int> {
    spec_line_counts(text).map_values(|c: int| saturate(c * glyph_width))
}

pub fn line_widths(text: &str, glyph_width: i32) -> (widths: Vec<i32>)
    requires
        glyph_width >= 0,
    ensures
        widths@.len() == spec_line_counts(text@).len(),
        forall|i: int|
            0 <= i < widths@.len() ==> #[trigger] widths@[i] == spec_line_widths(text@, glyph_width as int)[i],
{
    let n = text.unicode_len();
    let mut widths: Vec<i32> = Vec::new();
    let mut count: usize = 0;
    let mut i: usize = 0;
    proof {
        assert(text@.take(0) =~= Seq::<char>::empty());
    }
    while i < n
        invariant
            n == text@.len(),
            i <= n,
            count <= i,
            glyph_width >= 0,
            widths@.len() + 1 == spec_line_counts(text@.take(i as int)).len(),
            count == spec_line_counts(text@.take(i as int)).last(),
            forall|j: int|
                0 <= j < widths@.len() ==> #[trigger] widths@[j] == saturate(
                    spec_line_counts(text@.take(i as int))[j] * glyph_width,
                ),
        decreases n - i,
    {
        let c = text.get_char(i);
        proof {
            assert(text@.take(i as int + 1).drop_last() =~= text@.take(i as int));
            assert(text@.take(i as int + 1).last() == c);
        }
        if c == '\n' {
            widths.push(count_width(count, glyph_width));
            count = 0;
        } else {
            count = count + 1;
        }
        i = i + 1;
    }
    widths.push(count_width(count, glyph_width));
    proof {
        assert(text@.take(n as int) =~= text@);
    }
    widths
}

/// The largest element of a sequence, or zero for an empty one.
pub open spec fn spec_max_seq(s: Seq<int>) -> int
    decreases s.len(),
{
    if s.len() == 0 {
        0
    } else if s.len() == 1 {
        s[0]
    } else {
        max_int(spec_max_seq(s.drop_last()), s.last())
    }
}

/// The metrics of `text` in `style`: as wide as its widest line, one line height per line.
pub open spec fn spec_measure_text(text: Seq<char>, style: TextStyle) -> TextMetrics {
    let r = spec_resolve_text_style(style);
    let widths = spec_line_widths(text, r.glyph_width as int);
    TextMetrics {
        width: spec_max_seq(widths) as i32,
        height: saturate(widths.len() * r.line_height) as i32,
        line_height: r.line_height,
        baseline: r.baseline,
        line_count: widths.len() as usize,
    }
}

fn max_of(widths: &Vec<i32>) -> (m: i32)
    requires
        widths@.len() >= 1,
    ensures
        m == spec_max_seq(widths@.map_values(|w: i32| w as int)),
{
    let mut m = widths[0];
    let mut i: usize = 1;
    proof {
        assert(widths@.map_values(|w: i32| w as int).take(1).len() == 1);
    }
    while i < widths.len()
        invariant
            1 <= i <= widths@.len(),
            m == spec_max_seq(widths@.map_values(|w: i32| w as int).take(i as int)),
        decreases widths@.len() - i,
    {
        proof {
            let s = widths@.map_values(|w: i32| w as int);
            assert(s.take(i as int + 1).drop_last() =~= s.take(i as int));
        }
        m = max_i32(m, widths[i]);
        i = i + 1;
    }
    proof {
        let s = widths@.map_values(|w: i32| w as int);
        assert(s.take(widths@.len() as int) =~= s);
    }
    m
}

/// Text measured and positioned for drawing.
#[derive(Clone, Debug)]
pub struct TextLayout {
    origin: Point,
    metrics: TextMetrics,
    line_widths: Vec<i32>,
    resolved: ResolvedTextStyle,
}

/// `v / 2` rounded to the nearest integer, halves away from zero.
pub open spec fn half_rounded(v: int) -> int {
    if v >= 0 {
        (v + 1) / 2
    } else {
        -((-v + 1) / 2)
    }
}

/// Where the first line's top-left corner goes: the position moved up by the part of the
/// text above the requested baseline (for `Middle`, half the height, with the row rounded to
/// the nearest pixel, halves away from zero).
pub open spec fn spec_layout_origin(position: Point, metrics: TextMetrics, baseline: TextBaseline) -> Point {
    Point {
        x: position.x,
        y: saturate(
            match baseline {
                TextBaseline::Top => position.y as int,
                TextBaseline::Middle => half_rounded(2 * position.y - metrics.height),
                TextBaseline::Alphabetic => position.y - metrics.baseline,
                TextBaseline::Bottom => position.y - metrics.height,
            },
        ) as i32,
    }
}

pub fn layout_origin(position: Point, metrics: TextMetrics, baseline: TextBaseline) -> (p: Point)
    requires
        metrics.height >= 0,
    ensures
        p == spec_layout_origin(position, metrics, baseline),
{
    let y: i64 = match baseline {
        TextBaseline::Top => position.y as i64,
        TextBaseline::Middle => {
            let v = 2 * position.y as i64 - metrics.height as i64;
            if v >= 0 {
                (v + 1) / 2
            } else {
                -((-v + 1) / 2)
            }
        },
        TextBaseline::Alphabetic => position.y as i64 - metrics.baseline as i64,
        TextBaseline::Bottom => position.y as i64 - metrics.height as i64,
    };
    Point::new(position.x, saturate_i64(y))
}

/// Where a line starts horizontally: at the origin, or shifted left by half (rounded down) or
/// all of its width for centered and right-aligned text.
pub open spec fn spec_line_start_x(origin_x: int, line_width: int, align: TextAlign) -> int {
    match align {
        TextAlign::Left => origin_x,
        TextAlign::Center => origin_x - line_width / 2,
        TextAlign::Right => origin_x - line_width,
    }
}

impl TextLayout {
    pub closed spec fn spec_origin(&self) -> Point {
        self.origin
    }

    pub closed spec fn spec_metrics(&self) -> TextMetrics {
        self.metrics
    }

    pub closed spec fn spec_widths(&self) -> Seq<i32> {
        self.line_widths@
    }

    pub closed spec fn spec_resolved(&self) -> ResolvedTextStyle {
        self.resolved
    }

    #[verifier::rlimit(30)]
    pub fn new(position: Point, text: &str, style: &TextStyle) -> (l: Self)
        ensures
            l.spec_resolved() == spec_resolve_text_style(*style),
            l.spec_metrics() == spec_measure_text(text@, *style),
            l.spec_origin() == spec_layout_origin(
                position,
                spec_measure_text(text@, *style),
                style.spec_baseline(),
            ),
            l.spec_widths().len() == spec_line_counts(text@).len(),
            forall|i: int|
                0 <= i < l.spec_widths().len() ==> #[trigger] l.spec_widths()[i] as int
                    == spec_line_widths(text@, spec_resolve_text_style(*style).glyph_width as int)[i],
    {
        let resolved = resolve_text_style(style);
        let widths = line_widths(text, resolved.glyph_width);
        proof {
            lemma_line_counts_shape(text@);
            let w = spec_line_widths(text@, resolved.glyph_width as int);
            assert forall|i: int| 0 <= i < w.len() implies #[trigger] w[i] >= 0 by {
                let c = spec_line_counts(text@)[i];
                assert(c * resolved.glyph_width >= 0) by (nonlinear_arith)
                    requires
                        c >= 0,
                        resolved.glyph_width >= 0,
                ;
            }
        }
        let line_count = widths.len();
        let width = max_of(&widths);
        let height = count_width(line_count, resolved.line_height);
        proof {
            let w = spec_line_widths(text@, resolved.glyph_width as int);
            assert(widths@.map_values(|x: i32| x as int) =~= w);
            lemma_max_seq_nonneg(w);
            assert(height >= 0);
        }
        let metrics = TextMetrics {
            width,
            height,
            line_height: resolved.line_height,
            baseline: resolved.baseline,
            line_count,
        };
        let origin = layout_origin(position, metrics, style.baseline_mode());
        TextLayout { origin, metrics, line_widths: widths, resolved }
    }

    pub fn metrics(&self) -> (m: TextMetrics)
        ensures
            m == self.spec_metrics(),
    {
        self.metrics
    }

    pub fn origin(&self) -> (p: Point)
        ensures
            p == self.spec_origin(),
    {
        self.origin
    }

    pub fn resolved(&self) -> (r: ResolvedTextStyle)
        ensures
            r == self.spec_resolved(),
    {
        self.resolved
    }

    /// The x coordinate where line `line_index` starts; lines that do not exist count as
    /// empty.
    pub fn line_start_x(&self, line_index: usize, align: TextAlign) -> (x: i64)
        ensures
            x == spec_line_start_x(
                self.spec_origin().x as int,
                if line_index < self.spec_widths().len() {
                    self.spec_widths()[line_index as int] as int
                } else {
                    0
                },
                align,
            ),
    {
        let base_x = self.origin.x as i64;
        let line_width: i64 = if line_index < self.line_widths.len() {
            self.line_widths[line_index] as i64
        } else {
            0
        };
        match align {
            TextAlign::Left => base_x,
            TextAlign::Center => {
                let half = if line_width >= 0 {
                    line_width / 2
                } else {
                    -((-line_width + 1) / 2)
                };
                proof {
                    assert(half == line_width as int / 2) by (nonlinear_arith)
                        requires
                            half == (if line_width >= 0 {
                                line_width / 2
                            } else {
                                -((-line_width + 1) / 2)
                            }),
                            -0x1_0000_0000 < line_width < 0x1_0000_0000,
                    ;
                }
                base_x - half
            },
            TextAlign::Right => base_x - line_width,
        }
    }
}

proof fn lemma_max_seq_nonneg(s: Seq<int>)
    requires
        forall|i: int| 0 <= i < s.len() ==> #[trigger] s[i] >= 0,
    ensures
        spec_max_seq(s) >= 0,
    decreases s.len(),
{
    if s.len() > 1 {
        lemma_max_seq_nonneg(s.drop_last());
    }
}

/// Measures text laid out in `style`.
pub fn measure_text(text: &str, style: &TextStyle) -> (m: TextMetrics)
    ensures
        m == spec_measure_text(text@, *style),
{
    TextLayout::new(Point::new(0, 0), text, style).metrics()
}

/// Alignment places a line against the origin: a left-aligned line starts at it, a
/// right-aligned line ends at it, and a centered line has it in its middle (the half pixel of
/// an odd width going to the right).
pub proof fn lemma_line_alignment(origin_x: int, line_width: int)
    requires
        line_width >= 0,
    ensures
        spec_line_start_x(origin_x, line_width, TextAlign::Left) == origin_x,
        spec_line_start_x(origin_x, line_width, TextAlign::Right) + line_width == origin_x,
        ({
            let start = spec_line_start_x(origin_x, line_width, TextAlign::Center);
            &&& origin_x - start <= start + line_width - origin_x
            &&& start + line_width - origin_x <= origin_x - start + 1
        }),
{
}

} // verus!
