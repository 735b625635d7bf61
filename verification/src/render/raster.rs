use vstd::prelude::*;
use crate::color::Color;
use crate::geometry::{saturate, saturate_i64, Point, Rect};
use crate::render::coverage::{spec_circle_covers, spec_round_rect_covers, spec_ellipse_covers, spec_line_covers, Coverage};
use crate::layout::{max_int, min_int};
use crate::render::frame::{
    lemma_intersect_contains, spec_intersect_rect, spec_paint, spec_region, Frame, FrameState,
    RasterView,
};
use crate::render::model::{
    ClipPrimitive, FillCommand, FillShape, ImageSource, RenderCommand, RenderFrame, StateCommand,
    StrokeCommand, StrokeShape, TextCommand, Transform,
};
use crate::render::style::TextAlign;
use crate::render::text::{
    saturate_i128, spec_layout_origin, spec_line_counts, spec_line_start_x, spec_line_widths,
    spec_measure_text, spec_resolve_text_style, TextLayout,
};

verus! {

/// One channel of a source-over blend of straight-alpha colors, rounded to the nearest value
/// (halves up): `(s*sa + d*da*(1 - sa)) / out_alpha` in 0..=255 terms.
pub open spec fn spec_blend_channel(s: int, d: int, sa: int, da: int) -> int {
    let a = 255 * sa + da * (255 - sa);
    let n = s * sa * 255 + d * da * (255 - sa);
    (2 * n + a) / (2 * a)
}

/// Source-over blending of `src` onto `dst`: an opaque source replaces, a transparent source
/// leaves `dst`, anything else mixes each channel and combines the alphas.
pub open spec fn spec_blend(dst: Color, src: Color) -> Color {
    if src.a == 255 {
        src
    } else if src.a == 0 {
        dst
    } else {
        let a = 255 * src.a + dst.a * (255 - src.a);
        Color {
            r: spec_blend_channel(src.r as int, dst.r as int, src.a as int, dst.a as int) as u8,
            g: spec_blend_channel(src.g as int, dst.g as int, src.a as int, dst.a as int) as u8,
            b: spec_blend_channel(src.b as int, dst.b as int, src.a as int, dst.a as int) as u8,
            a: ((2 * a + 255) / 510) as u8,
        }
    }
}

fn blend_channel(s: u8, d: u8, sa: u8, da: u8) -> (r: u8)
    requires
        0 < sa < 255,
    ensures
        r == spec_blend_channel(s as int, d as int, sa as int, da as int),
{
    let s = s as u64;
    let d = d as u64;
    let sa = sa as u64;
    let da = da as u64;
    proof {
        assert(da * (255 - sa) <= 255 * (255 - sa)) by (nonlinear_arith)
            requires
                da <= 255,
                sa < 255,
        ;
    }
    let t = da * (255 - sa);
    proof {
        assert(d * t <= 255 * t) by (nonlinear_arith)
            requires
                d <= 255,
        ;
        assert(s * sa <= 255 * 255) by (nonlinear_arith)
            requires
                s <= 255,
                sa <= 255,
        ;
    }
    let a = 255 * sa + t;
    let n = s * sa * 255 + d * t;
    let r = (2 * n + a) / (2 * a);
    proof {
        assert(n <= 255 * a) by (nonlinear_arith)
            requires
                n == s * sa * 255 + d * t,
                a == 255 * sa + t,
                s <= 255,
                d <= 255,
        ;
        assert(r <= 255) by (nonlinear_arith)
            requires
                r == (2 * n + a) / (2 * a),
                n <= 255 * a,
                a > 0,
        ;
        assert(d * t == d * da * (255 - sa)) by (nonlinear_arith)
            requires
                t == da * (255 - sa),
        ;
    }
    r as u8
}

/// Blends `src` over `dst`.
pub fn blend(dst: Color, src: Color) -> (c: Color)
    ensures
        c == spec_blend(dst, src),
{
    if src.a == 255 {
        return src;
    }
    if src.a == 0 {
        return dst;
    }
    let sa = src.a as u64;
    let da = dst.a as u64;
    proof {
        assert(da * (255 - sa) <= 255 * (255 - sa)) by (nonlinear_arith)
            requires
                da <= 255,
                sa < 255,
        ;
    }
    let t = da * (255 - sa);
    proof {
    }
    let a = 255 * sa + t;
    let alpha = (2 * a + 255) / 510;
    proof {
        assert(alpha <= 255) by (nonlinear_arith)
            requires
                alpha == (2 * a + 255) / 510,
                a <= 255 * 255,
        ;
    }
    Color {
        r: blend_channel(src.r, dst.r, src.a, dst.a),
        g: blend_channel(src.g, dst.g, src.a, dst.a),
        b: blend_channel(src.b, dst.b, src.a, dst.a),
        a: alpha as u8,
    }
}

/// Blending an opaque color replaces the pixel; blending a transparent one keeps it.
pub proof fn lemma_blend_extremes(dst: Color, src: Color)
    ensures
        src.a == 255 ==> spec_blend(dst, src) == src,
        src.a == 0 ==> spec_blend(dst, src) == dst,
{
}


impl RasterView {
    /// One color per pixel.
    pub open spec fn wf(self) -> bool {
        self.pixels.len() == self.width as int * self.height as int
    }
}

/// Blends `color` onto the pixels of `rect` that `coverage` covers, within the clip.
pub open spec fn spec_paint_view(v: RasterView, rect: Rect, coverage: Coverage, color: Color) -> RasterView {
    RasterView {
        pixels: spec_paint(
            v.pixels,
            v.width as int,
            v.height as int,
            spec_region(v.state.clip, rect),
            coverage,
            color,
        ),
        ..v
    }
}

/// Fills `rect`, placed by the current transform.
pub open spec fn spec_fill_rect(v: RasterView, rect: Rect, color: Color) -> RasterView {
    spec_paint_view(v, v.state.transform.spec_map_rect(rect), Coverage::Full, color)
}

/// Twice the corner radius actually used: the radius, but at most half the width and half the
/// height, and not negative.
pub open spec fn spec_corner_radius2(rect: Rect, radius: int) -> int {
    max_int(min_int(min_int(2 * radius, rect.size.width as int), rect.size.height as int), 0)
}

/// The box around a center with the given horizontal and vertical radii.
pub open spec fn spec_radius_bounds(center: Point, rx: int, ry: int) -> Rect {
    Rect::xywh_spec(
        saturate(center.x - rx) as i32,
        saturate(center.y - ry) as i32,
        saturate(2 * rx) as i32,
        saturate(2 * ry) as i32,
    )
}

/// The whole pixels that a segment stroked `width` wide can reach: its end points' box grown
/// by half the width on each side, rounded outwards.
pub open spec fn spec_line_bounds(start: Point, end: Point, width: int) -> Rect {
    let min_x = (2 * min_int(start.x as int, end.x as int) - width) / 2;
    let min_y = (2 * min_int(start.y as int, end.y as int) - width) / 2;
    let max_x = (2 * max_int(start.x as int, end.x as int) + width + 1) / 2;
    let max_y = (2 * max_int(start.y as int, end.y as int) + width + 1) / 2;
    Rect::xywh_spec(
        saturate(min_x) as i32,
        saturate(min_y) as i32,
        saturate(max_x - min_x) as i32,
        saturate(max_y - min_y) as i32,
    )
}

/// Strokes the segment from `start` to `end`, placed by the current transform.
pub open spec fn spec_draw_line(v: RasterView, start: Point, end: Point, width: int, color: Color) -> RasterView {
    let s = v.state.transform.spec_map_point(start);
    let e = v.state.transform.spec_map_point(end);
    spec_paint_view(
        v,
        spec_line_bounds(s, e, width),
        Coverage::Line { start: s, end: e, width: width as i32 },
        color,
    )
}

pub open spec fn spec_fill(v: RasterView, command: FillCommand) -> RasterView {
    let color = command.fill.paint.color;
    let t = v.state.transform;
    match command.shape {
        FillShape::Rect(rect) => spec_fill_rect(v, rect, color),
        FillShape::RoundRect { rect, radius } => {
            let m = t.spec_map_rect(rect);
            spec_paint_view(
                v,
                m,
                Coverage::RoundRect { rect: m, radius2: spec_corner_radius2(m, radius as int) as i64 },
                color,
            )
        },
        FillShape::Circle { center, radius } => {
            let c = t.spec_map_point(center);
            spec_paint_view(
                v,
                spec_radius_bounds(c, radius as int, radius as int),
                Coverage::Circle { center: c, radius },
                color,
            )
        },
        FillShape::Ellipse { center, radius_x, radius_y } => {
            if radius_x <= 0 || radius_y <= 0 {
                v
            } else {
                let c = t.spec_map_point(center);
                spec_paint_view(
                    v,
                    spec_radius_bounds(c, radius_x as int, radius_y as int),
                    Coverage::Ellipse { center: c, radius_x, radius_y },
                    color,
                )
            }
        },
    }
}

pub open spec fn spec_stroke(v: RasterView, command: StrokeCommand) -> RasterView {
    match command.shape {
        StrokeShape::Line { start, end } => spec_draw_line(
            v,
            start,
            end,
            max_int(command.stroke.width as int, 1),
            command.paint.color,
        ),
    }
}

/// An image placeholder: the outline of `rect` and both of its diagonals, one pixel wide.
pub open spec fn spec_placeholder(v: RasterView, rect: Rect, color: Color) -> RasterView {
    let x = rect.origin.x;
    let y = rect.origin.y;
    let right = saturate(rect.spec_right()) as i32;
    let bottom = saturate(rect.spec_bottom()) as i32;
    let v1 = spec_draw_line(v, Point { x, y }, Point { x: right, y }, 1, color);
    let v2 = spec_draw_line(v1, Point { x: right, y }, Point { x: right, y: bottom }, 1, color);
    let v3 = spec_draw_line(v2, Point { x: right, y: bottom }, Point { x, y: bottom }, 1, color);
    let v4 = spec_draw_line(v3, Point { x, y: bottom }, Point { x, y }, 1, color);
    let v5 = spec_draw_line(v4, Point { x, y }, Point { x: right, y: bottom }, 1, color);
    spec_draw_line(v5, Point { x: right, y }, Point { x, y: bottom }, 1, color)
}

/// Whether cell `m` (row `m / 8`, column `m % 8`) of an 8x8 glyph is set: the column is bit
/// `m % 8` of the row's byte.
pub open spec fn spec_glyph_bit(bits: Seq<u8>, m: int) -> bool {
    (bits[m / 8] >> ((m % 8) as u8)) & 1u8 == 1u8
}

/// The first `m` cells of a glyph drawn with its top-left corner at (`x`, `y`), each set cell
/// a `scale` by `scale` square.
pub open spec fn spec_glyph_upto(
    v: RasterView,
    bits: Seq<u8>,
    x: int,
    y: int,
    scale: int,
    color: Color,
    m: nat,
) -> RasterView
    decreases m,
{
    if m == 0 {
        v
    } else {
        let prev = spec_glyph_upto(v, bits, x, y, scale, color, (m - 1) as nat);
        let k = m - 1;
        if spec_glyph_bit(bits, k) {
            spec_fill_rect(
                prev,
                Rect::xywh_spec(
                    saturate(x + (k % 8) * scale) as i32,
                    saturate(y + (k / 8) * scale) as i32,
                    scale as i32,
                    scale as i32,
                ),
                color,
            )
        } else {
            prev
        }
    }
}

pub open spec fn spec_glyph(v: RasterView, bits: Seq<u8>, x: int, y: int, scale: int, color: Color) -> RasterView {
    spec_glyph_upto(v, bits, x, y, scale, color, 64)
}

/// The bitmap of a Basic Latin character in the 8x8 font.
pub uninterp spec fn basic_font_glyph(c: char) -> Seq<u8>;

/// Where the glyphs of line `line` start: the line's aligned start and its row.
pub open spec fn spec_line_origin_x(origin: Point, widths: Seq<int>, align: TextAlign, line: int) -> int {
    spec_line_start_x(
        origin.x as int,
        if line < widths.len() {
            widths[line]
        } else {
            0
        },
        align,
    )
}

/// The first `k` characters of `text` drawn: each character of the font is drawn at its line's
/// start plus one glyph advance (eight scaled pixels) per earlier character of the line; other
/// characters only take up their advance, and a newline starts the next line, `line_height`
/// further down.
pub open spec fn spec_text_upto(
    v: RasterView,
    text: Seq<char>,
    k: nat,
    origin: Point,
    widths: Seq<int>,
    align: TextAlign,
    line_height: int,
    scale: int,
    color: Color,
) -> RasterView
    decreases k,
{
    if k == 0 {
        v
    } else {
        let prev = spec_text_upto(
            v,
            text,
            (k - 1) as nat,
            origin,
            widths,
            align,
            line_height,
            scale,
            color,
        );
        let ch = text[k - 1];
        if ch == '\n' || (ch as u32) >= 128 {
            prev
        } else {
            let counts = spec_line_counts(text.take(k - 1));
            let line = counts.len() - 1;
            let col = counts.last();
            spec_glyph(
                prev,
                basic_font_glyph(ch),
                spec_line_origin_x(origin, widths, align, line) + col * (8 * scale),
                origin.y + line * line_height,
                scale,
                color,
            )
        }
    }
}

pub open spec fn spec_text(v: RasterView, command: TextCommand) -> RasterView {
    let style = command.style;
    let text = command.text@;
    let r = spec_resolve_text_style(style);
    spec_text_upto(
        v,
        text,
        text.len(),
        spec_layout_origin(command.position, spec_measure_text(text, style), style.spec_baseline()),
        spec_line_widths(text, r.glyph_width as int),
        style.spec_align(),
        r.line_height as int,
        r.scale as int,
        command.paint.color,
    )
}

/// What one command does to the frame.
#[verifier::opaque]
pub open spec fn spec_command(v: RasterView, command: RenderCommand) -> RasterView {
    match command {
        RenderCommand::Clear(c) => RasterView {
            pixels: Seq::new(v.pixels.len(), |i: int| c.paint.color),
            ..v
        },
        RenderCommand::Fill(c) => spec_fill(v, c),
        RenderCommand::Stroke(c) => spec_stroke(v, c),
        RenderCommand::Text(c) => spec_text(v, c),
        RenderCommand::Image(c) => match c.source {
            ImageSource::Placeholder => spec_placeholder(v, c.rect, c.paint.color),
        },
        RenderCommand::Clip(c) => match c.primitive {
            ClipPrimitive::Rect(rect) => RasterView {
                state: FrameState {
                    clip: v.state.clip.spec_intersect(v.state.transform.spec_map_rect(rect)),
                    ..v.state
                },
                ..v
            },
        },
        RenderCommand::Transform(c) => RasterView {
            state: FrameState { transform: v.state.transform.spec_followed_by(c.transform), ..v.state },
            ..v
        },
        RenderCommand::State(StateCommand::Save) => RasterView { stack: v.stack.push(v.state), ..v },
        RenderCommand::State(StateCommand::Restore) => if v.stack.len() > 0 {
            RasterView { state: v.stack.last(), stack: v.stack.drop_last(), ..v }
        } else {
            v
        },
    }
}

/// The commands run in order.
pub open spec fn spec_execute(v: RasterView, commands: Seq<RenderCommand>) -> RasterView
    decreases commands.len(),
{
    if commands.len() == 0 {
        v
    } else {
        spec_command(spec_execute(v, commands.drop_last()), commands.last())
    }
}

/// The 8x8 bitmap of `c` in `font8x8::BASIC_FONTS`, through `font8x8::UnicodeFonts::get`:
/// the font holds exactly the Basic Latin characters, U+0000 to U+007F, so the bitmap is there
/// exactly for those; its bytes are the rows, top first.
#[verifier::external_body]
fn basic_glyph(c: char) -> (g: Option<[u8; 8]>)
    ensures
        g is Some <==> (c as u32) < 128,
        g matches Some(bits) ==> bits@ == basic_font_glyph(c),
{
    font8x8::UnicodeFonts::get(&font8x8::BASIC_FONTS, c)
}

/// Half of `v`, rounded down.
fn floor_half(v: i64) -> (r: i64)
    requires
        -0x4000_0000_0000_0000 <= v <= 0x4000_0000_0000_0000,
    ensures
        r == v as int / 2,
{
    if v >= 0 {
        v / 2
    } else {
        -((-v + 1) / 2)
    }
}

pub fn line_bounds(start: Point, end: Point, width: i32) -> (r: Rect)
    requires
        width >= 1,
    ensures
        r == spec_line_bounds(start, end, width as int),
{
    let lo_x: i64 = if start.x <= end.x { start.x as i64 } else { end.x as i64 };
    let lo_y: i64 = if start.y <= end.y { start.y as i64 } else { end.y as i64 };
    let hi_x: i64 = if start.x >= end.x { start.x as i64 } else { end.x as i64 };
    let hi_y: i64 = if start.y >= end.y { start.y as i64 } else { end.y as i64 };
    let min_x = floor_half(2 * lo_x - width as i64);
    let min_y = floor_half(2 * lo_y - width as i64);
    let max_x = floor_half(2 * hi_x + width as i64 + 1);
    let max_y = floor_half(2 * hi_y + width as i64 + 1);
    Rect::xywh(
        saturate_i64(min_x),
        saturate_i64(min_y),
        saturate_i64(max_x - min_x),
        saturate_i64(max_y - min_y),
    )
}

pub fn radius_bounds(center: Point, rx: i32, ry: i32) -> (r: Rect)
    ensures
        r == spec_radius_bounds(center, rx as int, ry as int),
{
    Rect::xywh(
        saturate_i64(center.x as i64 - rx as i64),
        saturate_i64(center.y as i64 - ry as i64),
        saturate_i64(2 * rx as i64),
        saturate_i64(2 * ry as i64),
    )
}

pub fn corner_radius2(rect: Rect, radius: i32) -> (r: i64)
    ensures
        r == spec_corner_radius2(rect, radius as int),
        0 <= r <= 0x1_0000_0000,
{
    let mut r = 2 * radius as i64;
    if (rect.width() as i64) < r {
        r = rect.width() as i64;
    }
    if (rect.height() as i64) < r {
        r = rect.height() as i64;
    }
    if r < 0 {
        r = 0;
    }
    r
}

/// Draws render commands into a frame.
pub struct Rasterizer {
    frame: Frame,
}

impl Rasterizer {
    pub closed spec fn spec_view(&self) -> RasterView {
        self.frame.raster_view()
    }

    pub fn new(frame: Frame) -> (r: Self)
        ensures
            r.spec_view() == frame.raster_view(),
    {
        Rasterizer { frame }
    }

    /// Gives the frame back.
    pub fn into_frame(self) -> (f: Frame)
        ensures
            f.raster_view() == self.spec_view(),
    {
        self.frame
    }

    /// Runs the frame's commands in order.
    pub fn execute(&mut self, frame: RenderFrame)
        requires
            old(self).spec_view().wf(),
        ensures
            final(self).spec_view().wf(),
            final(self).spec_view() == spec_execute(old(self).spec_view(), frame.spec_commands()),
    {
        let (_, commands) = frame.into_parts();
        let ghost v0 = self.spec_view();
        let mut i: usize = 0;
        while i < commands.len()
            invariant
                i <= commands@.len(),
                self.spec_view().wf(),
                self.spec_view() == spec_execute(v0, commands@.take(i as int)),
            decreases commands@.len() - i,
        {
            proof {
                assert(commands@.take(i as int + 1).drop_last() =~= commands@.take(i as int));
            }
            self.command(&commands[i]);
            i = i + 1;
        }
        proof {
            assert(commands@.take(commands@.len() as int) =~= commands@);
        }
    }

    /// Runs one command.
    pub fn command(&mut self, command: &RenderCommand)
        requires
            old(self).spec_view().wf(),
        ensures
            final(self).spec_view().wf(),
            final(self).spec_view() == spec_command(old(self).spec_view(), *command),
    {
        proof {
            reveal(spec_command);
        }
        match command {
            RenderCommand::Clear(c) => self.frame.fill_all(c.paint.color),
            RenderCommand::Fill(c) => self.fill(c),
            RenderCommand::Stroke(c) => self.stroke(c),
            RenderCommand::Text(c) => self.text(c),
            RenderCommand::Image(c) => match c.source {
                ImageSource::Placeholder => self.image_placeholder(c.rect, c.paint.color),
            },
            RenderCommand::Clip(c) => match c.primitive {
                ClipPrimitive::Rect(rect) => self.frame.apply_clip_rect(rect),
            },
            RenderCommand::Transform(c) => self.frame.apply_transform(c.transform),
            RenderCommand::State(StateCommand::Save) => self.frame.save_state(),
            RenderCommand::State(StateCommand::Restore) => self.frame.restore_state(),
        }
    }

    /// Fills `rect`, placed by the current transform.
    pub fn fill_rect(&mut self, rect: Rect, color: Color)
        requires
            old(self).spec_view().wf(),
        ensures
            final(self).spec_view().wf(),
            final(self).spec_view() == spec_fill_rect(old(self).spec_view(), rect, color),
    {
        let mapped = self.frame.transform().map_rect(rect);
        self.frame.paint(mapped, &Coverage::Full, color);
    }

    fn fill(&mut self, command: &FillCommand)
        requires
            old(self).spec_view().wf(),
        ensures
            final(self).spec_view().wf(),
            final(self).spec_view() == spec_fill(old(self).spec_view(), *command),
    {
        let color = command.fill.paint.color;
        let t = self.frame.transform();
        match command.shape {
            FillShape::Rect(rect) => self.fill_rect(rect, color),
            FillShape::RoundRect { rect, radius } => {
                let m = t.map_rect(rect);
                let r2 = corner_radius2(m, radius);
                self.frame.paint(m, &Coverage::RoundRect { rect: m, radius2: r2 }, color);
            },
            FillShape::Circle { center, radius } => {
                let c = t.map_point(center);
                let bounds = radius_bounds(c, radius, radius);
                self.frame.paint(bounds, &Coverage::Circle { center: c, radius }, color);
            },
            FillShape::Ellipse { center, radius_x, radius_y } => {
                if radius_x <= 0 || radius_y <= 0 {
                    return;
                }
                let c = t.map_point(center);
                let bounds = radius_bounds(c, radius_x, radius_y);
                self.frame.paint(bounds, &Coverage::Ellipse { center: c, radius_x, radius_y }, color);
            },
        }
    }

    /// Strokes a segment `width` pixels wide, placed by the current transform.
    pub fn draw_line(&mut self, start: Point, end: Point, width: i32, color: Color)
        requires
            old(self).spec_view().wf(),
            width >= 1,
        ensures
            final(self).spec_view().wf(),
            final(self).spec_view() == spec_draw_line(
                old(self).spec_view(),
                start,
                end,
                width as int,
                color,
            ),
    {
        let t = self.frame.transform();
        let s = t.map_point(start);
        let e = t.map_point(end);
        let bounds = line_bounds(s, e, width);
        self.frame.paint(bounds, &Coverage::Line { start: s, end: e, width }, color);
    }

    fn stroke(&mut self, command: &StrokeCommand)
        requires
            old(self).spec_view().wf(),
        ensures
            final(self).spec_view().wf(),
            final(self).spec_view() == spec_stroke(old(self).spec_view(), *command),
    {
        let width = if command.stroke.width >= 1 { command.stroke.width } else { 1 };
        match command.shape {
            StrokeShape::Line { start, end } => self.draw_line(start, end, width, command.paint.color),
        }
    }

    /// Outlines `rect` and draws both of its diagonals.
    pub fn image_placeholder(&mut self, rect: Rect, color: Color)
        requires
            old(self).spec_view().wf(),
        ensures
            final(self).spec_view().wf(),
            final(self).spec_view() == spec_placeholder(old(self).spec_view(), rect, color),
    {
        let x = rect.x();
        let y = rect.y();
        let right = saturate_i64(rect.right());
        let bottom = saturate_i64(rect.bottom());
        self.draw_line(Point::new(x, y), Point::new(right, y), 1, color);
        self.draw_line(Point::new(right, y), Point::new(right, bottom), 1, color);
        self.draw_line(Point::new(right, bottom), Point::new(x, bottom), 1, color);
        self.draw_line(Point::new(x, bottom), Point::new(x, y), 1, color);
        self.draw_line(Point::new(x, y), Point::new(right, bottom), 1, color);
        self.draw_line(Point::new(right, y), Point::new(x, bottom), 1, color);
    }

    /// Draws one 8x8 glyph with its top-left corner at (`x`, `y`): each set bit becomes a
    /// `scale` by `scale` square.
    pub fn draw_glyph(&mut self, bits: [u8; 8], x: i128, y: i128, scale: i32, color: Color)
        requires
            old(self).spec_view().wf(),
            1 <= scale,
            -0x10_0000_0000_0000_0000_0000_0000 <= x <= 0x10_0000_0000_0000_0000_0000_0000,
            -0x10_0000_0000_0000_0000_0000_0000 <= y <= 0x10_0000_0000_0000_0000_0000_0000,
        ensures
            final(self).spec_view().wf(),
            final(self).spec_view() == spec_glyph(
                old(self).spec_view(),
                bits@,
                x as int,
                y as int,
                scale as int,
                color,
            ),
    {
        let ghost v0 = self.spec_view();
        let mut m: usize = 0;
        while m < 64
            invariant
                m <= 64,
                1 <= scale,
                -0x10_0000_0000_0000_0000_0000_0000 <= x <= 0x10_0000_0000_0000_0000_0000_0000,
                -0x10_0000_0000_0000_0000_0000_0000 <= y <= 0x10_0000_0000_0000_0000_0000_0000,
                self.spec_view().wf(),
                self.spec_view() == spec_glyph_upto(
                    v0,
                    bits@,
                    x as int,
                    y as int,
                    scale as int,
                    color,
                    m as nat,
                ),
            decreases 64 - m,
        {
            let row = m / 8;
            let col = m % 8;
            if (bits[row] >> (col as u8)) & 1u8 == 1u8 {
                proof {
                    assert(0 <= col * scale <= 8 * 0x8000_0000 && 0 <= row * scale <= 8 * 0x8000_0000)
                        by (nonlinear_arith)
                        requires
                            col < 8,
                            row < 8,
                            1 <= scale <= 0x7fff_ffff,
                    ;
                }
                let cx = saturate_i128(x + (col as i128) * (scale as i128));
                let cy = saturate_i128(y + (row as i128) * (scale as i128));
                self.fill_rect(Rect::xywh(cx, cy, scale, scale), color);
            }
            m = m + 1;
        }
    }

    fn text(&mut self, command: &TextCommand)
        requires
            old(self).spec_view().wf(),
        ensures
            final(self).spec_view().wf(),
            final(self).spec_view() == spec_text(old(self).spec_view(), *command),
    {
        let text = command.text.as_str();
        let style = &command.style;
        let color = command.paint.color;
        let layout = TextLayout::new(command.position, text, style);
        let resolved = layout.resolved();
        let origin = layout.origin();
        let align = style.align_mode();
        let scale = resolved.scale;
        let line_height = resolved.line_height;
        let advance = 8 * scale as i128;
        let ghost v0 = self.spec_view();
        let ghost widths = spec_line_widths(text@, resolved.glyph_width as int);
        let n = text.unicode_len();
        let mut line: usize = 0;
        let mut col: usize = 0;
        let mut line_x = layout.line_start_x(0, align);
        let mut line_y = origin.y as i128;
        let mut k: usize = 0;
        proof {
            assert(text@.take(0) =~= Seq::<char>::empty());
            assert(widths.len() == layout.spec_widths().len());
        }
        while k < n
            invariant
                n == text@.len(),
                k <= n,
                line <= k,
                col <= k,
                scale == resolved.scale,
                scale >= 1,
                line_height == resolved.line_height,
                line_height >= 8,
                advance == 8 * scale,
                self.spec_view().wf(),
                line + 1 == spec_line_counts(text@.take(k as int)).len(),
                col == spec_line_counts(text@.take(k as int)).last(),
                line_x == spec_line_origin_x(origin, widths, align, line as int),
                origin == layout.spec_origin(),
                widths.len() == layout.spec_widths().len(),
                forall|i: int|
                    0 <= i < widths.len() ==> #[trigger] widths[i] == layout.spec_widths()[i] as int,
                line_y == origin.y + line * line_height,
                self.spec_view() == spec_text_upto(
                    v0,
                    text@,
                    k as nat,
                    origin,
                    widths,
                    align,
                    line_height as int,
                    scale as int,
                    color,
                ),
            decreases n - k,
        {
            let ch = text.get_char(k);
            proof {
                assert(text@.take(k as int + 1).drop_last() =~= text@.take(k as int));
                assert(text@.take(k as int + 1).last() == ch);
            }
            proof {
                assert(0 <= (line + 1) * line_height <= 0x1_0000_0000_0000_0000 * 0x8000_0000)
                    by (nonlinear_arith)
                    requires
                        line + 1 <= n,
                        n <= 0xffff_ffff_ffff_ffff,
                        8 <= line_height <= 0x7fff_ffff,
                ;
                assert(0 <= line * line_height <= (line + 1) * line_height) by (nonlinear_arith)
                    requires
                        8 <= line_height,
                        line >= 0,
                ;
                assert((line + 1) * line_height == line * line_height + line_height)
                    by (nonlinear_arith);
                assert(0 <= col * advance <= 0x1_0000_0000_0000_0000 * 0x4_0000_0000)
                    by (nonlinear_arith)
                    requires
                        col <= n,
                        n <= 0xffff_ffff_ffff_ffff,
                        advance == 8 * scale,
                        1 <= scale <= 0x7fff_ffff,
                ;
            }
            if ch == '\n' {
                line = line + 1;
                col = 0;
                line_x = layout.line_start_x(line, align);
                line_y = line_y + line_height as i128;
            } else {
                match basic_glyph(ch) {
                    Some(bits) => {
                        let x = line_x as i128 + (col as i128) * advance;
                        self.draw_glyph(bits, x, line_y, scale, color);
                    },
                    None => {},
                }
                col = col + 1;
            }
            k = k + 1;
        }
    }
}

/// `u` is `v` with, at most, pixels inside `clip` changed: same size, same state, and every
/// pixel outside `clip` as it was.
pub open spec fn spec_changes_only_inside(v: RasterView, u: RasterView, clip: Rect) -> bool {
    &&& u.width == v.width
    &&& u.height == v.height
    &&& u.state == v.state
    &&& u.stack == v.stack
    &&& u.pixels.len() == v.pixels.len()
    &&& forall|i: int|
        0 <= i < v.pixels.len() && !clip.spec_contains(i % (v.width as int), i / (v.width as int))
            ==> #[trigger] u.pixels[i] == v.pixels[i]
}

proof fn lemma_changes_only_inside_chain(v1: RasterView, v2: RasterView, v3: RasterView, clip: Rect)
    requires
        spec_changes_only_inside(v1, v2, clip),
        spec_changes_only_inside(v2, v3, clip),
    ensures
        spec_changes_only_inside(v1, v3, clip),
{
    assert forall|i: int|
        0 <= i < v1.pixels.len() && !clip.spec_contains(i % (v1.width as int), i / (v1.width as int))
        implies #[trigger] v3.pixels[i] == v1.pixels[i] by {
        assert(v2.pixels[i] == v1.pixels[i]);
    }
}

/// Painting under a clip changes no pixel outside the clip.
pub proof fn lemma_paint_stays_in_clip(v: RasterView, rect: Rect, coverage: Coverage, color: Color, clip: Rect)
    requires
        v.state.clip.rect == Some(clip),
    ensures
        spec_changes_only_inside(v, spec_paint_view(v, rect, coverage, color), clip),
{
    let u = spec_paint_view(v, rect, coverage, color);
    let w = v.width as int;
    assert forall|i: int| 0 <= i < v.pixels.len() && !clip.spec_contains(i % w, i / w) implies #[trigger] u.pixels[i]
        == v.pixels[i] by {
        match spec_intersect_rect(rect, clip) {
            Some(r) => {
                assert(!r.spec_contains(i % w, i / w));
            },
            None => {},
        }
    }
}

proof fn lemma_glyph_stays_in_clip(
    v: RasterView,
    bits: Seq<u8>,
    x: int,
    y: int,
    scale: int,
    color: Color,
    m: nat,
    clip: Rect,
)
    requires
        v.state.clip.rect == Some(clip),
    ensures
        spec_changes_only_inside(v, spec_glyph_upto(v, bits, x, y, scale, color, m), clip),
    decreases m,
{
    if m > 0 {
        lemma_glyph_stays_in_clip(v, bits, x, y, scale, color, (m - 1) as nat, clip);
        let prev = spec_glyph_upto(v, bits, x, y, scale, color, (m - 1) as nat);
        let k = m - 1;
        if spec_glyph_bit(bits, k) {
            let cell = Rect::xywh_spec(
                saturate(x + (k % 8) * scale) as i32,
                saturate(y + (k / 8) * scale) as i32,
                scale as i32,
                scale as i32,
            );
            lemma_paint_stays_in_clip(
                prev,
                prev.state.transform.spec_map_rect(cell),
                Coverage::Full,
                color,
                clip,
            );
            lemma_changes_only_inside_chain(
                v,
                prev,
                spec_glyph_upto(v, bits, x, y, scale, color, m),
                clip,
            );
        }
    }
}

proof fn lemma_text_stays_in_clip(
    v: RasterView,
    text: Seq<char>,
    k: nat,
    origin: Point,
    widths: Seq<int>,
    align: TextAlign,
    line_height: int,
    scale: int,
    color: Color,
    clip: Rect,
)
    requires
        v.state.clip.rect == Some(clip),
    ensures
        spec_changes_only_inside(
            v,
            spec_text_upto(v, text, k, origin, widths, align, line_height, scale, color),
            clip,
        ),
    decreases k,
{
    if k > 0 {
        lemma_text_stays_in_clip(
            v,
            text,
            (k - 1) as nat,
            origin,
            widths,
            align,
            line_height,
            scale,
            color,
            clip,
        );
        let prev = spec_text_upto(
            v,
            text,
            (k - 1) as nat,
            origin,
            widths,
            align,
            line_height,
            scale,
            color,
        );
        let ch = text[k - 1];
        if !(ch == '\n' || (ch as u32) >= 128) {
            let counts = spec_line_counts(text.take(k - 1));
            let line = counts.len() - 1;
            let col = counts.last();
            let gx = spec_line_origin_x(origin, widths, align, line) + col * (8 * scale);
            let gy = origin.y + line * line_height;
            lemma_glyph_stays_in_clip(prev, basic_font_glyph(ch), gx, gy, scale, color, 64, clip);
            lemma_changes_only_inside_chain(
                v,
                prev,
                spec_text_upto(v, text, k, origin, widths, align, line_height, scale, color),
                clip,
            );
        }
    }
}

proof fn lemma_line_stays_in_clip(v: RasterView, start: Point, end: Point, width: int, color: Color, clip: Rect)
    requires
        v.state.clip.rect == Some(clip),
    ensures
        spec_changes_only_inside(v, spec_draw_line(v, start, end, width, color), clip),
{
    let s = v.state.transform.spec_map_point(start);
    let e = v.state.transform.spec_map_point(end);
    lemma_paint_stays_in_clip(
        v,
        spec_line_bounds(s, e, width),
        Coverage::Line { start: s, end: e, width: width as i32 },
        color,
        clip,
    );
}

/// Under a clip, every drawing command (fills, strokes, text and images) leaves the pixels
/// outside the clip as they were, and leaves the drawing state alone.
pub proof fn lemma_drawing_stays_in_clip(v: RasterView, command: RenderCommand, clip: Rect)
    requires
        v.state.clip.rect == Some(clip),
        command is Fill || command is Stroke || command is Text || command is Image,
    ensures
        spec_changes_only_inside(v, spec_command(v, command), clip),
{
    reveal(spec_command);
    let t = v.state.transform;
    match command {
        RenderCommand::Fill(c) => {
            let color = c.fill.paint.color;
            match c.shape {
                FillShape::Rect(rect) => {
                    lemma_paint_stays_in_clip(v, t.spec_map_rect(rect), Coverage::Full, color, clip);
                },
                FillShape::RoundRect { rect, radius } => {
                    let m = t.spec_map_rect(rect);
                    lemma_paint_stays_in_clip(
                        v,
                        m,
                        Coverage::RoundRect { rect: m, radius2: spec_corner_radius2(m, radius as int) as i64 },
                        color,
                        clip,
                    );
                },
                FillShape::Circle { center, radius } => {
                    let ce = t.spec_map_point(center);
                    lemma_paint_stays_in_clip(
                        v,
                        spec_radius_bounds(ce, radius as int, radius as int),
                        Coverage::Circle { center: ce, radius },
                        color,
                        clip,
                    );
                },
                FillShape::Ellipse { center, radius_x, radius_y } => {
                    let ce = t.spec_map_point(center);
                    lemma_paint_stays_in_clip(
                        v,
                        spec_radius_bounds(ce, radius_x as int, radius_y as int),
                        Coverage::Ellipse { center: ce, radius_x, radius_y },
                        color,
                        clip,
                    );
                },
            }
        },
        RenderCommand::Stroke(c) => {
            match c.shape {
                StrokeShape::Line { start, end } => {
                    lemma_line_stays_in_clip(
                        v,
                        start,
                        end,
                        max_int(c.stroke.width as int, 1),
                        c.paint.color,
                        clip,
                    );
                },
            }
        },
        RenderCommand::Text(c) => {
            let style = c.style;
            let text = c.text@;
            let r = spec_resolve_text_style(style);
            lemma_text_stays_in_clip(
                v,
                text,
                text.len(),
                spec_layout_origin(c.position, spec_measure_text(text, style), style.spec_baseline()),
                spec_line_widths(text, r.glyph_width as int),
                style.spec_align(),
                r.line_height as int,
                r.scale as int,
                c.paint.color,
                clip,
            );
        },
        RenderCommand::Image(c) => {
            let rect = c.rect;
            let color = c.paint.color;
            let x = rect.origin.x;
            let y = rect.origin.y;
            let right = saturate(rect.spec_right()) as i32;
            let bottom = saturate(rect.spec_bottom()) as i32;
            let v1 = spec_draw_line(v, Point { x, y }, Point { x: right, y }, 1, color);
            let v2 = spec_draw_line(v1, Point { x: right, y }, Point { x: right, y: bottom }, 1, color);
            let v3 = spec_draw_line(v2, Point { x: right, y: bottom }, Point { x, y: bottom }, 1, color);
            let v4 = spec_draw_line(v3, Point { x, y: bottom }, Point { x, y }, 1, color);
            let v5 = spec_draw_line(v4, Point { x, y }, Point { x: right, y: bottom }, 1, color);
            let v6 = spec_draw_line(v5, Point { x: right, y }, Point { x, y: bottom }, 1, color);
            lemma_line_stays_in_clip(v, Point { x, y }, Point { x: right, y }, 1, color, clip);
            lemma_line_stays_in_clip(v1, Point { x: right, y }, Point { x: right, y: bottom }, 1, color, clip);
            lemma_line_stays_in_clip(v2, Point { x: right, y: bottom }, Point { x, y: bottom }, 1, color, clip);
            lemma_line_stays_in_clip(v3, Point { x, y: bottom }, Point { x, y }, 1, color, clip);
            lemma_line_stays_in_clip(v4, Point { x, y }, Point { x: right, y: bottom }, 1, color, clip);
            lemma_line_stays_in_clip(v5, Point { x: right, y }, Point { x, y: bottom }, 1, color, clip);
            lemma_changes_only_inside_chain(v, v1, v2, clip);
            lemma_changes_only_inside_chain(v, v2, v3, clip);
            lemma_changes_only_inside_chain(v, v3, v4, clip);
            lemma_changes_only_inside_chain(v, v4, v5, clip);
            lemma_changes_only_inside_chain(v, v5, v6, clip);
        },
        _ => {},
    }
}

/// Under a clip without area, such as the one left by two clips that do not overlap, drawing
/// changes no pixel at all.
pub proof fn lemma_empty_clip_draws_nothing(v: RasterView, command: RenderCommand, clip: Rect)
    requires
        v.state.clip.rect == Some(clip),
        clip.size.width <= 0 || clip.size.height <= 0,
        command is Fill || command is Stroke || command is Text || command is Image,
    ensures
        spec_command(v, command).pixels == v.pixels,
        spec_command(v, command).state == v.state,
{
    lemma_drawing_stays_in_clip(v, command, clip);
    let u = spec_command(v, command);
    assert forall|i: int| 0 <= i < v.pixels.len() implies u.pixels[i] == v.pixels[i] by {
        assert(!clip.spec_contains(i % (v.width as int), i / (v.width as int)));
    }
    assert(u.pixels =~= v.pixels);
}

/// `u` differs from `v` in its pixels at most.
pub open spec fn spec_same_frame_state(v: RasterView, u: RasterView) -> bool {
    &&& u.width == v.width
    &&& u.height == v.height
    &&& u.state == v.state
    &&& u.stack == v.stack
    &&& u.pixels.len() == v.pixels.len()
}

proof fn lemma_glyph_keeps_state(v: RasterView, bits: Seq<u8>, x: int, y: int, scale: int, color: Color, m: nat)
    ensures
        spec_same_frame_state(v, spec_glyph_upto(v, bits, x, y, scale, color, m)),
    decreases m,
{
    if m > 0 {
        lemma_glyph_keeps_state(v, bits, x, y, scale, color, (m - 1) as nat);
    }
}

proof fn lemma_text_keeps_state(
    v: RasterView,
    text: Seq<char>,
    k: nat,
    origin: Point,
    widths: Seq<int>,
    align: TextAlign,
    line_height: int,
    scale: int,
    color: Color,
)
    ensures
        spec_same_frame_state(
            v,
            spec_text_upto(v, text, k, origin, widths, align, line_height, scale, color),
        ),
    decreases k,
{
    if k > 0 {
        lemma_text_keeps_state(v, text, (k - 1) as nat, origin, widths, align, line_height, scale, color);
        let prev = spec_text_upto(v, text, (k - 1) as nat, origin, widths, align, line_height, scale, color);
        let ch = text[k - 1];
        if !(ch == '\n' || (ch as u32) >= 128) {
            let counts = spec_line_counts(text.take(k - 1));
            let line = counts.len() - 1;
            let col = counts.last();
            lemma_glyph_keeps_state(
                prev,
                basic_font_glyph(ch),
                spec_line_origin_x(origin, widths, align, line) + col * (8 * scale),
                origin.y + line * line_height,
                scale,
                color,
                64,
            );
        }
    }
}

/// Commands other than save and restore never touch the stack of saved states, and drawing
/// commands touch neither the stack nor the current state.
#[verifier::spinoff_prover]
#[verifier::rlimit(40)]
pub proof fn lemma_command_keeps_stack(v: RasterView, command: RenderCommand)
    requires
        !(command is State),
    ensures
        spec_command(v, command).stack == v.stack,
        spec_command(v, command).width == v.width,
        spec_command(v, command).height == v.height,
        spec_command(v, command).pixels.len() == v.pixels.len(),
        !(command is Clip || command is Transform) ==> spec_command(v, command).state == v.state,
{
    reveal(spec_command);
    match command {
        RenderCommand::Text(c) => {
            let style = c.style;
            let text = c.text@;
            let r = spec_resolve_text_style(style);
            lemma_text_keeps_state(
                v,
                text,
                text.len(),
                spec_layout_origin(c.position, spec_measure_text(text, style), style.spec_baseline()),
                spec_line_widths(text, r.glyph_width as int),
                style.spec_align(),
                r.line_height as int,
                r.scale as int,
                c.paint.color,
            );
        },
        _ => {},
    }
}

/// How many saves are still open after `commands`: saves count one up, restores one down.
pub open spec fn spec_save_depth(commands: Seq<RenderCommand>) -> int
    decreases commands.len(),
{
    if commands.len() == 0 {
        0
    } else {
        spec_save_depth(commands.drop_last()) + match commands.last() {
            RenderCommand::State(StateCommand::Save) => 1int,
            RenderCommand::State(StateCommand::Restore) => -1int,
            _ => 0int,
        }
    }
}

/// Every restore matches an earlier save, and every save is restored.
pub open spec fn spec_balanced(commands: Seq<RenderCommand>) -> bool {
    &&& spec_save_depth(commands) == 0
    &&& forall|k: int| 0 <= k <= commands.len() ==> spec_save_depth(#[trigger] commands.take(k)) >= 0
}

/// After a save and then commands whose restores never outnumber their saves, the saved
/// state still sits at its place in the stack, with one more entry above it per open save.
proof fn lemma_saved_state_stays_in_place(v: RasterView, mid: Seq<RenderCommand>, j: int)
    requires
        0 <= j <= mid.len(),
        forall|k: int| 0 <= k <= mid.len() ==> spec_save_depth(#[trigger] mid.take(k)) >= 0,
    ensures
        ({
            let stack = spec_execute(
                v,
                seq![RenderCommand::State(StateCommand::Save)] + mid.take(j),
            ).stack;
            &&& stack.len() == v.stack.len() + 1 + spec_save_depth(mid.take(j))
            &&& stack.subrange(0, v.stack.len() + 1int) == v.stack.push(v.state)
        }),
    decreases j,
{
    let save = seq![RenderCommand::State(StateCommand::Save)];
    if j == 0 {
        assert(mid.take(0) =~= Seq::<RenderCommand>::empty());
        assert(save + mid.take(0) =~= save);
        assert(save.drop_last() =~= Seq::<RenderCommand>::empty());
        assert(spec_execute(v, Seq::<RenderCommand>::empty()) == v);
        assert(spec_execute(v, save) == spec_command(v, RenderCommand::State(StateCommand::Save)));
        reveal(spec_command);
        assert(v.stack.push(v.state).subrange(0, v.stack.len() + 1int) =~= v.stack.push(v.state));
    } else {
        lemma_saved_state_stays_in_place(v, mid, j - 1);
        let prev_cmds = save + mid.take(j - 1);
        let prev = spec_execute(v, prev_cmds);
        let c = mid[j - 1];
        assert((save + mid.take(j)).drop_last() =~= prev_cmds);
        assert((save + mid.take(j)).last() == c);
        assert(mid.take(j).drop_last() =~= mid.take(j - 1));
        assert(mid.take(j).last() == c);
        let next = spec_command(prev, c);
        assert(spec_execute(v, save + mid.take(j)) == next);
        let base: int = v.stack.len() + 1int;
        if c is State {
            reveal(spec_command);
            match c {
                RenderCommand::State(StateCommand::Save) => {
                    assert(next.stack =~= prev.stack.push(prev.state));
                    assert(next.stack.subrange(0, base) =~= prev.stack.subrange(0, base));
                },
                RenderCommand::State(StateCommand::Restore) => {
                    assert(spec_save_depth(mid.take(j)) >= 0);
                    assert(prev.stack.len() > base);
                    assert(next.stack =~= prev.stack.drop_last());
                    assert(next.stack.subrange(0, base) =~= prev.stack.subrange(0, base));
                },
                _ => {},
            }
        } else {
            lemma_command_keeps_stack(prev, c);
        }
    }
}

/// Restoring after a save brings back the state that was saved, whatever comes in between as
/// long as its own saves and restores are balanced (clips, transforms, drawing, and nested
/// save/restore pairs), and leaves the stack of saved states as it was.
pub proof fn lemma_save_restore_brackets(v: RasterView, mid: Seq<RenderCommand>)
    requires
        spec_balanced(mid),
    ensures
        spec_execute(
            v,
            seq![RenderCommand::State(StateCommand::Save)] + mid + seq![
                RenderCommand::State(StateCommand::Restore),
            ],
        ).state == v.state,
        spec_execute(
            v,
            seq![RenderCommand::State(StateCommand::Save)] + mid + seq![
                RenderCommand::State(StateCommand::Restore),
            ],
        ).stack == v.stack,
{
    let save = seq![RenderCommand::State(StateCommand::Save)];
    let all = save + mid + seq![RenderCommand::State(StateCommand::Restore)];
    lemma_saved_state_stays_in_place(v, mid, mid.len() as int);
    assert(mid.take(mid.len() as int) =~= mid);
    let before = spec_execute(v, save + mid);
    assert(before.stack =~= v.stack.push(v.state));
    assert(all.drop_last() =~= save + mid);
    assert(all.last() == RenderCommand::State(StateCommand::Restore));
    reveal(spec_command);
    assert(v.stack.push(v.state).drop_last() =~= v.stack);
}

/// Filling with an opaque color, with no clip and no transform, gives exactly the pixels of
/// the rectangle that lie in the buffer that color and leaves every other pixel as it was.
pub proof fn lemma_opaque_fill_replaces(v: RasterView, rect: Rect, color: Color)
    requires
        color.a == 255,
        v.state.clip.rect is None,
        v.state.transform == (Transform { translate_x: 0, translate_y: 0 }),
    ensures
        spec_fill_rect(v, rect, color).pixels.len() == v.pixels.len(),
        forall|i: int|
            0 <= i < v.pixels.len() ==> #[trigger] spec_fill_rect(v, rect, color).pixels[i] == (if 0
                <= i % (v.width as int) < v.width && 0 <= i / (v.width as int) < v.height
                && rect.spec_contains(i % (v.width as int), i / (v.width as int)) {
                color
            } else {
                v.pixels[i]
            }),
{
    assert(v.state.transform.spec_map_rect(rect) == rect);
}

/// Running one list of commands and then another is running the two lists joined.
pub proof fn lemma_execute_concat(v: RasterView, a: Seq<RenderCommand>, b: Seq<RenderCommand>)
    ensures
        spec_execute(spec_execute(v, a), b) == spec_execute(v, a + b),
    decreases b.len(),
{
    if b.len() == 0 {
        assert(a + b =~= a);
    } else {
        lemma_execute_concat(v, a, b.drop_last());
        assert((a + b).drop_last() =~= a + b.drop_last());
        assert((a + b).last() == b.last());
    }
}

/// Painting reaches every pixel it should: a pixel of the buffer that the clip admits, that
/// lies in the painted rectangle and that the shape covers is blended with the color.
pub proof fn lemma_paint_reaches_covered(
    v: RasterView,
    rect: Rect,
    coverage: Coverage,
    color: Color,
    i: int,
)
    requires
        v.wf(),
        0 <= i < v.pixels.len(),
        rect.size.width >= 0,
        rect.size.height >= 0,
        v.state.clip.spec_admits(i % (v.width as int), i / (v.width as int)),
        rect.spec_contains(i % (v.width as int), i / (v.width as int)),
        coverage.spec_covers(i % (v.width as int), i / (v.width as int)),
    ensures
        spec_paint_view(v, rect, coverage, color).pixels[i] == spec_blend(v.pixels[i], color),
{
    let w = v.width as int;
    let h = v.height as int;
    let x = i % w;
    let y = i / w;
    assert(w > 0) by (nonlinear_arith)
        requires
            0 <= i < w * h,
            h >= 0,
            w >= 0,
    ;
    vstd::arithmetic::div_mod::lemma_fundamental_div_mod(i, w);
    vstd::arithmetic::div_mod::lemma_mod_bound(i, w);
    assert(0 <= y < h) by (nonlinear_arith)
        requires
            i == w * y + x,
            0 <= x < w,
            0 <= i < w * h,
            w > 0,
    ;
    match v.state.clip.rect {
        Some(c) => {
            lemma_intersect_contains(rect, c, x, y);
        },
        None => {},
    }
}

/// A pixel whose center lies in an ellipse lies in the ellipse's bounding box, so filling an
/// ellipse paints all of it.
pub proof fn lemma_ellipse_box_holds_covered(center: Point, rx: int, ry: int, x: int, y: int)
    requires
        1 <= rx <= 0x1000_0000,
        1 <= ry <= 0x1000_0000,
        -0x1000_0000 <= center.x <= 0x1000_0000,
        -0x1000_0000 <= center.y <= 0x1000_0000,
        spec_ellipse_covers(center, rx, ry, x, y),
    ensures
        spec_radius_bounds(center, rx, ry).spec_contains(x, y),
{
    let dx = 2 * x + 1 - 2 * center.x;
    let dy = 2 * y + 1 - 2 * center.y;
    assert(dx * dx <= (2 * rx) * (2 * rx) && dy * dy <= (2 * ry) * (2 * ry)) by (nonlinear_arith)
        requires
            dx * dx * (ry * ry) + dy * dy * (rx * rx) <= 4 * (rx * rx) * (ry * ry),
            rx >= 1,
            ry >= 1,
    ;
    lemma_square_bound(dx, 2 * rx);
    lemma_square_bound(dy, 2 * ry);
}

/// A pixel whose center lies in a disc lies in the disc's bounding box.
pub proof fn lemma_circle_box_holds_covered(center: Point, r: int, x: int, y: int)
    requires
        0 <= r <= 0x1000_0000,
        -0x1000_0000 <= center.x <= 0x1000_0000,
        -0x1000_0000 <= center.y <= 0x1000_0000,
        spec_circle_covers(center, r, x, y),
    ensures
        spec_radius_bounds(center, r, r).spec_contains(x, y),
{
    let dx = 2 * x + 1 - 2 * center.x;
    let dy = 2 * y + 1 - 2 * center.y;
    assert(dx * dx <= (2 * r) * (2 * r) && dy * dy <= (2 * r) * (2 * r)) by (nonlinear_arith)
        requires
            dx * dx + dy * dy <= 4 * r * r,
    ;
    lemma_square_bound(dx, 2 * r);
    lemma_square_bound(dy, 2 * r);
}

proof fn lemma_square_bound(d: int, k: int)
    requires
        k >= 0,
        d * d <= k * k,
    ensures
        -k <= d <= k,
{
    if d > k {
        assert(d * d > k * k) by (nonlinear_arith)
            requires
                d > k,
                k >= 0,
        ;
    }
    if d < -k {
        assert(d * d > k * k) by (nonlinear_arith)
            requires
                d < -k,
                k >= 0,
        ;
    }
}

/// Filling an ellipse or a circle paints every pixel of the buffer that the clip admits and
/// whose center lies in the shape, placed by the current transform.
pub proof fn lemma_fill_round_shapes_complete(v: RasterView, command: FillCommand, i: int)
    requires
        v.wf(),
        0 <= i < v.pixels.len(),
        v.state.clip.spec_admits(i % (v.width as int), i / (v.width as int)),
        match command.shape {
            FillShape::Ellipse { center, radius_x, radius_y } => {
                let c = v.state.transform.spec_map_point(center);
                &&& 1 <= radius_x <= 0x1000_0000
                &&& 1 <= radius_y <= 0x1000_0000
                &&& -0x1000_0000 <= c.x <= 0x1000_0000
                &&& -0x1000_0000 <= c.y <= 0x1000_0000
                &&& spec_ellipse_covers(
                    c,
                    radius_x as int,
                    radius_y as int,
                    i % (v.width as int),
                    i / (v.width as int),
                )
            },
            FillShape::Circle { center, radius } => {
                let c = v.state.transform.spec_map_point(center);
                &&& 0 <= radius <= 0x1000_0000
                &&& -0x1000_0000 <= c.x <= 0x1000_0000
                &&& -0x1000_0000 <= c.y <= 0x1000_0000
                &&& spec_circle_covers(c, radius as int, i % (v.width as int), i / (v.width as int))
            },
            _ => false,
        },
    ensures
        spec_fill(v, command).pixels[i] == spec_blend(v.pixels[i], command.fill.paint.color),
{
    let x = i % (v.width as int);
    let y = i / (v.width as int);
    let color = command.fill.paint.color;
    match command.shape {
        FillShape::Ellipse { center, radius_x, radius_y } => {
            let c = v.state.transform.spec_map_point(center);
            lemma_ellipse_box_holds_covered(c, radius_x as int, radius_y as int, x, y);
            lemma_paint_reaches_covered(
                v,
                spec_radius_bounds(c, radius_x as int, radius_y as int),
                Coverage::Ellipse { center: c, radius_x, radius_y },
                color,
                i,
            );
        },
        FillShape::Circle { center, radius } => {
            let c = v.state.transform.spec_map_point(center);
            lemma_circle_box_holds_covered(c, radius as int, x, y);
            lemma_paint_reaches_covered(
                v,
                spec_radius_bounds(c, radius as int, radius as int),
                Coverage::Circle { center: c, radius },
                color,
                i,
            );
        },
        _ => {},
    }
}

/// One coordinate of a pixel center near a segment's interior: with the center's offset
/// `v` from the start written as `v * len2 == dot * d + cross * e` (its parts along and across
/// the segment), the offset lies between the segment's extent `d` and zero, widened by `w`.
proof fn lemma_offset_near_segment(v: int, dot: int, d: int, cross: int, e: int, w: int, len2: int)
    requires
        len2 > 0,
        0 < dot < len2,
        v * len2 == dot * d + cross * e,
        cross * cross <= w * w * len2,
        e * e <= len2,
        w >= 1,
    ensures
        min_int(d, 0) - w <= v <= max_int(d, 0) + w,
{
    assert((cross * e) * (cross * e) <= (w * len2) * (w * len2)) by (nonlinear_arith)
        requires
            cross * cross <= w * w * len2,
            e * e <= len2,
            len2 > 0,
    ;
    lemma_square_bound(cross * e, w * len2);
    assert(min_int(d, 0) * len2 <= dot * d <= max_int(d, 0) * len2) by (nonlinear_arith)
        requires
            0 < dot < len2,
    ;
    assert(min_int(d, 0) - w <= v <= max_int(d, 0) + w) by (nonlinear_arith)
        requires
            len2 > 0,
            v * len2 == dot * d + cross * e,
            -(w * len2) <= cross * e <= w * len2,
            min_int(d, 0) * len2 <= dot * d <= max_int(d, 0) * len2,
    ;
}

/// The center of a pixel that a stroked segment covers lies within `width / 2` of the
/// segment's end points' box, on each axis (coordinates doubled).
proof fn lemma_line_covered_near_box(start: Point, end: Point, width: int, x: int, y: int)
    requires
        width >= 1,
        spec_line_covers(start, end, width, x, y),
    ensures
        2 * min_int(start.x as int, end.x as int) - width <= 2 * x + 1 <= 2 * max_int(
            start.x as int,
            end.x as int,
        ) + width,
        2 * min_int(start.y as int, end.y as int) - width <= 2 * y + 1 <= 2 * max_int(
            start.y as int,
            end.y as int,
        ) + width,
{
    let px = 2 * x + 1;
    let py = 2 * y + 1;
    let ax = 2 * start.x;
    let ay = 2 * start.y;
    let bx = 2 * end.x;
    let by = 2 * end.y;
    let dx = bx - ax;
    let dy = by - ay;
    let len2 = dx * dx + dy * dy;
    let vx = px - ax;
    let vy = py - ay;
    let dot = vx * dx + vy * dy;
    assert(vx * vx >= 0 && vy * vy >= 0 && dx * dx >= 0 && dy * dy >= 0) by (nonlinear_arith);
    if len2 == 0 || dot <= 0 {
        lemma_square_bound(vx, width);
        lemma_square_bound(vy, width);
    } else if dot >= len2 {
        assert((px - bx) * (px - bx) >= 0 && (py - by) * (py - by) >= 0) by (nonlinear_arith);
        lemma_square_bound(px - bx, width);
        lemma_square_bound(py - by, width);
    } else {
        let cross = vx * dy - vy * dx;
        assert(vx * len2 == dot * dx + cross * dy) by (nonlinear_arith)
            requires
                len2 == dx * dx + dy * dy,
                dot == vx * dx + vy * dy,
                cross == vx * dy - vy * dx,
        ;
        assert(vy * len2 == dot * dy + (-cross) * dx) by (nonlinear_arith)
            requires
                len2 == dx * dx + dy * dy,
                dot == vx * dx + vy * dy,
                cross == vx * dy - vy * dx,
        ;
        assert((-cross) * (-cross) == cross * cross) by (nonlinear_arith);
        lemma_offset_near_segment(vx, dot, dx, cross, dy, width, len2);
        lemma_offset_near_segment(vy, dot, dy, -cross, dx, width, len2);
    }
}

/// A pixel whose center a stroked segment covers lies in the segment's painted box, so
/// stroking paints all of it, whichever end comes first.
pub proof fn lemma_line_box_holds_covered(start: Point, end: Point, width: int, x: int, y: int)
    requires
        1 <= width <= 0x1000_0000,
        -0x1000_0000 <= start.x <= 0x1000_0000,
        -0x1000_0000 <= start.y <= 0x1000_0000,
        -0x1000_0000 <= end.x <= 0x1000_0000,
        -0x1000_0000 <= end.y <= 0x1000_0000,
        spec_line_covers(start, end, width, x, y),
    ensures
        spec_line_bounds(start, end, width).spec_contains(x, y),
        spec_line_bounds(start, end, width).size.width >= 0,
        spec_line_bounds(start, end, width).size.height >= 0,
{
    lemma_line_covered_near_box(start, end, width, x, y);
}

/// Whether a segment covers a pixel does not depend on which end comes first.
pub proof fn lemma_line_covers_symmetric(start: Point, end: Point, width: int, x: int, y: int)
    ensures
        spec_line_covers(start, end, width, x, y) == spec_line_covers(end, start, width, x, y),
{
    let px = 2 * x + 1;
    let py = 2 * y + 1;
    let ax = 2 * start.x;
    let ay = 2 * start.y;
    let bx = 2 * end.x;
    let by = 2 * end.y;
    let dx = bx - ax;
    let dy = by - ay;
    let len2 = dx * dx + dy * dy;
    let vx = px - ax;
    let vy = py - ay;
    let dot = vx * dx + vy * dy;
    let cross = vx * dy - vy * dx;
    let rdx = ax - bx;
    let rdy = ay - by;
    let rlen2 = rdx * rdx + rdy * rdy;
    let rvx = px - bx;
    let rvy = py - by;
    let rdot = rvx * rdx + rvy * rdy;
    let rcross = rvx * rdy - rvy * rdx;
    assert(rlen2 == len2 && rdot == len2 - dot && rcross * rcross == cross * cross)
        by (nonlinear_arith)
        requires
            rdx == -dx,
            rdy == -dy,
            rvx == vx - dx,
            rvy == vy - dy,
            len2 == dx * dx + dy * dy,
            rlen2 == rdx * rdx + rdy * rdy,
            dot == vx * dx + vy * dy,
            rdot == rvx * rdx + rvy * rdy,
            cross == vx * dy - vy * dx,
            rcross == rvx * rdy - rvy * rdx,
    ;
    assert(dx * dx >= 0 && dy * dy >= 0) by (nonlinear_arith);
    if len2 == 0 {
        assert(dx == 0 && dy == 0) by (nonlinear_arith)
            requires
                dx * dx + dy * dy == 0,
        ;
    }
}

/// Stroking does not depend on which end of the segment comes first.
pub proof fn lemma_draw_line_symmetric(v: RasterView, start: Point, end: Point, width: int, color: Color)
    ensures
        spec_draw_line(v, start, end, width, color) == spec_draw_line(v, end, start, width, color),
{
    let s = v.state.transform.spec_map_point(start);
    let e = v.state.transform.spec_map_point(end);
    assert(spec_line_bounds(s, e, width) == spec_line_bounds(e, s, width));
    let a = spec_draw_line(v, start, end, width, color);
    let b = spec_draw_line(v, end, start, width, color);
    assert forall|i: int| 0 <= i < v.pixels.len() implies a.pixels[i] == b.pixels[i] by {
        lemma_line_covers_symmetric(
            s,
            e,
            (width as i32) as int,
            i % (v.width as int),
            i / (v.width as int),
        );
    }
    assert(a.pixels =~= b.pixels);
}

/// Stroking a segment paints every pixel of the buffer that the clip admits and whose center
/// lies within half the width of the segment, placed by the current transform.
pub proof fn lemma_draw_line_complete(
    v: RasterView,
    start: Point,
    end: Point,
    width: int,
    color: Color,
    i: int,
)
    requires
        v.wf(),
        0 <= i < v.pixels.len(),
        1 <= width <= 0x1000_0000,
        -0x1000_0000 <= v.state.transform.spec_map_point(start).x <= 0x1000_0000,
        -0x1000_0000 <= v.state.transform.spec_map_point(start).y <= 0x1000_0000,
        -0x1000_0000 <= v.state.transform.spec_map_point(end).x <= 0x1000_0000,
        -0x1000_0000 <= v.state.transform.spec_map_point(end).y <= 0x1000_0000,
        v.state.clip.spec_admits(i % (v.width as int), i / (v.width as int)),
        spec_line_covers(
            v.state.transform.spec_map_point(start),
            v.state.transform.spec_map_point(end),
            width,
            i % (v.width as int),
            i / (v.width as int),
        ),
    ensures
        spec_draw_line(v, start, end, width, color).pixels[i] == spec_blend(v.pixels[i], color),
{
    let s = v.state.transform.spec_map_point(start);
    let e = v.state.transform.spec_map_point(end);
    lemma_line_box_holds_covered(s, e, width, i % (v.width as int), i / (v.width as int));
    lemma_paint_reaches_covered(
        v,
        spec_line_bounds(s, e, width),
        Coverage::Line { start: s, end: e, width: width as i32 },
        color,
        i,
    );
}

/// Filling a rectangle or a rounded rectangle paints every pixel of the buffer that the clip
/// admits and whose center lies in the shape, placed by the current transform.
pub proof fn lemma_fill_rects_complete(v: RasterView, command: FillCommand, i: int)
    requires
        v.wf(),
        0 <= i < v.pixels.len(),
        v.state.clip.spec_admits(i % (v.width as int), i / (v.width as int)),
        match command.shape {
            FillShape::Rect(rect) => v.state.transform.spec_map_rect(rect).spec_contains(
                i % (v.width as int),
                i / (v.width as int),
            ),
            FillShape::RoundRect { rect, radius } => {
                let m = v.state.transform.spec_map_rect(rect);
                spec_round_rect_covers(
                    m,
                    spec_corner_radius2(m, radius as int),
                    i % (v.width as int),
                    i / (v.width as int),
                )
            },
            _ => false,
        },
    ensures
        spec_fill(v, command).pixels[i] == spec_blend(v.pixels[i], command.fill.paint.color),
{
    let color = command.fill.paint.color;
    match command.shape {
        FillShape::Rect(rect) => {
            let m = v.state.transform.spec_map_rect(rect);
            lemma_paint_reaches_covered(v, m, Coverage::Full, color, i);
        },
        FillShape::RoundRect { rect, radius } => {
            let m = v.state.transform.spec_map_rect(rect);
            lemma_paint_reaches_covered(
                v,
                m,
                Coverage::RoundRect { rect: m, radius2: spec_corner_radius2(m, radius as int) as i64 },
                color,
                i,
            );
        },
        _ => {},
    }
}
} // verus!
