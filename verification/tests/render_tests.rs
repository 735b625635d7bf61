use widgetkit::color::Color;
use widgetkit::error::Error;
use widgetkit::geometry::{Point, Rect, Size};
use widgetkit::render::canvas::{Canvas, RawCanvas};
use widgetkit::render::frame::{intersect_rect, ClipState, Frame};
use widgetkit::render::model::{
    ClearCommand, ClipCommand, ClipPrimitive, Fill, FillCommand, FillShape, Paint, RenderCommand,
    RenderFrame, StateCommand, Transform, TransformCommand,
};
use widgetkit::render::raster::{blend, Rasterizer};
use widgetkit::render::style::{Stroke, TextAlign, TextBaseline, TextStyle};
use widgetkit::render::text::TextLayout;
use widgetkit::render::surface::{RenderSurface, Renderer, SoftwareRenderer};

#[derive(Default)]
struct MemorySurface {
    size: (u32, u32),
    pixels: Vec<Color>,
}

impl MemorySurface {
    fn new(width: u32, height: u32) -> Self {
        Self {
            size: (width, height),
            pixels: Vec::new(),
        }
    }
}

impl RenderSurface for MemorySurface {
    fn size(&self) -> (u32, u32) {
        self.size
    }

    fn present(&mut self, pixels: &[Color]) -> Result<(), Error> {
        self.pixels.clear();
        self.pixels.extend_from_slice(pixels);
        Ok(())
    }
}

fn render(canvas: Canvas, width: u32, height: u32) -> Vec<Color> {
    let mut renderer = SoftwareRenderer::new();
    let mut surface = MemorySurface::new(width, height);
    renderer
        .render_frame(canvas.into_frame(), &mut surface)
        .unwrap();
    surface.pixels
}

fn rasterize(frame: RenderFrame, width: u32, height: u32) -> Vec<Color> {
    let pixels = vec![Color::transparent(); (width * height) as usize];
    let surface_frame = Frame::new(width, height, pixels);
    let mut raster = Rasterizer::new(surface_frame);
    raster.execute(frame);
    raster.into_frame().into_pixels()
}

#[test]
fn canvas_builds_expected_command_sequence() {
    let mut canvas = Canvas::new(Size::new(64, 64));
    canvas.clear(Color::black());
    canvas.save();
    canvas.clip_rect(Rect::xywh(2, 2, 10, 10));
    canvas.translate(4, 3);
    canvas.rect(Rect::xywh(0, 0, 8, 8), Color::rgb(255, 0, 0));
    canvas.restore();
    canvas.text(
        Point::new(2, 20),
        "ok",
        TextStyle::new().baseline(TextBaseline::Alphabetic),
        Color::white(),
    );

    let frame = canvas.into_frame();
    assert_eq!(frame.size(), Size::new(64, 64));
    assert_eq!(frame.commands().len(), 7);
    assert!(matches!(
        frame.commands()[0],
        RenderCommand::Clear(ClearCommand { .. })
    ));
    assert!(matches!(
        frame.commands()[1],
        RenderCommand::State(StateCommand::Save)
    ));
    assert!(matches!(
        frame.commands()[2],
        RenderCommand::Clip(ClipCommand {
            primitive: ClipPrimitive::Rect(_)
        })
    ));
    assert!(matches!(
        frame.commands()[3],
        RenderCommand::Transform(TransformCommand { .. })
    ));
    assert!(matches!(
        frame.commands()[4],
        RenderCommand::Fill(FillCommand {
            shape: FillShape::Rect(_),
            ..
        })
    ));
    assert!(matches!(
        frame.commands()[5],
        RenderCommand::State(StateCommand::Restore)
    ));
    assert!(matches!(frame.commands()[6], RenderCommand::Text(_)));
}

#[test]
fn renderer_consumes_render_frame_contract() {
    let mut canvas = Canvas::new(Size::new(64, 64));
    canvas.clear(Color::black());
    canvas.rect(Rect::xywh(4, 4, 20, 10), Color::rgb(255, 0, 0));
    canvas.round_rect(Rect::xywh(30, 4, 20, 20), 6, Color::rgb(0, 255, 0));
    canvas.ellipse(Point::new(16, 40), 10, 6, Color::rgb(255, 200, 0));
    canvas.text(
        Point::new(32, 56),
        "Hi",
        TextStyle::new()
            .size(16)
            .align(TextAlign::Center)
            .baseline(TextBaseline::Bottom),
        Color::white(),
    );

    let pixels = render(canvas, 64, 64);

    assert_eq!(pixels.len(), 64 * 64);
    assert_eq!(pixels[0], Color::black());
    assert_eq!(pixels[5 * 64 + 5], Color::rgb(255, 0, 0));
    assert_eq!(pixels[10 * 64 + 40], Color::rgb(0, 255, 0));
    assert_eq!(pixels[40 * 64 + 8], Color::rgb(255, 200, 0));
    assert!(pixels.iter().any(|pixel| *pixel == Color::white()));
}

#[test]
fn image_placeholder_marks_target_area() {
    let mut canvas = Canvas::new(Size::new(32, 32));
    canvas.clear(Color::black());
    canvas.image_placeholder(Rect::xywh(4, 4, 20, 20), Color::white());

    let pixels = render(canvas, 32, 32);

    assert_eq!(pixels[4 * 32 + 4], Color::white());
    assert_eq!(pixels[23 * 32 + 23], Color::white());
}

#[test]
fn canvas_save_restore_clip_and_translation_are_applied() {
    let mut canvas = Canvas::new(Size::new(24, 24));
    canvas.clear(Color::black());
    canvas.save();
    canvas.clip_rect(Rect::xywh(6, 6, 6, 6));
    canvas.translate(4, 0);
    canvas.rect(Rect::xywh(4, 6, 8, 8), Color::white());
    canvas.restore();
    canvas.rect(Rect::xywh(0, 0, 2, 2), Color::rgb(255, 0, 0));

    let pixels = render(canvas, 24, 24);

    assert_eq!(pixels[7 * 24 + 9], Color::white());
    assert_eq!(pixels[7 * 24 + 5], Color::black());
    assert_eq!(pixels[0], Color::rgb(255, 0, 0));
}

#[test]
fn measure_text_reports_layout_metrics() {
    let canvas = Canvas::new(Size::new(64, 64));
    let metrics = canvas.measure_text(
        "AB\nC",
        &TextStyle::new()
            .size(16)
            .line_height(20)
            .align(TextAlign::Center)
            .baseline(TextBaseline::Alphabetic),
    );

    assert_eq!(metrics.width, 32);
    assert_eq!(metrics.height, 40);
    assert_eq!(metrics.line_height, 20);
    assert_eq!(metrics.baseline, 14);
    assert_eq!(metrics.line_count, 2);
}

#[test]
fn clipped_text_draw_stays_inside_the_clip_region() {
    let mut canvas = Canvas::new(Size::new(24, 24));
    canvas.clear(Color::black());
    canvas.save();
    canvas.clip_rect(Rect::xywh(8, 8, 4, 4));
    canvas.text(Point::new(8, 8), "A", TextStyle::new(), Color::white());
    canvas.restore();

    let pixels = render(canvas, 24, 24);

    let mut white_inside_clip = 0usize;
    let mut white_outside_clip = 0usize;

    for y in 0..24 {
        for x in 0..24 {
            if pixels[y * 24 + x] != Color::white() {
                continue;
            }

            if (8..12).contains(&x) && (8..12).contains(&y) {
                white_inside_clip += 1;
            } else {
                white_outside_clip += 1;
            }
        }
    }

    assert!(white_inside_clip > 0);
    assert_eq!(white_outside_clip, 0);
}

#[test]
fn experimental_raw_sink_can_emit_low_level_commands() {
    let mut canvas = Canvas::new(Size::new(16, 16));
    canvas.experimental_raw(|raw: &mut RawCanvas| {
        raw.clear(Color::black());
        raw.save();
        raw.clip_rect(Rect::xywh(4, 4, 4, 4));
        raw.translate(2, 0);
        raw.fill_rect(Rect::xywh(2, 4, 4, 4), Color::white());
        raw.restore();
    });

    let frame = canvas.into_frame();
    assert_eq!(frame.commands().len(), 6);

    let pixels = rasterize(frame, 16, 16);

    assert_eq!(pixels[5 * 16 + 5], Color::white());
    assert_eq!(pixels[5 * 16 + 3], Color::black());
    assert_eq!(pixels[5 * 16 + 8], Color::black());
}

#[test]
fn manual_render_frame_executes_raw_commands() {
    let frame = RenderFrame::new(
        Size::new(16, 16),
        vec![
            RenderCommand::Clear(ClearCommand {
                paint: Paint::solid(Color::black()),
            }),
            RenderCommand::State(StateCommand::Save),
            RenderCommand::Clip(ClipCommand {
                primitive: ClipPrimitive::Rect(Rect::xywh(4, 4, 4, 4)),
            }),
            RenderCommand::Transform(TransformCommand {
                transform: Transform::translation(2, 0),
            }),
            RenderCommand::Fill(FillCommand {
                shape: FillShape::Rect(Rect::xywh(2, 4, 4, 4)),
                fill: Fill::solid(Color::white()),
            }),
            RenderCommand::State(StateCommand::Restore),
        ],
    );

    let pixels = rasterize(frame, 16, 16);

    assert_eq!(pixels[5 * 16 + 5], Color::white());
    assert_eq!(pixels[5 * 16 + 3], Color::black());
    assert_eq!(pixels[5 * 16 + 8], Color::black());
}

#[test]
fn blend_mixes_translucent_colors() {
    let dst = Color::rgb(0, 0, 255);
    assert_eq!(blend(dst, Color::rgb(255, 0, 0)), Color::rgb(255, 0, 0));
    assert_eq!(blend(dst, Color::rgba(255, 0, 0, 0)), dst);
    assert_eq!(
        blend(dst, Color::rgba(255, 0, 0, 128)),
        Color::rgba(128, 0, 127, 255)
    );
    assert_eq!(
        blend(Color::transparent(), Color::rgba(10, 20, 30, 100)),
        Color::rgba(10, 20, 30, 100)
    );
}

#[test]
fn circle_and_line_cover_pixel_centers() {
    let mut canvas = Canvas::new(Size::new(16, 16));
    canvas.clear(Color::black());
    canvas.circle(Point::new(8, 8), 3, Color::white());
    canvas.line(Point::new(0, 14), Point::new(15, 14), Stroke::new(1), Color::rgb(255, 0, 0));
    let pixels = render(canvas, 16, 16);
    assert_eq!(pixels[8 * 16 + 8], Color::white());
    assert_eq!(pixels[8 * 16 + 10], Color::white());
    assert_eq!(pixels[8 * 16 + 11], Color::black());
    assert_eq!(pixels[5 * 16 + 5], Color::black());
    assert_eq!(pixels[14 * 16 + 3], Color::rgb(255, 0, 0));
    assert_eq!(pixels[13 * 16 + 3], Color::rgb(255, 0, 0));
    assert_eq!(pixels[12 * 16 + 3], Color::black());
}

#[test]
fn renderer_keeps_its_buffer_between_frames_of_the_same_size() {
    let mut renderer = SoftwareRenderer::new();
    let mut canvas = Canvas::new(Size::new(4, 4));
    canvas.clear(Color::white());
    renderer.render_pixels(canvas.into_frame(), 4, 4).unwrap();
    let mut canvas = Canvas::new(Size::new(4, 4));
    canvas.rect(Rect::xywh(0, 0, 1, 1), Color::black());
    renderer.render_pixels(canvas.into_frame(), 4, 4).unwrap();
    assert_eq!(renderer.pixels()[0], Color::black());
    assert_eq!(renderer.pixels()[1], Color::white());
    renderer.render_pixels(Canvas::new(Size::new(2, 2)).into_frame(), 2, 2).unwrap();
    assert_eq!(renderer.pixels().len(), 4);
}

#[test]
fn glyphs_come_from_the_basic_font() {
    let mut canvas = Canvas::new(Size::new(16, 16));
    canvas.clear(Color::black());
    canvas.text(Point::new(0, 0), "\u{e9}", TextStyle::new().size(8), Color::white());
    let pixels = render(canvas, 16, 16);
    assert!(pixels.iter().all(|pixel| *pixel == Color::black()));

    let mut canvas = Canvas::new(Size::new(16, 16));
    canvas.clear(Color::black());
    canvas.text(Point::new(0, 0), "|", TextStyle::new().size(8), Color::white());
    let pixels = render(canvas, 16, 16);
    let lit = pixels.iter().filter(|pixel| **pixel == Color::white()).count();
    assert!(lit > 0 && lit < 64);
}

#[test]
fn disjoint_clips_leave_an_empty_clip() {
    let a = Rect::xywh(0, 0, 10, 10);
    let b = Rect::xywh(5, 5, 10, 10);
    assert_eq!(intersect_rect(a, b), Some(Rect::xywh(5, 5, 5, 5)));
    assert_eq!(intersect_rect(b, a), intersect_rect(a, b));
    assert_eq!(intersect_rect(a, Rect::xywh(20, 20, 1, 1)), None);
    let clip = ClipState::none().intersect(a);
    assert_eq!(clip.rect(), Some(a));
    assert_eq!(clip.intersect(b).rect(), Some(Rect::xywh(5, 5, 5, 5)));
    assert_eq!(
        clip.intersect(Rect::xywh(20, 20, 1, 1)).rect(),
        Some(Rect::xywh(0, 0, 0, 0))
    );
}

#[test]
fn drawing_under_disjoint_clips_changes_nothing() {
    let mut canvas = Canvas::new(Size::new(16, 16));
    canvas.clear(Color::black());
    canvas.save();
    canvas.clip_rect(Rect::xywh(0, 0, 2, 2));
    canvas.clip_rect(Rect::xywh(10, 10, 2, 2));
    canvas.rect(Rect::xywh(0, 0, 16, 16), Color::white());
    canvas.text(Point::new(0, 0), "A", TextStyle::new(), Color::white());
    canvas.restore();
    let pixels = render(canvas, 16, 16);
    assert!(pixels.iter().all(|pixel| *pixel == Color::black()));
}

#[test]
fn round_rect_corners_are_cut() {
    let mut canvas = Canvas::new(Size::new(64, 64));
    canvas.clear(Color::black());
    canvas.round_rect(Rect::xywh(30, 4, 20, 20), 6, Color::rgb(0, 255, 0));
    let pixels = render(canvas, 64, 64);
    assert_eq!(pixels[4 * 64 + 30], Color::black());
    assert_eq!(pixels[7 * 64 + 33], Color::rgb(0, 255, 0));
    assert_eq!(pixels[4 * 64 + 40], Color::rgb(0, 255, 0));
    assert_eq!(pixels[23 * 64 + 49], Color::black());
}

#[test]
fn draw_glyph_scales_each_set_bit() {
    let frame = Frame::new(8, 8, vec![Color::black(); 64]);
    let mut raster = Rasterizer::new(frame);
    let mut bits = [0u8; 8];
    bits[0] = 0b0000_0001;
    bits[1] = 0b0000_0100;
    raster.draw_glyph(bits, 0, 0, 2, Color::white());
    let pixels = raster.into_frame().into_pixels();
    let lit: Vec<usize> = (0..64).filter(|i| pixels[*i] == Color::white()).collect();
    assert_eq!(lit, vec![0, 1, 8, 9, 2 * 8 + 4, 2 * 8 + 5, 3 * 8 + 4, 3 * 8 + 5]);
}

#[test]
fn executing_frames_in_turn_equals_executing_them_joined() {
    let first = vec![
        RenderCommand::Clear(ClearCommand {
            paint: Paint::solid(Color::black()),
        }),
        RenderCommand::Transform(TransformCommand {
            transform: Transform::translation(1, 1),
        }),
    ];
    let second = vec![RenderCommand::Fill(FillCommand {
        shape: FillShape::Rect(Rect::xywh(0, 0, 2, 2)),
        fill: Fill::solid(Color::rgba(255, 255, 255, 100)),
    })];

    let mut raster = Rasterizer::new(Frame::new(4, 4, vec![Color::transparent(); 16]));
    raster.execute(RenderFrame::new(Size::new(4, 4), first.clone()));
    raster.execute(RenderFrame::new(Size::new(4, 4), second.clone()));
    let in_turn = raster.into_frame().into_pixels();

    let mut joined = first;
    joined.extend(second);
    let at_once = rasterize(RenderFrame::new(Size::new(4, 4), joined), 4, 4);

    assert_eq!(in_turn, at_once);
    assert_eq!(at_once[5], blend(Color::black(), Color::rgba(255, 255, 255, 100)));
    assert_eq!(at_once[0], Color::black());
}

#[test]
fn middle_baseline_rounds_half_rows_away_from_zero() {
    let style = TextStyle::new()
        .size(8)
        .line_height(9)
        .baseline(TextBaseline::Middle);
    assert_eq!(TextLayout::new(Point::new(0, 10), "A", &style).origin(), Point::new(0, 6));
    assert_eq!(TextLayout::new(Point::new(0, -3), "A", &style).origin(), Point::new(0, -8));
    assert_eq!(TextLayout::new(Point::new(0, 5), "A\nB", &style).origin(), Point::new(0, -4));
}

#[test]
fn balanced_saves_restore_the_outer_clip_and_transform() {
    let mut canvas = Canvas::new(Size::new(16, 16));
    canvas.clear(Color::black());
    canvas.save();
    canvas.clip_rect(Rect::xywh(0, 0, 4, 4));
    canvas.save();
    canvas.translate(3, 3);
    canvas.clip_rect(Rect::xywh(0, 0, 4, 4));
    canvas.restore();
    canvas.translate(1, 1);
    canvas.restore();
    canvas.restore();
    canvas.rect(Rect::xywh(8, 8, 2, 2), Color::white());
    let pixels = render(canvas, 16, 16);
    assert_eq!(pixels[8 * 16 + 8], Color::white());
    assert_eq!(pixels[9 * 16 + 9], Color::white());
    assert_eq!(pixels[10 * 16 + 10], Color::black());
}
