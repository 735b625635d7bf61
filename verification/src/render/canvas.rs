use vstd::prelude::*;
use crate::color::Color;
use crate::geometry::{Point, Rect, Size};
use crate::layout::max_i32;
use crate::render::model::{
    ClearCommand, ClipCommand, ClipPrimitive, Fill, FillCommand, FillShape, ImageCommand,
    ImageSource, Paint, RenderCommand, RenderFrame, StateCommand, StrokeCommand, StrokeShape,
    TextCommand, Transform, TransformCommand,
};
use crate::render::style::{Stroke, TextMetrics, TextStyle};
use crate::render::text::{measure_text, spec_measure_text};

verus! {

/// The command recorded for a text draw.
pub open spec fn is_text_command(
    command: RenderCommand,
    position: Point,
    text: Seq<char>,
    style: TextStyle,
    color: Color,
) -> bool {
    command matches RenderCommand::Text(t) && t.position == position && t.text@ == text && t.style
        == style && t.paint == (Paint { color })
}

pub open spec fn fill_command(shape: FillShape, color: Color) -> RenderCommand {
    RenderCommand::Fill(FillCommand { shape, fill: Fill { paint: Paint { color } } })
}

pub open spec fn nonneg(v: i32) -> i32 {
    if v >= 0 {
        v
    } else {
        0
    }
}

/// The drawing surface handed to widgets: every call records one command, in order.
pub struct Canvas {
    size: Size,
    commands: Vec<RenderCommand>,
}

/// A sink for low-level commands, used by `Canvas::experimental_raw`.
pub struct RawCanvas {
    commands: Vec<RenderCommand>,
}

impl RawCanvas {
    pub closed spec fn spec_commands(&self) -> Seq<RenderCommand> {
        self.commands@
    }

    pub fn push(&mut self, command: RenderCommand)
        ensures
            final(self).spec_commands() == old(self).spec_commands().push(command),
    {
        self.commands.push(command);
    }

    pub fn clear(&mut self, color: Color)
        ensures
            final(self).spec_commands() == old(self).spec_commands().push(
                RenderCommand::Clear(ClearCommand { paint: Paint { color } }),
            ),
    {
        self.push(RenderCommand::Clear(ClearCommand { paint: Paint::solid(color) }));
    }

    pub fn fill_rect(&mut self, rect: Rect, color: Color)
        ensures
            final(self).spec_commands() == old(self).spec_commands().push(
                fill_command(FillShape::Rect(rect), color),
            ),
    {
        self.push(
            RenderCommand::Fill(FillCommand { shape: FillShape::Rect(rect), fill: Fill::solid(color) }),
        );
    }

    /// Records a rounded rectangle; a negative radius becomes zero.
    pub fn fill_round_rect(&mut self, rect: Rect, radius: i32, color: Color)
        ensures
            final(self).spec_commands() == old(self).spec_commands().push(
                fill_command(FillShape::RoundRect { rect, radius: nonneg(radius) }, color),
            ),
    {
        self.push(
            RenderCommand::Fill(
                FillCommand {
                    shape: FillShape::RoundRect { rect, radius: max_i32(radius, 0) },
                    fill: Fill::solid(color),
                },
            ),
        );
    }

    /// Records a circle; a negative radius becomes zero.
    pub fn fill_circle(&mut self, center: Point, radius: i32, color: Color)
        ensures
            final(self).spec_commands() == old(self).spec_commands().push(
                fill_command(FillShape::Circle { center, radius: nonneg(radius) }, color),
            ),
    {
        self.push(
            RenderCommand::Fill(
                FillCommand {
                    shape: FillShape::Circle { center, radius: max_i32(radius, 0) },
                    fill: Fill::solid(color),
                },
            ),
        );
    }

    /// Records an ellipse; negative radii become zero.
    pub fn fill_ellipse(&mut self, center: Point, radius_x: i32, radius_y: i32, color: Color)
        ensures
            final(self).spec_commands() == old(self).spec_commands().push(
                fill_command(
                    FillShape::Ellipse {
                        center,
                        radius_x: nonneg(radius_x),
                        radius_y: nonneg(radius_y),
                    },
                    color,
                ),
            ),
    {
        self.push(
            RenderCommand::Fill(
                FillCommand {
                    shape: FillShape::Ellipse {
                        center,
                        radius_x: max_i32(radius_x, 0),
                        radius_y: max_i32(radius_y, 0),
                    },
                    fill: Fill::solid(color),
                },
            ),
        );
    }

    pub fn stroke_line(&mut self, start: Point, end: Point, stroke: Stroke, color: Color)
        ensures
            final(self).spec_commands() == old(self).spec_commands().push(
                RenderCommand::Stroke(
                    StrokeCommand {
                        shape: StrokeShape::Line { start, end },
                        stroke,
                        paint: Paint { color },
                    },
                ),
            ),
    {
        self.push(
            RenderCommand::Stroke(
                StrokeCommand {
                    shape: StrokeShape::Line { start, end },
                    stroke,
                    paint: Paint::solid(color),
                },
            ),
        );
    }

    pub fn draw_text(&mut self, position: Point, text: &str, style: TextStyle, color: Color)
        ensures
            final(self).spec_commands().len() == old(self).spec_commands().len() + 1,
            final(self).spec_commands().drop_last() == old(self).spec_commands(),
            is_text_command(final(self).spec_commands().last(), position, text@, style, color),
    {
        self.push(
            RenderCommand::Text(
                TextCommand {
                    position,
                    text: String::from_str(text),
                    style,
                    paint: Paint::solid(color),
                },
            ),
        );
        proof {
            assert(self.commands@.drop_last() =~= old(self).commands@);
        }
    }

    pub fn image_placeholder(&mut self, rect: Rect, color: Color)
        ensures
            final(self).spec_commands() == old(self).spec_commands().push(
                RenderCommand::Image(
                    ImageCommand { rect, source: ImageSource::Placeholder, paint: Paint { color } },
                ),
            ),
    {
        self.push(
            RenderCommand::Image(
                ImageCommand { rect, source: ImageSource::Placeholder, paint: Paint::solid(color) },
            ),
        );
    }

    pub fn clip_rect(&mut self, rect: Rect)
        ensures
            final(self).spec_commands() == old(self).spec_commands().push(
                RenderCommand::Clip(ClipCommand { primitive: ClipPrimitive::Rect(rect) }),
            ),
    {
        self.push(RenderCommand::Clip(ClipCommand { primitive: ClipPrimitive::Rect(rect) }));
    }

    pub fn save(&mut self)
        ensures
            final(self).spec_commands() == old(self).spec_commands().push(
                RenderCommand::State(StateCommand::Save),
            ),
    {
        self.push(RenderCommand::State(StateCommand::Save));
    }

    pub fn restore(&mut self)
        ensures
            final(self).spec_commands() == old(self).spec_commands().push(
                RenderCommand::State(StateCommand::Restore),
            ),
    {
        self.push(RenderCommand::State(StateCommand::Restore));
    }

    pub fn translate(&mut self, dx: i32, dy: i32)
        ensures
            final(self).spec_commands() == old(self).spec_commands().push(
                RenderCommand::Transform(
                    TransformCommand { transform: Transform { translate_x: dx, translate_y: dy } },
                ),
            ),
    {
        self.push(
            RenderCommand::Transform(TransformCommand { transform: Transform::translation(dx, dy) }),
        );
    }
}

impl Canvas {
    pub closed spec fn spec_size(&self) -> Size {
        self.size
    }

    pub closed spec fn spec_commands(&self) -> Seq<RenderCommand> {
        self.commands@
    }

    pub fn new(size: Size) -> (c: Self)
        ensures
            c.spec_size() == size,
            c.spec_commands() == Seq::<RenderCommand>::empty(),
    {
        Canvas { size, commands: Vec::new() }
    }

    pub fn size(&self) -> (s: Size)
        ensures
            s == self.spec_size(),
    {
        self.size
    }

    pub fn measure_text(&self, text: &str, style: &TextStyle) -> (m: TextMetrics)
        ensures
            m == spec_measure_text(text@, *style),
    {
        measure_text(text, style)
    }

    /// Runs `f` against a raw command sink holding this canvas's commands, and keeps what the
    /// sink holds afterwards.
    pub fn experimental_raw<F: FnOnce(&mut RawCanvas)>(&mut self, f: F)
        requires
            forall|raw: &mut RawCanvas| f.requires((raw,)),
        ensures
            final(self).spec_size() == old(self).spec_size(),
            exists|raw: &mut RawCanvas|
                {
                    &&& raw.spec_commands() == old(self).spec_commands()
                    &&& #[trigger] f.ensures((raw,), ())
                    &&& final(raw).spec_commands() == final(self).spec_commands()
                },
    {
        let mut commands: Vec<RenderCommand> = Vec::new();
        std::mem::swap(&mut commands, &mut self.commands);
        let mut raw = RawCanvas { commands };
        f(&mut raw);
        self.commands = raw.commands;
    }

    fn raw(&mut self) -> (r: RawCanvas)
        ensures
            r.spec_commands() == old(self).spec_commands(),
            final(self).spec_size() == old(self).spec_size(),
    {
        let mut commands: Vec<RenderCommand> = Vec::new();
        std::mem::swap(&mut commands, &mut self.commands);
        RawCanvas { commands }
    }

    fn put_back(&mut self, raw: RawCanvas)
        ensures
            final(self).spec_commands() == raw.spec_commands(),
            final(self).spec_size() == old(self).spec_size(),
    {
        self.commands = raw.commands;
    }

    pub fn clear(&mut self, color: Color)
        ensures
            final(self).spec_size() == old(self).spec_size(),
            final(self).spec_commands() == old(self).spec_commands().push(
                RenderCommand::Clear(ClearCommand { paint: Paint { color } }),
            ),
    {
        let mut raw = self.raw();
        raw.clear(color);
        self.put_back(raw);
    }

    pub fn rect(&mut self, rect: Rect, color: Color)
        ensures
            final(self).spec_size() == old(self).spec_size(),
            final(self).spec_commands() == old(self).spec_commands().push(
                fill_command(FillShape::Rect(rect), color),
            ),
    {
        let mut raw = self.raw();
        raw.fill_rect(rect, color);
        self.put_back(raw);
    }

    pub fn round_rect(&mut self, rect: Rect, radius: i32, color: Color)
        ensures
            final(self).spec_size() == old(self).spec_size(),
            final(self).spec_commands() == old(self).spec_commands().push(
                fill_command(FillShape::RoundRect { rect, radius: nonneg(radius) }, color),
            ),
    {
        let mut raw = self.raw();
        raw.fill_round_rect(rect, radius, color);
        self.put_back(raw);
    }

    pub fn line(&mut self, start: Point, end: Point, stroke: Stroke, color: Color)
        ensures
            final(self).spec_size() == old(self).spec_size(),
            final(self).spec_commands() == old(self).spec_commands().push(
                RenderCommand::Stroke(
                    StrokeCommand {
                        shape: StrokeShape::Line { start, end },
                        stroke,
                        paint: Paint { color },
                    },
                ),
            ),
    {
        let mut raw = self.raw();
        raw.stroke_line(start, end, stroke, color);
        self.put_back(raw);
    }

    pub fn circle(&mut self, center: Point, radius: i32, color: Color)
        ensures
            final(self).spec_size() == old(self).spec_size(),
            final(self).spec_commands() == old(self).spec_commands().push(
                fill_command(FillShape::Circle { center, radius: nonneg(radius) }, color),
            ),
    {
        let mut raw = self.raw();
        raw.fill_circle(center, radius, color);
        self.put_back(raw);
    }

    pub fn ellipse(&mut self, center: Point, radius_x: i32, radius_y: i32, color: Color)
        ensures
            final(self).spec_size() == old(self).spec_size(),
            final(self).spec_commands() == old(self).spec_commands().push(
                fill_command(
                    FillShape::Ellipse {
                        center,
                        radius_x: nonneg(radius_x),
                        radius_y: nonneg(radius_y),
                    },
                    color,
                ),
            ),
    {
        let mut raw = self.raw();
        raw.fill_ellipse(center, radius_x, radius_y, color);
        self.put_back(raw);
    }

    pub fn text(&mut self, position: Point, text: &str, style: TextStyle, color: Color)
        ensures
            final(self).spec_size() == old(self).spec_size(),
            final(self).spec_commands().len() == old(self).spec_commands().len() + 1,
            final(self).spec_commands().drop_last() == old(self).spec_commands(),
            is_text_command(final(self).spec_commands().last(), position, text@, style, color),
    {
        let mut raw = self.raw();
        raw.draw_text(position, text, style, color);
        self.put_back(raw);
    }

    pub fn image_placeholder(&mut self, rect: Rect, color: Color)
        ensures
            final(self).spec_size() == old(self).spec_size(),
            final(self).spec_commands() == old(self).spec_commands().push(
                RenderCommand::Image(
                    ImageCommand { rect, source: ImageSource::Placeholder, paint: Paint { color } },
                ),
            ),
    {
        let mut raw = self.raw();
        raw.image_placeholder(rect, color);
        self.put_back(raw);
    }

    pub fn clip_rect(&mut self, rect: Rect)
        ensures
            final(self).spec_size() == old(self).spec_size(),
            final(self).spec_commands() == old(self).spec_commands().push(
                RenderCommand::Clip(ClipCommand { primitive: ClipPrimitive::Rect(rect) }),
            ),
    {
        let mut raw = self.raw();
        raw.clip_rect(rect);
        self.put_back(raw);
    }

    pub fn save(&mut self)
        ensures
            final(self).spec_size() == old(self).spec_size(),
            final(self).spec_commands() == old(self).spec_commands().push(
                RenderCommand::State(StateCommand::Save),
            ),
    {
        let mut raw = self.raw();
        raw.save();
        self.put_back(raw);
    }

    pub fn restore(&mut self)
        ensures
            final(self).spec_size() == old(self).spec_size(),
            final(self).spec_commands() == old(self).spec_commands().push(
                RenderCommand::State(StateCommand::Restore),
            ),
    {
        let mut raw = self.raw();
        raw.restore();
        self.put_back(raw);
    }

    pub fn translate(&mut self, dx: i32, dy: i32)
        ensures
            final(self).spec_size() == old(self).spec_size(),
            final(self).spec_commands() == old(self).spec_commands().push(
                RenderCommand::Transform(
                    TransformCommand { transform: Transform { translate_x: dx, translate_y: dy } },
                ),
            ),
    {
        let mut raw = self.raw();
        raw.translate(dx, dy);
        self.put_back(raw);
    }

    pub fn into_frame(self) -> (f: RenderFrame)
        ensures
            f.spec_size() == self.spec_size(),
            f.spec_commands() == self.spec_commands(),
    {
        RenderFrame::new(self.size, self.commands)
    }
}

} // verus!
