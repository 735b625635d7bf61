use vstd::prelude::*;
use crate::color::Color;
use crate::geometry::{sat_add, saturate, Point, Rect, Size};
use crate::render::style::{Stroke, TextStyle};

verus! {

/// A frame for a renderer backend: the canvas size and the commands recorded on it.
#[derive(Clone, Debug)]
pub struct RenderFrame {
    size: Size,
    commands: Vec<RenderCommand>,
}

impl RenderFrame {
    pub closed spec fn spec_size(&self) -> Size {
        self.size
    }

    pub closed spec fn spec_commands(&self) -> Seq<RenderCommand> {
        self.commands@
    }

    pub fn new(size: Size, commands: Vec<RenderCommand>) -> (f: Self)
        ensures
            f.spec_size() == size,
            f.spec_commands() == commands@,
    {
        RenderFrame { size, commands }
    }

    pub fn size(&self) -> (s: Size)
        ensures
            s == self.spec_size(),
    {
        self.size
    }

    pub fn commands(&self) -> (c: &[RenderCommand])
        ensures
            c@ == self.spec_commands(),
    {
        self.commands.as_slice()
    }

    pub fn into_commands(self) -> (c: Vec<RenderCommand>)
        ensures
            c@ == self.spec_commands(),
    {
        self.commands
    }

    pub fn into_parts(self) -> (parts: (Size, Vec<RenderCommand>))
        ensures
            parts.0 == self.spec_size(),
            parts.1@ == self.spec_commands(),
    {
        (self.size, self.commands)
    }
}

/// One low-level drawing command.
#[derive(Clone, Debug)]
pub enum RenderCommand {
    Clear(ClearCommand),
    Fill(FillCommand),
    Stroke(StrokeCommand),
    Text(TextCommand),
    Image(ImageCommand),
    Clip(ClipCommand),
    Transform(TransformCommand),
    State(StateCommand),
}

#[derive(Clone, Copy, Debug, PartialEq, Eq, Structural)]
pub struct Paint {
    pub color: Color,
}

impl Paint {
    pub fn solid(color: Color) -> (p: Self)
        ensures
            p.color == color,
    {
        Paint { color }
    }
}

#[derive(Clone, Copy, Debug, PartialEq, Eq, Structural)]
pub struct ClearCommand {
    pub paint: Paint,
}

#[derive(Clone, Copy, Debug, PartialEq, Eq, Structural)]
pub struct Fill {
    pub paint: Paint,
}

impl Fill {
    pub fn solid(color: Color) -> (f: Self)
        ensures
            f.paint.color == color,
    {
        Fill { paint: Paint::solid(color) }
    }
}

#[derive(Clone, Copy, Debug, PartialEq, Eq, Structural)]
pub struct FillCommand {
    pub shape: FillShape,
    pub fill: Fill,
}

#[derive(Clone, Copy, Debug, PartialEq, Eq, Structural)]
pub enum FillShape {
    Rect(Rect),
    RoundRect { rect: Rect, radius: i32 },
    Circle { center: Point, radius: i32 },
    Ellipse { center: Point, radius_x: i32, radius_y: i32 },
}

#[derive(Clone, Copy, Debug, PartialEq, Eq, Structural)]
pub struct StrokeCommand {
    pub shape: StrokeShape,
    pub stroke: Stroke,
    pub paint: Paint,
}

#[derive(Clone, Copy, Debug, PartialEq, Eq, Structural)]
pub enum StrokeShape {
    Line { start: Point, end: Point },
}

#[derive(Clone, Debug)]
pub struct TextCommand {
    pub position: Point,
    pub text: String,
    pub style: TextStyle,
    pub paint: Paint,
}

#[derive(Clone, Copy, Debug, PartialEq, Eq, Structural)]
pub struct ImageCommand {
    pub rect: Rect,
    pub source: ImageSource,
    pub paint: Paint,
}

#[derive(Clone, Copy, Debug, PartialEq, Eq, Structural)]
pub enum ImageSource {
    Placeholder,
}

#[derive(Clone, Copy, Debug, PartialEq, Eq, Structural)]
pub struct ClipCommand {
    pub primitive: ClipPrimitive,
}

#[derive(Clone, Copy, Debug, PartialEq, Eq, Structural)]
pub enum ClipPrimitive {
    Rect(Rect),
}

/// A translation.
#[derive(Clone, Copy, Debug, PartialEq, Eq, Structural)]
pub struct Transform {
    pub translate_x: i32,
    pub translate_y: i32,
}

impl Transform {
    pub open spec fn identity() -> Transform {
        Transform { translate_x: 0, translate_y: 0 }
    }

    pub fn translation(x: i32, y: i32) -> (t: Self)
        ensures
            t == (Transform { translate_x: x, translate_y: y }),
    {
        Transform { translate_x: x, translate_y: y }
    }

    /// This translation followed by `next`.
    pub open spec fn spec_followed_by(self, next: Transform) -> Transform {
        Transform {
            translate_x: saturate(self.translate_x + next.translate_x) as i32,
            translate_y: saturate(self.translate_y + next.translate_y) as i32,
        }
    }

    pub fn followed_by(self, next: Self) -> (t: Self)
        ensures
            t == self.spec_followed_by(next),
    {
        Transform {
            translate_x: sat_add(self.translate_x, next.translate_x),
            translate_y: sat_add(self.translate_y, next.translate_y),
        }
    }

    pub open spec fn spec_map_point(self, point: Point) -> Point {
        Point {
            x: saturate(point.x + self.translate_x) as i32,
            y: saturate(point.y + self.translate_y) as i32,
        }
    }

    pub fn map_point(self, point: Point) -> (p: Point)
        ensures
            p == self.spec_map_point(point),
    {
        Point::new(sat_add(point.x, self.translate_x), sat_add(point.y, self.translate_y))
    }

    pub open spec fn spec_map_rect(self, rect: Rect) -> Rect {
        Rect { origin: self.spec_map_point(rect.origin), size: rect.size }
    }

    pub fn map_rect(self, rect: Rect) -> (r: Rect)
        ensures
            r == self.spec_map_rect(rect),
    {
        Rect { origin: self.map_point(rect.origin), size: rect.size }
    }
}

impl Default for Transform {
    fn default() -> (t: Self)
        ensures
            t == Transform::identity(),
    {
        Transform { translate_x: 0, translate_y: 0 }
    }
}

#[derive(Clone, Copy, Debug, PartialEq, Eq, Structural)]
pub struct TransformCommand {
    pub transform: Transform,
}

#[derive(Clone, Copy, Debug, PartialEq, Eq, Structural)]
pub enum StateCommand {
    Save,
    Restore,
}

} // verus!
