use vstd::prelude::*;
use crate::color::Color;
use crate::error::Error;
use crate::render::canvas::Canvas;
use crate::render::frame::{Frame, FrameState, RasterView};
use crate::render::model::{RenderCommand, RenderFrame};
use crate::render::raster::{spec_execute, Rasterizer};

verus! {

/// Where rendered pixels go: a surface reports its size in pixels and shows a finished buffer
/// of `width * height` colors, row by row.
pub trait RenderSurface {
    fn size(&self) -> (u32, u32);

    fn present(&mut self, pixels: &[Color]) -> Result<(), Error>;
}

/// Turns a frame of commands into pixels on a surface.
pub trait Renderer {
    fn render_frame<S: RenderSurface>(&mut self, frame: RenderFrame, surface: &mut S) -> Result<(), Error>;

    fn render_canvas<S: RenderSurface>(&mut self, canvas: Canvas, surface: &mut S) -> Result<(), Error> {
        self.render_frame(canvas.into_frame(), surface)
    }
}

/// The message of the error for a surface whose pixel count does not fit in memory.
pub open spec fn oversized_message() -> Seq<char> {
    "surface dimensions exceed addressable memory"@
}

/// The buffer resized to `len` pixels: cut to length, or extended with transparent pixels.
pub open spec fn spec_sized(pixels: Seq<Color>, len: nat) -> Seq<Color> {
    if len <= pixels.len() {
        pixels.subrange(0, len as int)
    } else {
        pixels + Seq::new(
            (len - pixels.len()) as nat,
            |i: int| Color { r: 0, g: 0, b: 0, a: 0 },
        )
    }
}

/// The buffer after rendering `commands` at `width` by `height`: the previous buffer, resized,
/// drawn over by the commands from a fresh state.
pub open spec fn spec_rendered(
    pixels: Seq<Color>,
    commands: Seq<RenderCommand>,
    width: u32,
    height: u32,
) -> Seq<Color> {
    spec_execute(
        RasterView {
            width,
            height,
            pixels: spec_sized(pixels, (width * height) as nat),
            state: FrameState::initial(),
            stack: Seq::empty(),
        },
        commands,
    ).pixels
}

/// A renderer that draws into a buffer it keeps from frame to frame.
pub struct SoftwareRenderer {
    pixels: Vec<Color>,
}

impl SoftwareRenderer {
    pub closed spec fn spec_pixels(&self) -> Seq<Color> {
        self.pixels@
    }

    pub fn new() -> (r: Self)
        ensures
            r.spec_pixels() == Seq::<Color>::empty(),
    {
        SoftwareRenderer { pixels: Vec::new() }
    }

    /// Gives the buffer `width * height` pixels, unless that many cannot be addressed.
    fn ensure_buffer(&mut self, width: u32, height: u32) -> (r: Result<usize, Error>)
        ensures
            width as int * height as int > usize::MAX <==> r is Err,
            r matches Err(e) ==> (e matches Error::Render(m) && m@ == oversized_message()),
            r matches Err(_) ==> final(self).spec_pixels() == old(self).spec_pixels(),
            r matches Ok(len) ==> len == width as int * height as int && final(self).spec_pixels()
                == spec_sized(old(self).spec_pixels(), len as nat),
    {
        proof {
            assert(width as int * height as int <= u32::MAX as int * u32::MAX as int) by (nonlinear_arith)
                requires
                    width <= u32::MAX,
                    height <= u32::MAX,
            ;
        }
        let len64 = (width as u64) * (height as u64);
        if len64 > usize::MAX as u64 {
            return Err(Error::render("surface dimensions exceed addressable memory"));
        }
        let len = len64 as usize;
        if self.pixels.len() != len {
            self.pixels.resize(len, Color::transparent());
        }
        proof {
            assert(self.pixels@ =~= spec_sized(old(self).pixels@, len as nat));
        }
        Ok(len)
    }

    /// Renders `frame` into the buffer at `width` by `height`.
    pub fn render_pixels(&mut self, frame: RenderFrame, width: u32, height: u32) -> (r: Result<
        (),
        Error,
    >)
        ensures
            width as int * height as int > usize::MAX <==> r is Err,
            r matches Err(e) ==> (e matches Error::Render(m) && m@ == oversized_message()),
            r matches Err(_) ==> final(self).spec_pixels() == old(self).spec_pixels(),
            r is Ok ==> final(self).spec_pixels() == spec_rendered(
                old(self).spec_pixels(),
                frame.spec_commands(),
                width,
                height,
            ),
    {
        match self.ensure_buffer(width, height) {
            Err(e) => return Err(e),
            Ok(_) => {},
        }
        let mut pixels = Vec::new();
        std::mem::swap(&mut pixels, &mut self.pixels);
        let surface_frame = Frame::new(width, height, pixels);
        let mut raster = Rasterizer::new(surface_frame);
        raster.execute(frame);
        self.pixels = raster.into_frame().into_pixels();
        Ok(())
    }

    pub fn pixels(&self) -> (p: &[Color])
        ensures
            p@ == self.spec_pixels(),
    {
        self.pixels.as_slice()
    }
}

impl Default for SoftwareRenderer {
    fn default() -> (r: Self)
        ensures
            r.spec_pixels() == Seq::<Color>::empty(),
    {
        Self::new()
    }
}

impl Renderer for SoftwareRenderer {
    /// Renders at the size the surface reports and presents the buffer: when that size has too
    /// many pixels the render error comes back and nothing changes; otherwise the buffer holds
    /// the rendered frame, it is handed to the surface, and the surface's answer comes back.
    fn render_frame<S: RenderSurface>(&mut self, frame: RenderFrame, surface: &mut S) -> (r: Result<
        (),
        Error,
    >)
        ensures
            exists|w: u32, h: u32|
                {
                    &&& #[trigger] S::size.ensures((old(surface),), (w, h))
                    &&& if w as int * h as int > usize::MAX {
                        &&& r matches Err(Error::Render(m)) && m@ == oversized_message()
                        &&& final(self).spec_pixels() == old(self).spec_pixels()
                        &&& *final(surface) == *old(surface)
                    } else {
                        &&& final(self).spec_pixels() == spec_rendered(
                            old(self).spec_pixels(),
                            frame.spec_commands(),
                            w,
                            h,
                        )
                        &&& exists|target: &mut S, shown: &[Color]|
                            {
                                &&& *target == *old(surface)
                                &&& *final(target) == *final(surface)
                                &&& shown@ == final(self).spec_pixels()
                                &&& #[trigger] S::present.ensures((target, shown), r)
                            }
                    }
                },
    {
        let (width, height) = surface.size();
        match self.render_pixels(frame, width, height) {
            Err(e) => return Err(e),
            Ok(_) => {},
        }
        surface.present(self.pixels.as_slice())
    }
}

} // verus!
