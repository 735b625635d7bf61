use vstd::prelude::*;
use crate::layout::max_i32;

verus! {

/// The width of stroked lines, in logical pixels.
#[derive(Clone, Copy, Debug, PartialEq, Eq, Structural)]
pub struct Stroke {
    pub width: i32,
}

impl Stroke {
    pub fn new(width: i32) -> (s: Self)
        ensures
            s.width == width,
    {
        Stroke { width }
    }
}

impl Default for Stroke {
    fn default() -> (s: Self)
        ensures
            s.width == 1,
    {
        Stroke { width: 1 }
    }
}

#[derive(Clone, Copy, Debug, PartialEq, Eq, Structural)]
pub enum TextAlign {
    Left,
    Center,
    Right,
}

#[derive(Clone, Copy, Debug, PartialEq, Eq, Structural)]
pub enum TextBaseline {
    Top,
    Middle,
    Alphabetic,
    Bottom,
}

/// The measured extent of a piece of text.
#[derive(Clone, Copy, Debug, PartialEq, Eq, Structural)]
pub struct TextMetrics {
    pub width: i32,
    pub height: i32,
    pub line_height: i32,
    pub baseline: i32,
    pub line_count: usize,
}

/// How text is drawn: its pixel size (at least one), an optional line height (at least one),
/// its horizontal alignment and its vertical baseline.
#[derive(Clone, Copy, Debug, PartialEq, Eq, Structural)]
pub struct TextStyle {
    size: i32,
    line_height: Option<i32>,
    align: TextAlign,
    baseline: TextBaseline,
}

impl TextStyle {
    #[verifier::type_invariant]
    spec fn inv(self) -> bool {
        &&& self.size >= 1
        &&& self.line_height matches Some(h) ==> h >= 1
    }

    pub closed spec fn spec_size(self) -> i32 {
        self.size
    }

    pub closed spec fn spec_line_height(self) -> Option<i32> {
        self.line_height
    }

    pub closed spec fn spec_align(self) -> TextAlign {
        self.align
    }

    pub closed spec fn spec_baseline(self) -> TextBaseline {
        self.baseline
    }

    /// Fourteen pixels, the line height of the font, left-aligned, hanging from the top.
    pub fn new() -> (s: Self)
        ensures
            s.spec_size() == 14,
            s.spec_line_height() is None,
            s.spec_align() == TextAlign::Left,
            s.spec_baseline() == TextBaseline::Top,
    {
        TextStyle { size: 14, line_height: None, align: TextAlign::Left, baseline: TextBaseline::Top }
    }

    /// Sets the pixel size, raised to at least one.
    pub fn size(self, size: i32) -> (s: Self)
        ensures
            s.spec_size() == max_i32_spec(size, 1),
            s.spec_line_height() == self.spec_line_height(),
            s.spec_align() == self.spec_align(),
            s.spec_baseline() == self.spec_baseline(),
    {
        proof {
            use_type_invariant(self);
        }
        TextStyle { size: max_i32(size, 1), ..self }
    }

    /// Sets the line height, raised to at least one.
    pub fn line_height(self, line_height: i32) -> (s: Self)
        ensures
            s.spec_size() == self.spec_size(),
            s.spec_line_height() == Some(max_i32_spec(line_height, 1)),
            s.spec_align() == self.spec_align(),
            s.spec_baseline() == self.spec_baseline(),
    {
        proof {
            use_type_invariant(self);
        }
        TextStyle { line_height: Some(max_i32(line_height, 1)), ..self }
    }

    pub fn align(self, align: TextAlign) -> (s: Self)
        ensures
            s.spec_size() == self.spec_size(),
            s.spec_line_height() == self.spec_line_height(),
            s.spec_align() == align,
            s.spec_baseline() == self.spec_baseline(),
    {
        proof {
            use_type_invariant(self);
        }
        TextStyle { align, ..self }
    }

    pub fn baseline(self, baseline: TextBaseline) -> (s: Self)
        ensures
            s.spec_size() == self.spec_size(),
            s.spec_line_height() == self.spec_line_height(),
            s.spec_align() == self.spec_align(),
            s.spec_baseline() == baseline,
    {
        proof {
            use_type_invariant(self);
        }
        TextStyle { baseline, ..self }
    }

    pub fn pixel_size(&self) -> (s: i32)
        ensures
            s == self.spec_size(),
            s >= 1,
    {
        proof {
            use_type_invariant(self);
        }
        self.size
    }

    pub fn line_height_override(&self) -> (h: Option<i32>)
        ensures
            h == self.spec_line_height(),
            h matches Some(v) ==> v >= 1,
    {
        proof {
            use_type_invariant(self);
        }
        self.line_height
    }

    pub fn align_mode(&self) -> (a: TextAlign)
        ensures
            a == self.spec_align(),
    {
        self.align
    }

    pub fn baseline_mode(&self) -> (b: TextBaseline)
        ensures
            b == self.spec_baseline(),
    {
        self.baseline
    }
}

impl Default for TextStyle {
    fn default() -> (s: Self)
        ensures
            s.spec_size() == 14,
            s.spec_line_height() is None,
            s.spec_align() == TextAlign::Left,
            s.spec_baseline() == TextBaseline::Top,
    {
        Self::new()
    }
}

pub open spec fn max_i32_spec(a: i32, b: i32) -> i32 {
    if a >= b {
        a
    } else {
        b
    }
}

} // verus!
