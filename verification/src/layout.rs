use vstd::prelude::*;
use crate::geometry::Size;

verus! {

/// How a window or widget decides its size.
#[derive(Clone, Copy, Debug, PartialEq, Eq, Structural)]
pub enum SizePolicy {
    Fixed(Size),
    Content,
    ContentWithLimits { min: Option<Size>, max: Option<Size> },
}

/// Optional lower and upper bounds on a size.
#[derive(Clone, Copy, Debug, PartialEq, Eq, Structural)]
pub struct Constraints {
    pub min: Option<Size>,
    pub max: Option<Size>,
}

/// The larger of two integers.
pub open spec fn max_int(a: int, b: int) -> int {
    if a >= b {
        a
    } else {
        b
    }
}

/// The smaller of two integers.
pub open spec fn min_int(a: int, b: int) -> int {
    if a <= b {
        a
    } else {
        b
    }
}

/// One axis of `Constraints::clamp`: the value, made non-negative, raised to the
/// non-negative lower bound if there is one, then lowered to the non-negative upper bound if
/// there is one. The upper bound wins when the bounds cross.
pub open spec fn clamp_axis(v: int, lo: Option<int>, hi: Option<int>) -> int {
    let a = max_int(v, 0);
    let b = match lo {
        Some(l) => max_int(a, max_int(l, 0)),
        None => a,
    };
    match hi {
        Some(h) => min_int(b, max_int(h, 0)),
        None => b,
    }
}

pub open spec fn width_of(s: Option<Size>) -> Option<int> {
    match s {
        Some(s) => Some(s.width as int),
        None => None,
    }
}

pub open spec fn height_of(s: Option<Size>) -> Option<int> {
    match s {
        Some(s) => Some(s.height as int),
        None => None,
    }
}

impl SizePolicy {
    pub fn fixed(size: Size) -> (p: Self)
        ensures
            p == SizePolicy::Fixed(size),
    {
        SizePolicy::Fixed(size)
    }

    pub fn content() -> (p: Self)
        ensures
            p == SizePolicy::Content,
    {
        SizePolicy::Content
    }

    pub fn content_with_limits(min: Option<Size>, max: Option<Size>) -> (p: Self)
        ensures
            p == (SizePolicy::ContentWithLimits { min, max }),
    {
        SizePolicy::ContentWithLimits { min, max }
    }

    /// The constraints a policy imposes: a fixed size bounds both ways, content is unbounded,
    /// and content with limits takes its limits as they are.
    pub open spec fn spec_constraints(self) -> Constraints {
        match self {
            SizePolicy::Fixed(size) => Constraints { min: Some(size), max: Some(size) },
            SizePolicy::Content => Constraints { min: None, max: None },
            SizePolicy::ContentWithLimits { min, max } => Constraints { min, max },
        }
    }

    pub fn constraints(self) -> (c: Constraints)
        ensures
            c == self.spec_constraints(),
    {
        match self {
            SizePolicy::Fixed(size) => Constraints::new(Some(size), Some(size)),
            SizePolicy::Content => Constraints::unbounded(),
            SizePolicy::ContentWithLimits { min, max } => Constraints::new(min, max),
        }
    }
}

/// The larger of two `i32`s.
pub fn max_i32(a: i32, b: i32) -> (r: i32)
    ensures
        r == max_int(a as int, b as int),
{
    if a >= b {
        a
    } else {
        b
    }
}

/// The smaller of two `i32`s.
pub fn min_i32(a: i32, b: i32) -> (r: i32)
    ensures
        r == min_int(a as int, b as int),
{
    if a <= b {
        a
    } else {
        b
    }
}

impl Constraints {
    pub fn new(min: Option<Size>, max: Option<Size>) -> (c: Self)
        ensures
            c.min == min,
            c.max == max,
    {
        Constraints { min, max }
    }

    pub fn unbounded() -> (c: Self)
        ensures
            c.min is None,
            c.max is None,
    {
        Constraints { min: None, max: None }
    }

    pub open spec fn spec_clamp(self, size: Size) -> Size {
        Size {
            width: clamp_axis(size.width as int, width_of(self.min), width_of(self.max)) as i32,
            height: clamp_axis(size.height as int, height_of(self.min), height_of(self.max)) as i32,
        }
    }

    /// Clamps a size into these constraints, one axis at a time (see `clamp_axis`).
    pub fn clamp(self, size: Size) -> (r: Size)
        ensures
            r == self.spec_clamp(size),
    {
        let mut width = max_i32(size.width, 0);
        let mut height = max_i32(size.height, 0);
        if let Some(min) = self.min {
            width = max_i32(width, max_i32(min.width, 0));
            height = max_i32(height, max_i32(min.height, 0));
        }
        if let Some(max) = self.max {
            width = min_i32(width, max_i32(max.width, 0));
            height = min_i32(height, max_i32(max.height, 0));
        }
        Size::new(width, height)
    }
}

/// A clamped size is never negative, and stays within both limits whenever the lower limit
/// does not exceed the upper one.
pub proof fn lemma_clamp_within_limits(c: Constraints, size: Size)
    ensures
        c.spec_clamp(size).width >= 0,
        c.spec_clamp(size).height >= 0,
        c.max matches Some(hi) ==> c.spec_clamp(size).width <= max_int(hi.width as int, 0),
        c.max matches Some(hi) ==> c.spec_clamp(size).height <= max_int(hi.height as int, 0),
        c.min matches Some(lo) ==> (c.max matches Some(hi) ==> lo.width <= hi.width)
            ==> c.spec_clamp(size).width >= lo.width,
        c.min matches Some(lo) ==> (c.max matches Some(hi) ==> lo.height <= hi.height)
            ==> c.spec_clamp(size).height >= lo.height,
{
}

/// Clamping twice gives the same size as clamping once.
pub proof fn lemma_clamp_idempotent(c: Constraints, size: Size)
    ensures
        c.spec_clamp(c.spec_clamp(size)) == c.spec_clamp(size),
{
}

/// A size that already satisfies non-crossing constraints is left unchanged.
pub proof fn lemma_clamp_keeps_fitting_size(c: Constraints, size: Size)
    requires
        size.width >= 0,
        size.height >= 0,
        c.min matches Some(lo) ==> lo.width <= size.width && lo.height <= size.height,
        c.max matches Some(hi) ==> size.width <= hi.width && size.height <= hi.height,
    ensures
        c.spec_clamp(size) == size,
{
}

/// Under a fixed policy with a non-negative size, every size clamps to that size.
pub proof fn lemma_fixed_policy_clamps_to_its_size(fixed: Size, size: Size)
    requires
        fixed.width >= 0,
        fixed.height >= 0,
    ensures
        SizePolicy::Fixed(fixed).spec_constraints().spec_clamp(size) == fixed,
{
}

} // verus!
