use vstd::prelude::*;

verus! {

/// The answer a widget gives when the host asks what lies under the pointer.
#[derive(Clone, Copy, Debug, PartialEq, Eq, Structural)]
pub enum HitTest {
    Miss,
    Hit,
    Draggable,
    Resize(ResizeEdge),
    Transparent,
}

/// The edge or corner grabbed by a resize hit.
#[derive(Clone, Copy, Debug, PartialEq, Eq, Structural)]
pub enum ResizeEdge {
    Left,
    Right,
    Top,
    Bottom,
    TopLeft,
    TopRight,
    BottomLeft,
    BottomRight,
}

impl HitTest {
    pub fn hit_if(hit: bool) -> (r: Self)
        ensures
            r == (if hit { HitTest::Hit } else { HitTest::Miss }),
    {
        if hit {
            HitTest::Hit
        } else {
            HitTest::Miss
        }
    }

    pub open spec fn spec_accepts_input(self) -> bool {
        self is Hit || self is Draggable || self is Resize
    }

    /// Hits, drag handles and resize edges take input; misses and transparent areas do not.
    pub fn accepts_input(self) -> (r: bool)
        ensures
            r == self.spec_accepts_input(),
    {
        match self {
            HitTest::Hit | HitTest::Draggable | HitTest::Resize(_) => true,
            _ => false,
        }
    }
}

} // verus!
