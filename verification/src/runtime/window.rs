use vstd::prelude::*;
use crate::geometry::{Point, Size};

verus! {

/// A request from widget code to the host window.
#[derive(Clone, Copy, Debug, PartialEq, Eq, Structural)]
pub enum WindowCommand {
    StartDrag,
    SetPosition(Point),
    SetSize(Size),
    SetVisible(bool),
    SetAlwaysOnTop(bool),
}

} // verus!
