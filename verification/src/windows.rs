//! Window configuration for the desktop host and the host's sizing and placement decisions.

use vstd::prelude::*;
use crate::color::Color;
use crate::geometry::{saturate, saturate_i64, Point, Size};
use crate::layout::{Constraints, SizePolicy};

verus! {

/// The size a window gets when nothing else decides it.
pub open spec fn spec_default_window_size() -> Size {
    Size { width: 320, height: 120 }
}

#[verifier::when_used_as_spec(spec_default_window_size)]
pub fn default_window_size() -> (s: Size)
    ensures
        s == spec_default_window_size(),
{
    Size::new(320, 120)
}

/// A screen edge or corner that a window can be placed against.
#[derive(Clone, Copy, Debug, PartialEq, Eq, Structural)]
pub enum Anchor {
    TopLeft,
    Top,
    TopRight,
    Left,
    Center,
    Right,
    BottomLeft,
    Bottom,
    BottomRight,
}

/// Where a window opens: at an explicit point, against an anchor of the primary monitor, or
/// wherever the platform chooses; the offset moves it away from that place.
#[derive(Clone, Copy, Debug, PartialEq, Eq, Structural)]
pub struct PositionConfig {
    pub point: Option<Point>,
    pub anchor: Option<Anchor>,
    pub offset: Point,
}

impl PositionConfig {
    pub open spec fn spec_new() -> PositionConfig {
        PositionConfig { point: None, anchor: None, offset: Point { x: 0, y: 0 } }
    }

    pub fn new() -> (p: Self)
        ensures
            p == Self::spec_new(),
    {
        PositionConfig { point: None, anchor: None, offset: Point::new(0, 0) }
    }

    pub fn at(point: Point) -> (p: Self)
        ensures
            p == (PositionConfig { point: Some(point), anchor: None, offset: Point { x: 0, y: 0 } }),
    {
        PositionConfig { point: Some(point), anchor: None, offset: Point::new(0, 0) }
    }

    pub fn anchored(anchor: Anchor) -> (p: Self)
        ensures
            p == (PositionConfig { point: None, anchor: Some(anchor), offset: Point { x: 0, y: 0 } }),
    {
        PositionConfig { point: None, anchor: Some(anchor), offset: Point::new(0, 0) }
    }

    pub fn with_offset(self, offset: Point) -> (p: Self)
        ensures
            p == (PositionConfig { offset, ..self }),
    {
        PositionConfig { offset, ..self }
    }
}

impl Default for PositionConfig {
    fn default() -> (p: Self)
        ensures
            p == Self::spec_new(),
    {
        Self::new()
    }
}

/// Everything the desktop host needs to create a window.
#[derive(Clone, Copy, Debug, PartialEq, Eq, Structural)]
pub struct WindowConfig {
    pub size: Option<Size>,
    pub min_size: Option<Size>,
    pub max_size: Option<Size>,
    pub size_policy: SizePolicy,
    pub resizable: bool,
    pub frameless: bool,
    pub transparent: bool,
    pub always_on_top: bool,
    pub visible: bool,
    pub position: PositionConfig,
}

/// A size that is present and has area; anything else counts as absent.
pub open spec fn spec_valid_size(size: Option<Size>) -> Option<Size> {
    match size {
        Some(s) => if s.spec_is_empty() {
            None
        } else {
            Some(s)
        },
        None => None,
    }
}

#[verifier::when_used_as_spec(spec_valid_size)]
pub fn valid_size(size: Option<Size>) -> (r: Option<Size>)
    ensures
        r == spec_valid_size(size),
{
    match size {
        Some(s) => if s.is_empty() {
            None
        } else {
            Some(s)
        },
        None => None,
    }
}

/// The first option if it is present, else the second.
pub open spec fn spec_or(a: Option<Size>, b: Option<Size>) -> Option<Size> {
    match a {
        Some(_) => a,
        None => b,
    }
}

fn size_or(a: Option<Size>, b: Option<Size>) -> (r: Option<Size>)
    ensures
        r == spec_or(a, b),
{
    match a {
        Some(_) => a,
        None => b,
    }
}

/// A size policy with empty sizes removed: a fixed policy with an empty size falls back to
/// `fallback_size`, then to the default window size; limits that are empty are dropped.
pub open spec fn spec_normalize_size_policy(
    size_policy: SizePolicy,
    fallback_size: Option<Size>,
) -> SizePolicy {
    match size_policy {
        SizePolicy::Fixed(size) => SizePolicy::Fixed(
            match spec_valid_size(Some(size)) {
                Some(s) => s,
                None => match fallback_size {
                    Some(f) => f,
                    None => spec_default_window_size(),
                },
            },
        ),
        SizePolicy::Content => SizePolicy::Content,
        SizePolicy::ContentWithLimits { min, max } => SizePolicy::ContentWithLimits {
            min: spec_valid_size(min),
            max: spec_valid_size(max),
        },
    }
}

#[verifier::when_used_as_spec(spec_normalize_size_policy)]
pub fn normalize_size_policy(size_policy: SizePolicy, fallback_size: Option<Size>) -> (r:
    SizePolicy)
    ensures
        r == spec_normalize_size_policy(size_policy, fallback_size),
{
    match size_policy {
        SizePolicy::Fixed(size) => {
            let size = match valid_size(Some(size)) {
                Some(s) => s,
                None => match fallback_size {
                    Some(f) => f,
                    None => default_window_size(),
                },
            };
            SizePolicy::Fixed(size)
        },
        SizePolicy::Content => SizePolicy::Content,
        SizePolicy::ContentWithLimits { min, max } => SizePolicy::ContentWithLimits {
            min: valid_size(min),
            max: valid_size(max),
        },
    }
}

impl WindowConfig {
    pub open spec fn spec_default() -> WindowConfig {
        WindowConfig {
            size: Some(spec_default_window_size()),
            min_size: None,
            max_size: None,
            size_policy: SizePolicy::Fixed(spec_default_window_size()),
            resizable: true,
            frameless: false,
            transparent: false,
            always_on_top: false,
            visible: true,
            position: PositionConfig::spec_new(),
        }
    }

    /// The configuration with empty sizes dropped, the size policy normalized against the
    /// remaining size, a fixed policy's size taken as the window size, and a limited content
    /// policy's limits filling in window limits that are absent.
    pub open spec fn spec_normalized(self) -> WindowConfig {
        let size = spec_valid_size(self.size);
        let min_size = spec_valid_size(self.min_size);
        let max_size = spec_valid_size(self.max_size);
        let size_policy = spec_normalize_size_policy(self.size_policy, size);
        let size = match size_policy {
            SizePolicy::Fixed(s) => Some(s),
            _ => size,
        };
        let (min_size, max_size) = match size_policy {
            SizePolicy::ContentWithLimits { min, max } => (
                spec_or(min_size, min),
                spec_or(max_size, max),
            ),
            _ => (min_size, max_size),
        };
        WindowConfig { size, min_size, max_size, size_policy, ..self }
    }

    #[verifier::when_used_as_spec(spec_normalized)]
    pub fn normalized(self) -> (c: Self)
        ensures
            c == self.spec_normalized(),
    {
        let mut c = self;
        c.size = valid_size(c.size);
        c.min_size = valid_size(c.min_size);
        c.max_size = valid_size(c.max_size);
        c.size_policy = normalize_size_policy(c.size_policy, c.size);
        if let SizePolicy::Fixed(size) = c.size_policy {
            c.size = Some(size);
        }
        if let SizePolicy::ContentWithLimits { min, max } = c.size_policy {
            c.min_size = size_or(c.min_size, min);
            c.max_size = size_or(c.max_size, max);
        }
        c
    }

    pub open spec fn spec_resolved_size(self) -> Size {
        match self.size {
            Some(s) => s,
            None => spec_default_window_size(),
        }
    }

    /// The configured size, or the default window size when none is set.
    #[verifier::when_used_as_spec(spec_resolved_size)]
    pub fn resolved_size(self) -> (s: Size)
        ensures
            s == self.spec_resolved_size(),
    {
        match self.size {
            Some(s) => s,
            None => default_window_size(),
        }
    }
}

impl Default for WindowConfig {
    fn default() -> (c: Self)
        ensures
            c == Self::spec_default(),
    {
        WindowConfig {
            size: Some(default_window_size()),
            min_size: None,
            max_size: None,
            size_policy: SizePolicy::Fixed(default_window_size()),
            resizable: true,
            frameless: false,
            transparent: false,
            always_on_top: false,
            visible: true,
            position: PositionConfig::new(),
        }
    }
}

/// Normalizing a configuration a second time changes nothing.
pub proof fn lemma_normalized_idempotent(config: WindowConfig)
    ensures
        config.spec_normalized().spec_normalized() == config.spec_normalized(),
{
}

/// A normalized configuration never holds an empty size or an empty limit.
pub proof fn lemma_normalized_sizes_are_valid(config: WindowConfig)
    ensures
        config.spec_normalized().size matches Some(s) ==> !s.spec_is_empty(),
        config.spec_normalized().min_size matches Some(s) ==> !s.spec_is_empty(),
        config.spec_normalized().max_size matches Some(s) ==> !s.spec_is_empty(),
        config.spec_normalized().size_policy matches SizePolicy::Fixed(s) ==> config.spec_normalized().size
            == Some(s),
{
}

/// The desktop host: a window configuration built up through builder calls.
pub struct WindowsHost {
    pub(crate) config: WindowConfig,
}

impl WindowsHost {
    pub closed spec fn view_config(&self) -> WindowConfig {
        self.config
    }

    pub fn new() -> (h: Self)
        ensures
            h.view_config() == WindowConfig::spec_default(),
    {
        WindowsHost { config: WindowConfig::default() }
    }

    /// Replaces the whole configuration with its normalized form.
    pub fn with_config(self, config: WindowConfig) -> (h: Self)
        ensures
            h.view_config() == config.spec_normalized(),
    {
        WindowsHost { config: config.normalized() }
    }

    pub fn config(&self) -> (c: &WindowConfig)
        ensures
            *c == self.view_config(),
    {
        &self.config
    }

    /// Fixes the window to `size`; an empty size is ignored.
    pub fn with_size(self, size: Size) -> (h: Self)
        ensures
            h.view_config() == (if size.spec_is_empty() {
                self.view_config()
            } else {
                WindowConfig {
                    size: Some(size),
                    size_policy: SizePolicy::Fixed(size),
                    ..self.view_config()
                }
            }),
    {
        let mut h = self;
        if !size.is_empty() {
            h.config.size = Some(size);
            h.config.size_policy = SizePolicy::Fixed(size);
        }
        h
    }

    pub fn with_min_size(self, size: Size) -> (h: Self)
        ensures
            h.view_config() == (WindowConfig {
                min_size: spec_valid_size(Some(size)),
                ..self.view_config()
            }),
    {
        let mut h = self;
        h.config.min_size = valid_size(Some(size));
        h
    }

    pub fn with_max_size(self, size: Size) -> (h: Self)
        ensures
            h.view_config() == (WindowConfig {
                max_size: spec_valid_size(Some(size)),
                ..self.view_config()
            }),
    {
        let mut h = self;
        h.config.max_size = valid_size(Some(size));
        h
    }

    pub fn size_policy(self, size_policy: SizePolicy) -> (h: Self)
        ensures
            h.view_config() == (WindowConfig {
                size_policy: spec_normalize_size_policy(size_policy, self.view_config().size),
                ..self.view_config()
            }),
    {
        let mut h = self;
        h.config.size_policy = normalize_size_policy(size_policy, h.config.size);
        h
    }

    pub fn resizable(self, resizable: bool) -> (h: Self)
        ensures
            h.view_config() == (WindowConfig { resizable, ..self.view_config() }),
    {
        let mut h = self;
        h.config.resizable = resizable;
        h
    }

    pub fn frameless(self, frameless: bool) -> (h: Self)
        ensures
            h.view_config() == (WindowConfig { frameless, ..self.view_config() }),
    {
        let mut h = self;
        h.config.frameless = frameless;
        h
    }

    pub fn transparent(self, transparent: bool) -> (h: Self)
        ensures
            h.view_config() == (WindowConfig { transparent, ..self.view_config() }),
    {
        let mut h = self;
        h.config.transparent = transparent;
        h
    }

    pub fn always_on_top(self, always_on_top: bool) -> (h: Self)
        ensures
            h.view_config() == (WindowConfig { always_on_top, ..self.view_config() }),
    {
        let mut h = self;
        h.config.always_on_top = always_on_top;
        h
    }

    pub fn visible(self, visible: bool) -> (h: Self)
        ensures
            h.view_config() == (WindowConfig { visible, ..self.view_config() }),
    {
        let mut h = self;
        h.config.visible = visible;
        h
    }

    /// Places the window at an explicit point, dropping any anchor.
    pub fn position(self, position: Point) -> (h: Self)
        ensures
            h.view_config() == (WindowConfig {
                position: PositionConfig {
                    point: Some(position),
                    anchor: None,
                    ..self.view_config().position
                },
                ..self.view_config()
            }),
    {
        let mut h = self;
        h.config.position.point = Some(position);
        h.config.position.anchor = None;
        h
    }

    /// Places the window against an anchor, dropping any explicit point.
    pub fn anchor(self, anchor: Anchor) -> (h: Self)
        ensures
            h.view_config() == (WindowConfig {
                position: PositionConfig {
                    point: None,
                    anchor: Some(anchor),
                    ..self.view_config().position
                },
                ..self.view_config()
            }),
    {
        let mut h = self;
        h.config.position.point = None;
        h.config.position.anchor = Some(anchor);
        h
    }

    pub fn position_config(self, position: PositionConfig) -> (h: Self)
        ensures
            h.view_config() == (WindowConfig { position, ..self.view_config() }),
    {
        let mut h = self;
        h.config.position = position;
        h
    }

    pub fn offset(self, x: i32, y: i32) -> (h: Self)
        ensures
            h.view_config() == (WindowConfig {
                position: PositionConfig { offset: Point { x, y }, ..self.view_config().position },
                ..self.view_config()
            }),
    {
        let mut h = self;
        h.config.position.offset = Point::new(x, y);
        h
    }

    /// Shows or hides the platform's title bar and frame.
    pub fn with_standard_top_bar(self, visible: bool) -> (h: Self)
        ensures
            h.view_config() == (WindowConfig { frameless: !visible, ..self.view_config() }),
    {
        let mut h = self;
        h.config.frameless = !visible;
        h
    }
}

impl Default for WindowsHost {
    fn default() -> (h: Self)
        ensures
            h.view_config() == WindowConfig::spec_default(),
    {
        Self::new()
    }
}

/// The constraints that content sizing works within; a fixed policy does no content sizing.
pub open spec fn spec_content_constraints(config: WindowConfig) -> Option<Constraints> {
    match config.size_policy {
        SizePolicy::Fixed(_) => None,
        SizePolicy::Content => Some(Constraints { min: config.min_size, max: config.max_size }),
        SizePolicy::ContentWithLimits { min, max } => Some(
            Constraints { min: spec_or(min, config.min_size), max: spec_or(max, config.max_size) },
        ),
    }
}

pub fn content_constraints(config: WindowConfig) -> (r: Option<Constraints>)
    ensures
        r == spec_content_constraints(config),
{
    match config.size_policy {
        SizePolicy::Fixed(_) => None,
        SizePolicy::Content => Some(Constraints::new(config.min_size, config.max_size)),
        SizePolicy::ContentWithLimits { min, max } => Some(
            Constraints::new(size_or(min, config.min_size), size_or(max, config.max_size)),
        ),
    }
}

/// Two window sizes count as the same when they agree on both axes.
pub open spec fn spec_same_size(a: Size, b: Size) -> bool {
    a.width == b.width && a.height == b.height
}

pub fn same_size(a: Size, b: Size) -> (r: bool)
    ensures
        r == spec_same_size(a, b),
{
    a.width == b.width && a.height == b.height
}

/// The size the host should request for the window's content, if any: none when the target is
/// empty, already the current size, or the size that was requested last time.
pub open spec fn spec_content_resize_target(
    current_size: Size,
    target_size: Size,
    last_content_size: Option<Size>,
) -> Option<Size> {
    if target_size.spec_is_empty() || spec_same_size(current_size, target_size) {
        None
    } else if last_content_size == Some(target_size) {
        None
    } else {
        Some(target_size)
    }
}

pub fn content_resize_target(
    current_size: Size,
    target_size: Size,
    last_content_size: Option<Size>,
) -> (r: Option<Size>)
    ensures
        r == spec_content_resize_target(current_size, target_size, last_content_size),
{
    if target_size.is_empty() || same_size(current_size, target_size) {
        return None;
    }
    match last_content_size {
        Some(last) => if last == target_size {
            return None;
        },
        None => {},
    }
    Some(target_size)
}

/// What the host does after the widget reports its preferred content size: the size to
/// request from the window, if any, and the content size to remember for next time.
#[derive(Clone, Copy, Debug, PartialEq, Eq, Structural)]
pub struct ContentResize {
    pub request: Option<Size>,
    pub last_content_size: Option<Size>,
}

/// An empty preferred size changes nothing; a target that needs no request is remembered as
/// the last content size; a target that does is requested and remembered.
pub open spec fn spec_content_resize_step(
    current_size: Size,
    preferred_size: Size,
    last_content_size: Option<Size>,
) -> ContentResize {
    if preferred_size.spec_is_empty() {
        ContentResize { request: None, last_content_size }
    } else {
        match spec_content_resize_target(current_size, preferred_size, last_content_size) {
            Some(target) => ContentResize {
                request: Some(target),
                last_content_size: Some(target),
            },
            None => ContentResize { request: None, last_content_size: Some(preferred_size) },
        }
    }
}

pub fn content_resize_step(
    current_size: Size,
    preferred_size: Size,
    last_content_size: Option<Size>,
) -> (r: ContentResize)
    ensures
        r == spec_content_resize_step(current_size, preferred_size, last_content_size),
{
    if preferred_size.is_empty() {
        return ContentResize { request: None, last_content_size };
    }
    match content_resize_target(current_size, preferred_size, last_content_size) {
        Some(target) => ContentResize { request: Some(target), last_content_size: Some(target) },
        None => ContentResize { request: None, last_content_size: Some(preferred_size) },
    }
}

/// Once a size has been requested, asking again with the same preferred size requests nothing.
pub proof fn lemma_content_resize_coalesces(current: Size, other: Size, preferred: Size, last: Option<Size>)
    ensures
        spec_content_resize_step(
            other,
            preferred,
            spec_content_resize_step(current, preferred, last).last_content_size,
        ).request is None,
{
}

/// A window event as the host's decisions see it.
#[derive(Clone, Copy, Debug, PartialEq, Eq, Structural)]
pub enum WindowEventKind {
    CloseRequested,
    Focused,
    Resized,
    ScaleFactorChanged,
    /// Pointer movement, entry, exit, buttons and the wheel.
    Pointer,
    /// A key press; `has_text` when it produced non-empty text.
    KeyPressed { has_text: bool },
    KeyReleased,
    /// Committed input-method text; `has_text` when it is not empty.
    ImeCommit { has_text: bool },
    RedrawRequested,
    Other,
}

/// What follows once the event has reached the widget.
#[derive(Clone, Copy, Debug, PartialEq, Eq, Structural)]
pub enum FollowUp {
    Nothing,
    /// Shut the runtime down and leave the event loop.
    ShutdownAndExit,
    /// Ask the window for a redraw if the runtime wants one.
    RedrawIfNeeded,
    /// Resize the window to the widget's content if asked to, then redraw if needed.
    FitContentThenRedraw,
    /// Render the widget onto the surface.
    Render,
}

/// The host's plan for one window event: whether the event itself goes to the widget, whether
/// a text-input event follows it, and what is done afterwards when both were accepted.
#[derive(Clone, Copy, Debug, PartialEq, Eq, Structural)]
pub struct WindowEventPlan {
    pub dispatch: bool,
    pub text_input: bool,
    pub follow_up: FollowUp,
}

pub open spec fn spec_plan_window_event(kind: WindowEventKind) -> WindowEventPlan {
    match kind {
        WindowEventKind::CloseRequested => WindowEventPlan {
            dispatch: true,
            text_input: false,
            follow_up: FollowUp::ShutdownAndExit,
        },
        WindowEventKind::Resized => WindowEventPlan {
            dispatch: true,
            text_input: false,
            follow_up: FollowUp::FitContentThenRedraw,
        },
        WindowEventKind::KeyPressed { has_text } => WindowEventPlan {
            dispatch: true,
            text_input: has_text,
            follow_up: FollowUp::RedrawIfNeeded,
        },
        WindowEventKind::ImeCommit { has_text } => WindowEventPlan {
            dispatch: false,
            text_input: has_text,
            follow_up: FollowUp::RedrawIfNeeded,
        },
        WindowEventKind::RedrawRequested => WindowEventPlan {
            dispatch: false,
            text_input: false,
            follow_up: FollowUp::Render,
        },
        WindowEventKind::Other => WindowEventPlan {
            dispatch: false,
            text_input: false,
            follow_up: FollowUp::Nothing,
        },
        _ => WindowEventPlan { dispatch: true, text_input: false, follow_up: FollowUp::RedrawIfNeeded },
    }
}

/// Decides how the host handles a window event.
pub fn plan_window_event(kind: WindowEventKind) -> (p: WindowEventPlan)
    ensures
        p == spec_plan_window_event(kind),
{
    match kind {
        WindowEventKind::CloseRequested => WindowEventPlan {
            dispatch: true,
            text_input: false,
            follow_up: FollowUp::ShutdownAndExit,
        },
        WindowEventKind::Resized => WindowEventPlan {
            dispatch: true,
            text_input: false,
            follow_up: FollowUp::FitContentThenRedraw,
        },
        WindowEventKind::KeyPressed { has_text } => WindowEventPlan {
            dispatch: true,
            text_input: has_text,
            follow_up: FollowUp::RedrawIfNeeded,
        },
        WindowEventKind::ImeCommit { has_text } => WindowEventPlan {
            dispatch: false,
            text_input: has_text,
            follow_up: FollowUp::RedrawIfNeeded,
        },
        WindowEventKind::RedrawRequested => WindowEventPlan {
            dispatch: false,
            text_input: false,
            follow_up: FollowUp::Render,
        },
        WindowEventKind::Other => WindowEventPlan {
            dispatch: false,
            text_input: false,
            follow_up: FollowUp::Nothing,
        },
        _ => WindowEventPlan { dispatch: true, text_input: false, follow_up: FollowUp::RedrawIfNeeded },
    }
}

/// A visibility command notifies the widget only when it changes what the host last knew.
pub fn visibility_changed(known_visible: bool, requested: bool) -> (notify: bool)
    ensures
        notify == (known_visible != requested),
{
    known_visible != requested
}

/// A rectangle on a monitor in logical pixels.
#[derive(Clone, Copy, Debug, PartialEq, Eq, Structural)]
pub struct RectLike {
    pub x: i32,
    pub y: i32,
    pub width: i32,
    pub height: i32,
}

/// Half of `v`, rounded towards negative infinity.
fn half_floor(v: i64) -> (r: i64)
    requires
        -0x1_0000_0000_0000 < v < 0x1_0000_0000_0000,
    ensures
        r == v as int / 2,
{
    if v >= 0 {
        v / 2
    } else {
        let n: i64 = -v;
        let h: i64 = (n + 1) / 2;
        assert(-(h as int) == v as int / 2) by (nonlinear_arith)
            requires
                n == -v,
                h == (n + 1) / 2,
                v < 0,
        ;
        -h
    }
}

/// The x coordinate that places a window of width `w` against `anchor` within `bounds`.
pub open spec fn spec_anchor_x(anchor: Anchor, bounds: RectLike, w: int, offset_x: int) -> int {
    match anchor {
        Anchor::TopLeft | Anchor::Left | Anchor::BottomLeft => bounds.x + offset_x,
        Anchor::Top | Anchor::Center | Anchor::Bottom => bounds.x + (bounds.width - w) / 2
            + offset_x,
        Anchor::TopRight | Anchor::Right | Anchor::BottomRight => bounds.x + bounds.width - w
            - offset_x,
    }
}

/// The y coordinate that places a window of height `h` against `anchor` within `bounds`.
pub open spec fn spec_anchor_y(anchor: Anchor, bounds: RectLike, h: int, offset_y: int) -> int {
    match anchor {
        Anchor::TopLeft | Anchor::Top | Anchor::TopRight => bounds.y + offset_y,
        Anchor::Left | Anchor::Center | Anchor::Right => bounds.y + (bounds.height - h) / 2
            + offset_y,
        Anchor::BottomLeft | Anchor::Bottom | Anchor::BottomRight => bounds.y + bounds.height - h
            - offset_y,
    }
}

/// The window position for an anchor: left and top anchors add the offset, right and bottom
/// anchors subtract it (so the offset always moves away from the nearest edge), and centered
/// axes split the spare room, rounding down.
pub open spec fn spec_anchor_position(
    anchor: Anchor,
    bounds: RectLike,
    window_size: Size,
    offset: Point,
) -> Point {
    Point {
        x: saturate(spec_anchor_x(anchor, bounds, window_size.width as int, offset.x as int)) as i32,
        y: saturate(spec_anchor_y(anchor, bounds, window_size.height as int, offset.y as int)) as i32,
    }
}

pub fn anchor_position(anchor: Anchor, bounds: RectLike, window_size: Size, offset: Point) -> (p:
    Point)
    ensures
        p == spec_anchor_position(anchor, bounds, window_size, offset),
{
    let bx = bounds.x as i64;
    let by = bounds.y as i64;
    let x: i64 = match anchor {
        Anchor::TopLeft | Anchor::Left | Anchor::BottomLeft => bx + offset.x as i64,
        Anchor::Top | Anchor::Center | Anchor::Bottom => bx + half_floor(
            bounds.width as i64 - window_size.width as i64,
        ) + offset.x as i64,
        Anchor::TopRight | Anchor::Right | Anchor::BottomRight => bx + bounds.width as i64
            - window_size.width as i64 - offset.x as i64,
    };
    let y: i64 = match anchor {
        Anchor::TopLeft | Anchor::Top | Anchor::TopRight => by + offset.y as i64,
        Anchor::Left | Anchor::Center | Anchor::Right => by + half_floor(
            bounds.height as i64 - window_size.height as i64,
        ) + offset.y as i64,
        Anchor::BottomLeft | Anchor::Bottom | Anchor::BottomRight => by + bounds.height as i64
            - window_size.height as i64 - offset.y as i64,
    };
    Point::new(saturate_i64(x), saturate_i64(y))
}

pub open spec fn spec_apply_position_offset(position: Point, offset: Point) -> Point {
    Point {
        x: saturate(position.x + offset.x) as i32,
        y: saturate(position.y + offset.y) as i32,
    }
}

/// An explicit position moved by the offset.
pub fn apply_position_offset(position: Point, offset: Point) -> (p: Point)
    ensures
        p == spec_apply_position_offset(position, offset),
{
    Point::new(
        saturate_i64(position.x as i64 + offset.x as i64),
        saturate_i64(position.y as i64 + offset.y as i64),
    )
}

/// Where a window opens: an explicit point moved by the offset; otherwise, with an anchor and a
/// known monitor, the anchored position on that monitor; otherwise wherever the platform
/// chooses (`None`).
pub open spec fn spec_initial_position(config: WindowConfig, monitor: Option<RectLike>) -> Option<
    Point,
> {
    let config = config.spec_normalized();
    let position = config.position;
    match position.point {
        Some(point) => Some(spec_apply_position_offset(point, position.offset)),
        None => match position.anchor {
            None => None,
            Some(anchor) => match monitor {
                None => None,
                Some(bounds) => Some(
                    spec_anchor_position(
                        anchor,
                        bounds,
                        config.spec_resolved_size(),
                        position.offset,
                    ),
                ),
            },
        },
    }
}

pub fn initial_position(config: WindowConfig, monitor: Option<RectLike>) -> (p: Option<Point>)
    ensures
        p == spec_initial_position(config, monitor),
{
    let config = config.normalized();
    let position = config.position;
    if let Some(point) = position.point {
        return Some(apply_position_offset(point, position.offset));
    }
    match position.anchor {
        None => None,
        Some(anchor) => match monitor {
            None => None,
            Some(bounds) => Some(
                anchor_position(anchor, bounds, config.resolved_size(), position.offset),
            ),
        },
    }
}

/// The attributes the host gives the platform when it creates the window.
#[derive(Clone, Debug, PartialEq, Eq)]
pub struct WindowAttributes {
    pub title: String,
    pub surface_size: Size,
    pub decorations: bool,
    pub resizable: bool,
    pub transparent: bool,
    pub visible: bool,
    pub always_on_top: bool,
    pub position: Option<Point>,
    pub min_surface_size: Option<Size>,
    pub max_surface_size: Option<Size>,
}

/// The window attributes for a configuration: its normalized, resolved size and limits, a
/// frame unless frameless, its flags, and the given position.
pub open spec fn spec_window_attributes(
    title: Seq<char>,
    config: WindowConfig,
    position: Option<Point>,
    attributes: WindowAttributes,
) -> bool {
    let config = config.spec_normalized();
    &&& attributes.title@ == title
    &&& attributes.surface_size == config.spec_resolved_size()
    &&& attributes.decorations == !config.frameless
    &&& attributes.resizable == config.resizable
    &&& attributes.transparent == config.transparent
    &&& attributes.visible == config.visible
    &&& attributes.always_on_top == config.always_on_top
    &&& attributes.position == position
    &&& attributes.min_surface_size == config.min_size
    &&& attributes.max_surface_size == config.max_size
}

pub fn window_attributes(title: &str, config: WindowConfig, position: Option<Point>) -> (a:
    WindowAttributes)
    ensures
        spec_window_attributes(title@, config, position, a),
{
    let config = config.normalized();
    WindowAttributes {
        title: String::from_str(title),
        surface_size: config.resolved_size(),
        decorations: !config.frameless,
        resizable: config.resizable,
        transparent: config.transparent,
        visible: config.visible,
        always_on_top: config.always_on_top,
        position,
        min_surface_size: config.min_size,
        max_surface_size: config.max_size,
    }
}

/// One channel scaled by alpha and rounded to the nearest integer.
pub open spec fn premultiply(channel: int, alpha: int) -> int {
    (2 * channel * alpha + 255) / 510
}

/// A color as the `0x00RRGGBB` word a software framebuffer expects, with each channel
/// premultiplied by alpha.
pub open spec fn spec_pack_color(color: Color) -> u32 {
    (premultiply(color.r as int, color.a as int) * 65536 + premultiply(color.g as int, color.a as int)
        * 256 + premultiply(color.b as int, color.a as int)) as u32
}

fn premultiply_channel(channel: u8, alpha: u8) -> (r: u32)
    ensures
        r == premultiply(channel as int, alpha as int),
        r <= 255,
{
    let c = channel as u32;
    let a = alpha as u32;
    assert(2 * c * a <= 2 * 255 * 255) by (nonlinear_arith)
        requires
            c <= 255,
            a <= 255,
    ;
    let r = (2 * c * a + 255) / 510;
    assert(r <= 255) by (nonlinear_arith)
        requires
            r == (2 * c * a + 255) / 510,
            2 * c * a <= 2 * 255 * 255,
    ;
    r
}

pub fn pack_color(color: Color) -> (r: u32)
    ensures
        r == spec_pack_color(color),
{
    let red = premultiply_channel(color.r, color.a);
    let green = premultiply_channel(color.g, color.a);
    let blue = premultiply_channel(color.b, color.a);
    red * 65536 + green * 256 + blue
}

/// Anchoring places the window against the monitor's edges: left and top anchors put its
/// left or top edge `offset` inside the monitor's, right and bottom anchors put its right or
/// bottom edge `offset` inside the monitor's, and centered axes leave equal room on both
/// sides (the odd pixel going to the far side), shifted by the offset.
pub proof fn lemma_anchor_places_against_edges(
    anchor: Anchor,
    bounds: RectLike,
    window_size: Size,
    offset: Point,
)
    requires
        -0x1000_0000 <= bounds.x <= 0x1000_0000,
        -0x1000_0000 <= bounds.y <= 0x1000_0000,
        0 <= bounds.width <= 0x1000_0000,
        0 <= bounds.height <= 0x1000_0000,
        0 <= window_size.width <= 0x1000_0000,
        0 <= window_size.height <= 0x1000_0000,
        -0x1000_0000 <= offset.x <= 0x1000_0000,
        -0x1000_0000 <= offset.y <= 0x1000_0000,
    ensures
        ({
            let p = spec_anchor_position(anchor, bounds, window_size, offset);
            let left_room = p.x - offset.x - bounds.x;
            let right_room = bounds.x + bounds.width - (p.x - offset.x + window_size.width);
            let top_room = p.y - offset.y - bounds.y;
            let bottom_room = bounds.y + bounds.height - (p.y - offset.y + window_size.height);
            &&& (anchor is TopLeft || anchor is Left || anchor is BottomLeft) ==> p.x == bounds.x
                + offset.x
            &&& (anchor is TopRight || anchor is Right || anchor is BottomRight) ==> p.x
                + window_size.width == bounds.x + bounds.width - offset.x
            &&& (anchor is Top || anchor is Center || anchor is Bottom) ==> left_room <= right_room
                <= left_room + 1
            &&& (anchor is TopLeft || anchor is Top || anchor is TopRight) ==> p.y == bounds.y
                + offset.y
            &&& (anchor is BottomLeft || anchor is Bottom || anchor is BottomRight) ==> p.y
                + window_size.height == bounds.y + bounds.height - offset.y
            &&& (anchor is Left || anchor is Center || anchor is Right) ==> top_room <= bottom_room
                <= top_room + 1
        }),
{
}

/// Fitting a window to its content stays within the window's own limits: under a content
/// policy the content constraints are exactly the window's minimum and maximum sizes, a
/// fixed size does no content sizing, and explicit content limits take the place of the
/// window's where given.
pub proof fn lemma_content_constraints_follow_limits(config: WindowConfig)
    ensures
        config.size_policy is Content ==> spec_content_constraints(config) == Some(
            Constraints { min: config.min_size, max: config.max_size },
        ),
        config.size_policy is Fixed ==> spec_content_constraints(config) is None,
        config.size_policy matches SizePolicy::ContentWithLimits { min, max } ==> {
            &&& spec_content_constraints(config) is Some
            &&& spec_content_constraints(config)->0.min == (if min is Some {
                min
            } else {
                config.min_size
            })
            &&& spec_content_constraints(config)->0.max == (if max is Some {
                max
            } else {
                config.max_size
            })
        },
{
}

/// Under a content policy, a size clamped by the content constraints never exceeds the
/// window's maximum size nor falls short of its minimum, when the minimum fits the maximum.
pub proof fn lemma_content_sizing_respects_window_limits(config: WindowConfig, preferred: Size)
    requires
        config.size_policy is Content,
        config.min_size matches Some(lo) ==> lo.width >= 0 && lo.height >= 0,
        config.max_size matches Some(hi) ==> hi.width >= 0 && hi.height >= 0,
        config.min_size is Some && config.max_size is Some ==> config.min_size->0.width
            <= config.max_size->0.width && config.min_size->0.height <= config.max_size->0.height,
    ensures
        ({
            let fitted = spec_content_constraints(config)->0.spec_clamp(preferred);
            &&& config.max_size matches Some(hi) ==> fitted.width <= hi.width && fitted.height
                <= hi.height
            &&& config.min_size matches Some(lo) ==> fitted.width >= lo.width && fitted.height
                >= lo.height
        }),
{
}

} // verus!
