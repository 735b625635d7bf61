use widgetkit::color::Color;
use widgetkit::geometry::{Point, Size};
use widgetkit::layout::SizePolicy;
use widgetkit::windows::{
    anchor_position, apply_position_offset, content_constraints, content_resize_step,
    content_resize_target, default_window_size, initial_position, pack_color, plan_window_event,
    visibility_changed, window_attributes, Anchor, FollowUp, PositionConfig, RectLike,
    WindowConfig, WindowEventKind, WindowsHost,
};

fn full_config() -> WindowConfig {
    WindowConfig {
        size: Some(Size::new(400, 240)),
        min_size: Some(Size::new(280, 120)),
        max_size: Some(Size::new(640, 360)),
        size_policy: SizePolicy::Fixed(Size::new(400, 240)),
        resizable: false,
        frameless: true,
        transparent: true,
        always_on_top: true,
        visible: false,
        position: PositionConfig::anchored(Anchor::TopRight).with_offset(Point::new(4, 8)),
    }
}

#[test]
fn windows_host_defaults_to_window_config() {
    let host = WindowsHost::new();

    assert_eq!(host.config(), &WindowConfig::default());
}

#[test]
fn windows_host_uses_window_config() {
    let config = full_config();

    let host = WindowsHost::new().with_config(config);

    assert_eq!(host.config(), &config);
}

#[test]
fn windows_host_size_builder_updates_window_config() {
    let host = WindowsHost::new().with_size(Size::new(400, 240));

    assert_eq!(host.config().size, Some(Size::new(400, 240)));
    assert_eq!(
        host.config().size_policy,
        SizePolicy::Fixed(Size::new(400, 240))
    );
}

#[test]
fn windows_host_can_disable_standard_top_bar_through_config() {
    let host = WindowsHost::new()
        .with_size(Size::new(400, 240))
        .with_standard_top_bar(false);

    assert_eq!(host.config().size, Some(Size::new(400, 240)));
    assert!(host.config().frameless);
}

#[test]
fn windows_host_builders_update_window_config_flags() {
    let host = WindowsHost::new()
        .with_min_size(Size::new(200, 100))
        .with_max_size(Size::new(800, 600))
        .size_policy(SizePolicy::Content)
        .resizable(false)
        .frameless(true)
        .transparent(true)
        .always_on_top(true)
        .visible(false)
        .position(Point::new(20, 30))
        .anchor(Anchor::BottomRight)
        .offset(12, 16);

    assert_eq!(host.config().min_size, Some(Size::new(200, 100)));
    assert_eq!(host.config().max_size, Some(Size::new(800, 600)));
    assert_eq!(host.config().size_policy, SizePolicy::Content);
    assert!(!host.config().resizable);
    assert!(host.config().frameless);
    assert!(host.config().transparent);
    assert!(host.config().always_on_top);
    assert!(!host.config().visible);
    assert_eq!(host.config().position.point, None);
    assert_eq!(host.config().position.anchor, Some(Anchor::BottomRight));
    assert_eq!(host.config().position.offset, Point::new(12, 16));
}

#[test]
fn windows_host_accepts_explicit_position_config() {
    let host = WindowsHost::new()
        .position_config(PositionConfig::at(Point::new(20, 30)).with_offset(Point::new(4, 8)));

    assert_eq!(host.config().position.point, Some(Point::new(20, 30)));
    assert_eq!(host.config().position.anchor, None);
    assert_eq!(host.config().position.offset, Point::new(4, 8));
}

#[test]
fn window_attributes_apply_config_flags() {
    let attributes = window_attributes(
        "widget",
        WindowConfig {
            size: Some(Size::new(400, 240)),
            min_size: Some(Size::new(280, 120)),
            max_size: Some(Size::new(640, 360)),
            size_policy: SizePolicy::Fixed(Size::new(400, 240)),
            resizable: false,
            frameless: true,
            transparent: true,
            always_on_top: true,
            visible: false,
            position: PositionConfig::at(Point::new(20, 30)).with_offset(Point::new(12, 16)),
        },
        Some(Point::new(32, 46)),
    );

    assert_eq!(attributes.title, "widget");
    assert_eq!(attributes.surface_size, Size::new(400, 240));
    assert_eq!(attributes.min_surface_size, Some(Size::new(280, 120)));
    assert_eq!(attributes.max_surface_size, Some(Size::new(640, 360)));
    assert!(!attributes.resizable);
    assert!(!attributes.decorations);
    assert!(attributes.transparent);
    assert!(attributes.always_on_top);
    assert!(!attributes.visible);
    assert_eq!(attributes.position, Some(Point::new(32, 46)));
}

#[test]
fn anchor_position_offsets_from_the_nearest_edges() {
    let position = anchor_position(
        Anchor::TopRight,
        RectLike {
            x: 0,
            y: 0,
            width: 1920,
            height: 1080,
        },
        Size::new(320, 120),
        Point::new(12, 24),
    );

    assert_eq!(position, Point::new(1588, 24));
}

#[test]
fn content_constraints_follow_size_policy_limits() {
    let constraints = content_constraints(WindowConfig {
        size: None,
        min_size: None,
        max_size: None,
        size_policy: SizePolicy::ContentWithLimits {
            min: Some(Size::new(120, 80)),
            max: Some(Size::new(420, 260)),
        },
        resizable: true,
        frameless: false,
        transparent: false,
        always_on_top: false,
        visible: true,
        position: PositionConfig::default(),
    })
    .unwrap();

    assert_eq!(constraints.min, Some(Size::new(120, 80)));
    assert_eq!(constraints.max, Some(Size::new(420, 260)));
}

#[test]
fn content_resize_target_coalesces_repeated_target_size() {
    let target = content_resize_target(
        Size::new(320, 120),
        Size::new(420, 180),
        Some(Size::new(420, 180)),
    );

    assert_eq!(target, None);
}

#[test]
fn content_resize_target_skips_current_window_size() {
    let target = content_resize_target(Size::new(420, 180), Size::new(420, 180), None);

    assert_eq!(target, None);
}

#[test]
fn content_resize_target_requests_changed_size() {
    let target = content_resize_target(Size::new(320, 120), Size::new(420, 180), None);

    assert_eq!(target, Some(Size::new(420, 180)));
}

#[test]
fn fixed_policy_has_no_content_constraints() {
    assert_eq!(content_constraints(full_config()), None);
}

#[test]
fn content_resize_step_requests_once_for_the_same_preferred_size() {
    let first = content_resize_step(Size::new(320, 120), Size::new(420, 180), None);
    assert_eq!(first.request, Some(Size::new(420, 180)));
    assert_eq!(first.last_content_size, Some(Size::new(420, 180)));
    let second = content_resize_step(Size::new(320, 120), Size::new(420, 180), first.last_content_size);
    assert_eq!(second.request, None);
    let empty = content_resize_step(Size::new(320, 120), Size::new(0, 10), None);
    assert_eq!(empty.request, None);
    assert_eq!(empty.last_content_size, None);
}

#[test]
fn anchors_place_windows_inside_the_monitor() {
    let monitor = RectLike { x: 100, y: 50, width: 1000, height: 800 };
    let size = Size::new(301, 101);
    let offset = Point::new(10, 20);
    assert_eq!(anchor_position(Anchor::TopLeft, monitor, size, offset), Point::new(110, 70));
    assert_eq!(anchor_position(Anchor::Center, monitor, size, offset), Point::new(459, 419));
    assert_eq!(anchor_position(Anchor::BottomRight, monitor, size, offset), Point::new(789, 729));
    assert_eq!(apply_position_offset(Point::new(1, 2), Point::new(3, 4)), Point::new(4, 6));
}

#[test]
fn initial_position_prefers_an_explicit_point() {
    let config = WindowConfig {
        position: PositionConfig::at(Point::new(20, 30)).with_offset(Point::new(4, 8)),
        ..WindowConfig::default()
    };
    assert_eq!(initial_position(config, None), Some(Point::new(24, 38)));

    let anchored = WindowConfig {
        position: PositionConfig::anchored(Anchor::TopLeft),
        ..WindowConfig::default()
    };
    assert_eq!(initial_position(anchored, None), None);
    let monitor = RectLike { x: 0, y: 0, width: 1920, height: 1080 };
    assert_eq!(initial_position(anchored, Some(monitor)), Some(Point::new(0, 0)));
    assert_eq!(initial_position(WindowConfig::default(), Some(monitor)), None);
}

#[test]
fn default_config_resolves_to_the_default_size() {
    assert_eq!(default_window_size(), Size::new(320, 120));
    assert_eq!(WindowConfig::default().resolved_size(), Size::new(320, 120));
    let normalized = WindowConfig::default().normalized();
    assert_eq!(normalized.normalized(), normalized);
}

#[test]
fn pack_color_premultiplies_each_channel() {
    assert_eq!(pack_color(Color::rgb(255, 128, 1)), 0x00ff8001);
    assert_eq!(pack_color(Color::rgba(255, 255, 255, 128)), 0x00808080);
    assert_eq!(pack_color(Color::rgba(200, 100, 50, 0)), 0);
}

#[test]
fn window_events_are_planned() {
    let close = plan_window_event(WindowEventKind::CloseRequested);
    assert!(close.dispatch);
    assert_eq!(close.follow_up, FollowUp::ShutdownAndExit);
    let key = plan_window_event(WindowEventKind::KeyPressed { has_text: true });
    assert!(key.dispatch && key.text_input);
    let ime = plan_window_event(WindowEventKind::ImeCommit { has_text: false });
    assert!(!ime.dispatch && !ime.text_input);
    assert_eq!(plan_window_event(WindowEventKind::Resized).follow_up, FollowUp::FitContentThenRedraw);
    assert_eq!(plan_window_event(WindowEventKind::RedrawRequested).follow_up, FollowUp::Render);
    assert!(visibility_changed(true, false));
    assert!(!visibility_changed(true, true));
}
