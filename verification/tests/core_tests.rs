use widgetkit::color::Color;
use widgetkit::error::Error;
use widgetkit::geometry::{Insets, Point, Rect, Size};
use widgetkit::hit_test::HitTest;
use widgetkit::ids::{InstanceId, TaskId, TimerId, WidgetId};
use widgetkit::layout::{Constraints, SizePolicy};

#[test]
fn rect_inset_clamps_to_zero() {
    let rect = Rect::xywh(0, 0, 10, 5);
    let inset = rect.inset(Insets::all(10));
    assert_eq!(inset, Rect::xywh(10, 10, 0, 0));
}

#[test]
fn color_alpha_override_keeps_rgb() {
    let color = Color::rgb(10, 20, 30).with_alpha(40);
    assert_eq!(color, Color::rgba(10, 20, 30, 40));
}

#[test]
fn constraints_clamp_size_between_limits() {
    let constraints = Constraints::new(Some(Size::new(40, 20)), Some(Size::new(80, 60)));

    assert_eq!(constraints.clamp(Size::new(10, 100)), Size::new(40, 60));
}

#[test]
fn fixed_size_policy_maps_to_fixed_constraints() {
    let size = Size::new(120, 48);

    assert_eq!(
        SizePolicy::Fixed(size).constraints(),
        Constraints::new(Some(size), Some(size))
    );
}

#[test]
fn ids_keep_their_raw_values() {
    assert_eq!(WidgetId::from_raw(7).into_raw(), 7);
    assert_eq!(InstanceId::from_raw(8).into_raw(), 8);
    assert_eq!(TimerId::from_raw(9).into_raw(), 9);
    assert_eq!(TaskId::from_raw(10).into_raw(), 10);
    assert_ne!(WidgetId::from_raw(1), WidgetId::from_raw(2));
}

#[test]
fn rect_edges_and_containment() {
    let rect = Rect::xywh(2, 3, 4, 5);
    assert_eq!(rect.right(), 6);
    assert_eq!(rect.bottom(), 8);
    assert!(rect.contains(Point::new(2, 3)));
    assert!(rect.contains(Point::new(5, 7)));
    assert!(!rect.contains(Point::new(6, 7)));
    assert!(!rect.contains(Point::new(5, 8)));
    assert!(Size::new(0, 4).is_empty());
    assert!(!Size::new(1, 1).is_empty());
}

#[test]
fn inset_saturates_at_the_coordinate_limits() {
    let rect = Rect::xywh(i32::MAX - 1, 0, 10, 10);
    let inset = rect.inset(Insets::new(5, 1, 1, 1));
    assert_eq!(inset.x(), i32::MAX);
    assert_eq!(inset.width(), 4);
}

#[test]
fn constraints_clamp_is_idempotent_and_unbounded_keeps_sizes() {
    let constraints = Constraints::new(Some(Size::new(40, 20)), Some(Size::new(80, 60)));
    let once = constraints.clamp(Size::new(100, 5));
    assert_eq!(once, Size::new(80, 20));
    assert_eq!(constraints.clamp(once), once);
    assert_eq!(Constraints::unbounded().clamp(Size::new(7, 9)), Size::new(7, 9));
}

#[test]
fn content_policies_map_to_their_limits() {
    assert_eq!(SizePolicy::Content.constraints(), Constraints::unbounded());
    let min = Some(Size::new(1, 2));
    let max = Some(Size::new(3, 4));
    assert_eq!(
        SizePolicy::ContentWithLimits { min, max }.constraints(),
        Constraints::new(min, max)
    );
}

#[test]
fn error_kinds_render_their_messages() {
    assert_eq!(Error::message("plain").to_display_string(), "plain");
    assert_eq!(
        Error::platform("no window").to_display_string(),
        "platform error: no window"
    );
    assert_eq!(
        Error::render("no pixels").to_display_string(),
        "render error: no pixels"
    );
}

#[test]
fn error_from_string_is_a_plain_message() {
    assert_eq!(Error::from(String::from("boom")), Error::message("boom"));
    assert_eq!(Error::from("boom"), Error::message("boom"));
}

#[test]
fn hit_test_only_accepts_input_when_it_hits() {
    assert!(HitTest::hit_if(true).accepts_input());
    assert!(!HitTest::hit_if(false).accepts_input());
}
