use widgetkit::error::Error;
use widgetkit::geometry::Size;
use widgetkit::ids::InstanceId;
use widgetkit::render::surface::SoftwareRenderer;
use widgetkit::runtime::app::{HostRunner, WidgetApp};
use widgetkit::runtime::lifecycle::{
    size_from_pixels, surface_size_at_least_one, DispatchToken, InitializeStep, RunnerCore,
};
use widgetkit::runtime::redraw::RedrawState;
use widgetkit::runtime::timers::{
    advance_deadline, FiringKind, TimerBook, TimerCommand, TimerFiring, TimerTable,
};

#[test]
fn stale_generation_token_does_not_match_current_runtime() {
    let token = DispatchToken::new(InstanceId::from_raw(1), 1);
    let next_generation = DispatchToken::new(token.instance_id, 2);
    assert_ne!(token, next_generation);
}

#[test]
fn redraw_requests_coalesce_until_rendered() {
    let mut redraw = RedrawState::new();
    assert!(redraw.request());
    assert!(!redraw.request());
    assert!(!redraw.request());
    assert!(redraw.is_dirty());
    assert!(redraw.take_request());
    assert!(!redraw.take_request());
    assert!(redraw.begin_render());
    redraw.finish_render();
    assert!(!redraw.is_dirty());
    assert!(!redraw.take_request());
}

#[test]
fn runner_core_wakes_once_for_the_first_frame() {
    let mut core = RunnerCore::new(InstanceId::from_raw(3));
    assert_eq!(core.begin_initialize(Size::new(32, 32)), Ok(InitializeStep::Mount));
    assert!(core.finish_initialize());
    assert!(!core.request_render());
    assert!(!core.request_render());
    assert!(core.needs_redraw());
    assert!(core.take_redraw_request());
    assert!(!core.take_redraw_request());
    assert!(core.begin_render(32, 32));
    core.finish_render();
    assert!(!core.needs_redraw());
    assert!(!core.take_redraw_request());
    assert_eq!(core.surface_size(), Size::new(32, 32));
}

#[test]
fn runner_core_shutdown_skips_late_renders() {
    let mut core = RunnerCore::new(InstanceId::from_raw(4));
    core.begin_initialize(Size::new(32, 32)).unwrap();
    core.finish_initialize();
    assert!(core.needs_redraw());
    assert!(core.take_redraw_request());
    let token = core.current_dispatch_token();
    assert!(core.accepts_token(token));

    core.shutdown();

    assert!(!core.needs_redraw());
    assert!(!core.take_redraw_request());
    assert!(!core.begin_render(32, 32));
    assert!(!core.accepts_token(token));
    assert!(core.is_shut_down());
}

#[test]
fn runner_core_supports_a_single_lifetime() {
    let mut core = RunnerCore::new(InstanceId::from_raw(5));
    core.begin_initialize(Size::new(10, 10)).unwrap();
    core.finish_initialize();
    assert_eq!(
        core.begin_initialize(Size::new(10, 10)),
        Ok(InitializeStep::AlreadyInitialized)
    );
    core.shutdown();
    assert_eq!(
        core.begin_initialize(Size::new(10, 10)),
        Err(Error::message(
            "widgetkit v0.1 AppRunner supports a single widget instance lifetime"
        ))
    );
}

#[test]
fn runner_core_layout_requests_are_taken_once() {
    let mut core = RunnerCore::new(InstanceId::from_raw(6));
    assert!(!core.take_layout_request());
    core.begin_initialize(Size::new(0, 0)).unwrap();
    assert_eq!(core.surface_size(), Size::new(320, 120));
    core.finish_initialize();
    assert!(core.take_layout_request());
    assert!(!core.take_layout_request());
    assert!(!core.set_surface_size(Size::new(0, 5)));
    assert!(!core.needs_layout());
}

#[test]
fn surface_sizes_come_from_pixels() {
    assert_eq!(surface_size_at_least_one(0, 0), Size::new(1, 1));
    assert_eq!(surface_size_at_least_one(640, 480), Size::new(640, 480));
    assert_eq!(size_from_pixels(u32::MAX, 3), Size::new(i32::MAX, 3));
}

#[test]
fn timer_book_reports_a_cancel_once() {
    let mut book = TimerBook::new();
    book.insert(1);
    book.insert(2);
    assert_eq!(book.len(), 2);
    assert!(book.cancel(1));
    assert!(!book.cancel(1));
    book.reap(2);
    assert!(!book.contains(2));
    assert!(!book.clear());
}

#[test]
fn timer_table_fires_due_timers_in_deadline_order() {
    let mut table = TimerTable::new();
    assert!(table.apply_command(TimerCommand::Schedule { timer_id: 1, deadline: 30, interval: None }));
    assert!(table.apply_command(TimerCommand::Schedule { timer_id: 2, deadline: 10, interval: Some(10) }));
    assert!(table.apply_command(TimerCommand::Schedule { timer_id: 3, deadline: 50, interval: None }));
    assert_eq!(table.next_timeout(5), Some(5));

    let fired = table.dispatch_due(35);
    assert_eq!(
        fired,
        vec![
            TimerFiring { timer_id: 2, kind: FiringKind::Repeat },
            TimerFiring { timer_id: 1, kind: FiringKind::Once },
        ]
    );
    assert_eq!(table.next_timeout(35), Some(5));

    assert!(table.apply_command(TimerCommand::Cancel { timer_id: 2 }));
    assert_eq!(table.next_timeout(35), Some(15));
    assert!(table.apply_command(TimerCommand::Clear));
    assert_eq!(table.next_timeout(35), None);
    assert!(!table.apply_command(TimerCommand::Shutdown));
}

#[test]
fn repeating_deadlines_skip_missed_periods() {
    assert_eq!(advance_deadline(10, 10, 5), 20);
    assert_eq!(advance_deadline(10, 10, 10), 20);
    assert_eq!(advance_deadline(10, 10, 35), 40);
}

struct RecordingHost;

impl HostRunner<u32, SoftwareRenderer> for RecordingHost {
    fn run(self, widget_name: String, widget: u32, _renderer: SoftwareRenderer) -> Result<(), Error> {
        if widget_name == "clock" && widget == 7 {
            Ok(())
        } else {
            Err(Error::message("unexpected parts"))
        }
    }
}

#[test]
fn widget_app_hands_its_parts_to_the_host() {
    let result = WidgetApp::new()
        .widget("clock", 7u32)
        .host(RecordingHost)
        .renderer(SoftwareRenderer::new())
        .run();
    assert_eq!(result, Ok(()));
}

#[test]
fn repeated_render_requests_wake_once_and_mark_layout() {
    let mut core = RunnerCore::new(InstanceId::from_raw(9));
    core.begin_initialize(Size::new(8, 8)).unwrap();
    core.finish_initialize();
    assert!(core.begin_render(8, 8));
    core.finish_render();
    assert!(core.take_layout_request());
    let wakes: Vec<bool> = (0..4).map(|_| core.request_render()).collect();
    assert_eq!(wakes, vec![true, false, false, false]);
    assert!(core.needs_redraw());
    assert!(core.needs_layout());
}
