//! The runtime's decision logic: redraw invalidation, the widget instance lifecycle, the
//! timer table of the scheduler, the commands widgets send to their window, and the
//! application builder.

pub mod lifecycle;
pub mod app;
pub mod redraw;
pub mod timers;
pub mod window;
