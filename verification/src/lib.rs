//! WidgetKit: geometry, layout, window configuration, the software render pipeline and the
//! runtime's decision logic, with their contracts.

pub mod geometry;
pub mod color;
pub mod error;
pub mod ids;
pub mod event;
pub mod hit_test;
pub mod layout;
pub mod windows;
pub mod runtime;
pub mod render;
