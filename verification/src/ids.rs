use vstd::prelude::*;

verus! {

/// Identifies a widget registered with a runtime.
#[derive(Clone, Copy, Debug, PartialEq, Eq, Hash, Structural)]
pub struct WidgetId(pub u64);

/// Identifies one mounted lifetime of a widget.
#[derive(Clone, Copy, Debug, PartialEq, Eq, Hash, Structural)]
pub struct InstanceId(pub u64);

/// Identifies a timer created through a scheduler.
#[derive(Clone, Copy, Debug, PartialEq, Eq, Hash, Structural)]
pub struct TimerId(pub u64);

/// Identifies a background task.
#[derive(Clone, Copy, Debug, PartialEq, Eq, Hash, Structural)]
pub struct TaskId(pub u64);

impl WidgetId {
    pub fn from_raw(raw: u64) -> (id: Self)
        ensures
            id.0 == raw,
    {
        WidgetId(raw)
    }

    pub fn into_raw(self) -> (raw: u64)
        ensures
            raw == self.0,
    {
        self.0
    }
}

impl InstanceId {
    pub fn from_raw(raw: u64) -> (id: Self)
        ensures
            id.0 == raw,
    {
        InstanceId(raw)
    }

    pub fn into_raw(self) -> (raw: u64)
        ensures
            raw == self.0,
    {
        self.0
    }
}

impl TimerId {
    pub fn from_raw(raw: u64) -> (id: Self)
        ensures
            id.0 == raw,
    {
        TimerId(raw)
    }

    pub fn into_raw(self) -> (raw: u64)
        ensures
            raw == self.0,
    {
        self.0
    }
}

impl TaskId {
    pub fn from_raw(raw: u64) -> (id: Self)
        ensures
            id.0 == raw,
    {
        TaskId(raw)
    }

    pub fn into_raw(self) -> (raw: u64)
        ensures
            raw == self.0,
    {
        self.0
    }
}

} // verus!
