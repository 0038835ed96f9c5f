use vstd::prelude::*;

verus! {

/// A relative pointer movement reported by one device.
#[derive(Debug, Clone, PartialEq, Eq)]
pub struct MouseMotionEvent {
    pub device_id: String,
    pub x: i16,
    pub y: i16,
}

/// A normalized input event. `Empty` is only the "no data" result of a poll
/// and is never queued.
#[derive(Debug, Clone, PartialEq)]
pub enum Event {
    Empty,
    MouseMotion(MouseMotionEvent),
}

impl MouseMotionEvent {
    /// A copy of the event, field for field.
    pub fn duplicate(&self) -> (r: MouseMotionEvent)
        ensures
            r == *self,
    {
        MouseMotionEvent { device_id: self.device_id.clone(), x: self.x, y: self.y }
    }
}

impl Event {
    /// A copy of the event, variant and fields alike.
    pub fn duplicate(&self) -> (r: Event)
        ensures
            r == *self,
    {
        match self {
            Event::Empty => Event::Empty,
            Event::MouseMotion(m) => Event::MouseMotion(m.duplicate()),
        }
    }
}

impl Default for Event {
    fn default() -> (r: Event)
        ensures
            r == Event::Empty,
    {
        Event::Empty
    }
}

} // verus!
