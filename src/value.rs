use vstd::prelude::*;

use crate::event::{Event, MouseMotionEvent};
use crate::queue::{pushed, EventQueue};

verus! {

/// The generic-desktop usage page.
pub const GENERIC_DESKTOP_PAGE: u32 = 0x01;

/// The generic-desktop X axis usage.
pub const USAGE_X: u32 = 0x30;

/// The generic-desktop Y axis usage.
pub const USAGE_Y: u32 = 0x31;

/// The motion, as `(x, y)`, that a value of `usage` on `page` stands for, if
/// that pair is a pointer axis; the value is truncated to 16 bits.
pub open spec fn axis_motion(page: u32, usage: u32, value: i64) -> Option<(i16, i16)> {
    if page == GENERIC_DESKTOP_PAGE && usage == USAGE_X {
        Some((value as i16, 0i16))
    } else if page == GENERIC_DESKTOP_PAGE && usage == USAGE_Y {
        Some((0i16, value as i16))
    } else {
        None
    }
}

/// The motion that a value callback delivers: only on a successful status,
/// only for a pointer axis, and only when it moves.
pub open spec fn delivered_motion(status: i32, page: u32, usage: u32, value: i64) -> Option<(i16, i16)> {
    if status != 0 {
        None
    } else {
        match axis_motion(page, usage, value) {
            Some((x, y)) => if x != 0 || y != 0 {
                Some((x, y))
            } else {
                None
            },
            None => None,
        }
    }
}

/// Translates one reported value into an event: a `MouseMotion` of
/// `device_id` where `delivered_motion` gives one, nothing otherwise.
pub fn motion_from_value(device_id: String, status: i32, page: u32, usage: u32, value: i64) -> (r:
    Option<Event>)
    ensures
        delivered_motion(status, page, usage, value) is None ==> r is None,
        delivered_motion(status, page, usage, value) matches Some((x, y)) ==> r == Some(
            Event::MouseMotion(MouseMotionEvent { device_id, x, y }),
        ),
{
    if status != 0 || page != GENERIC_DESKTOP_PAGE {
        return None;
    }
    let truncated = value as i16;
    let (x, y): (i16, i16) = if usage == USAGE_X {
        (truncated, 0)
    } else if usage == USAGE_Y {
        (0, truncated)
    } else {
        return None;
    };
    if x == 0 && y == 0 {
        return None;
    }
    Some(Event::MouseMotion(MouseMotionEvent { device_id, x, y }))
}

impl EventQueue {
    /// Handles one value callback: queues the event that `motion_from_value`
    /// gives, if any, and leaves the queue untouched otherwise.
    pub fn ingest_value(&mut self, device_id: String, status: i32, page: u32, usage: u32, value: i64)
        requires
            old(self).wf(),
        ensures
            final(self).wf(),
            delivered_motion(status, page, usage, value) is None ==> final(self)@ == old(self)@,
            delivered_motion(status, page, usage, value) matches Some((x, y)) ==> final(self)@
                == pushed(old(self)@, Event::MouseMotion(MouseMotionEvent { device_id, x, y })),
    {
        match motion_from_value(device_id, status, page, usage, value) {
            Some(event) => self.push_event(&event),
            None => {},
        }
    }
}

/// A zero delta on either axis carries no motion: it is never delivered, so a
/// value callback reporting it queues nothing.
pub proof fn lemma_zero_delta_suppressed(status: i32, value: i64)
    requires
        value as i16 == 0,
    ensures
        delivered_motion(status, GENERIC_DESKTOP_PAGE, USAGE_X, value) is None,
        delivered_motion(status, GENERIC_DESKTOP_PAGE, USAGE_Y, value) is None,
{
}

} // verus!
