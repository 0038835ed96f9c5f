use pembejeo::{motion_from_value, Event, EventQueue, MouseMotionEvent, GENERIC_DESKTOP_PAGE, USAGE_X, USAGE_Y};

fn motion(id: &str, x: i16, y: i16) -> Event {
    Event::MouseMotion(MouseMotionEvent { device_id: id.to_string(), x, y })
}

#[test]
fn x_axis_value_becomes_motion() {
    let r = motion_from_value("0x10".to_string(), 0, GENERIC_DESKTOP_PAGE, USAGE_X, 12);
    assert_eq!(r, Some(motion("0x10", 12, 0)));
}

#[test]
fn y_axis_value_becomes_motion() {
    let r = motion_from_value("0x10".to_string(), 0, 0x01, 0x31, -9);
    assert_eq!(r, Some(motion("0x10", 0, -9)));
}

#[test]
fn zero_delta_is_suppressed() {
    assert_eq!(motion_from_value("d".to_string(), 0, GENERIC_DESKTOP_PAGE, USAGE_X, 0), None);
    assert_eq!(motion_from_value("d".to_string(), 0, GENERIC_DESKTOP_PAGE, USAGE_Y, 0), None);
    let mut q = EventQueue::new();
    q.ingest_value("d".to_string(), 0, GENERIC_DESKTOP_PAGE, USAGE_X, 0);
    q.ingest_value("d".to_string(), 0, GENERIC_DESKTOP_PAGE, USAGE_Y, 0);
    assert_eq!(q.len(), 0);
}

#[test]
fn value_is_truncated_to_sixteen_bits() {
    let r = motion_from_value("d".to_string(), 0, GENERIC_DESKTOP_PAGE, USAGE_X, 65537);
    assert_eq!(r, Some(motion("d", 1, 0)));
    let r = motion_from_value("d".to_string(), 0, GENERIC_DESKTOP_PAGE, USAGE_Y, 65536);
    assert_eq!(r, None);
}

#[test]
fn unrecognized_pairs_are_dropped() {
    assert_eq!(motion_from_value("d".to_string(), 0, GENERIC_DESKTOP_PAGE, 0x38, 4), None);
    assert_eq!(motion_from_value("d".to_string(), 0, 0x09, USAGE_X, 4), None);
    assert_eq!(motion_from_value("d".to_string(), 0, 0xFF00, 0x0C, 4), None);
}

#[test]
fn failed_status_is_dropped() {
    assert_eq!(motion_from_value("d".to_string(), 1, GENERIC_DESKTOP_PAGE, USAGE_X, 4), None);
}

#[test]
fn ingest_value_queues_in_order() {
    let mut q = EventQueue::new();
    q.ingest_value("d1".to_string(), 0, GENERIC_DESKTOP_PAGE, USAGE_X, 5);
    q.ingest_value("d1".to_string(), 0, GENERIC_DESKTOP_PAGE, 0x38, 1);
    q.ingest_value("d1".to_string(), 0, GENERIC_DESKTOP_PAGE, USAGE_Y, -3);
    let mut ev = Event::default();
    assert!(q.poll(&mut ev));
    assert_eq!(ev, motion("d1", 5, 0));
    assert!(q.poll(&mut ev));
    assert_eq!(ev, motion("d1", 0, -3));
    assert!(!q.poll(&mut ev));
}
