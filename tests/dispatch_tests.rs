use window_host::dispatch::{route, Dispatch, Dispatcher};
use window_host::event::{Event, NativeInput};
use window_host::table::WindowTable;

fn key(c: char) -> NativeInput {
    NativeInput::Key { pressed: true, repeat: false, text: Some(c) }
}

#[test]
fn events_are_delivered_in_order_one_at_a_time() {
    let mut t: WindowTable<u8> = WindowTable::new();
    t.insert(7, 0).unwrap();
    let mut d = Dispatcher::new();
    d.observe(&t, 7, key('a'));
    d.observe(&t, 7, key('b'));
    d.observe(&t, 7, NativeInput::CloseRequested);

    let first = d.begin().unwrap();
    assert_eq!(first, Dispatch { window_id: 7, event: Event::KeyDown(97) });
    // No second call while the first has not returned.
    assert_eq!(d.begin(), None);
    d.finish(true);
    let second = d.begin().unwrap();
    assert_eq!(second, Dispatch { window_id: 7, event: Event::KeyDown(98) });
    d.finish(true);
    let third = d.begin().unwrap();
    assert_eq!(third, Dispatch { window_id: 7, event: Event::Close });
    d.finish(true);
    assert_eq!(d.begin(), None);
    assert!(!d.has_pending());
}

#[test]
fn close_is_delivered_once_with_the_window_id() {
    let mut t: WindowTable<u8> = WindowTable::new();
    t.insert(31, 0).unwrap();
    t.insert(32, 1).unwrap();
    let mut d = Dispatcher::new();
    d.observe(&t, 32, NativeInput::CloseRequested);
    assert_eq!(d.begin(), Some(Dispatch { window_id: 32, event: Event::Close }));
    d.finish(true);
    assert_eq!(d.begin(), None);
}

#[test]
fn events_of_foreign_windows_are_not_dispatched() {
    let mut t: WindowTable<u8> = WindowTable::new();
    let h = t.insert(1, 0).unwrap();
    assert_eq!(route(&t, 2, NativeInput::CloseRequested), None);
    let mut d = Dispatcher::new();
    d.observe(&t, 2, NativeInput::CloseRequested);
    assert!(!d.has_pending());
    assert_eq!(d.begin(), None);
    t.remove(h).unwrap();
    assert_eq!(route(&t, 1, NativeInput::CloseRequested), None);
}

#[test]
fn a_fault_stops_further_dispatch() {
    let mut t: WindowTable<u8> = WindowTable::new();
    t.insert(5, 0).unwrap();
    let mut d = Dispatcher::new();
    d.observe(&t, 5, key('x'));
    d.observe(&t, 5, key('y'));
    assert!(d.begin().is_some());
    d.finish(false);
    assert!(d.is_faulted());
    assert_eq!(d.begin(), None);
    assert!(d.has_pending());
}

#[test]
fn unforwarded_events_are_not_queued() {
    let mut t: WindowTable<u8> = WindowTable::new();
    t.insert(5, 0).unwrap();
    let mut d = Dispatcher::new();
    d.observe(&t, 5, NativeInput::Other);
    d.observe(&t, 5, NativeInput::Key { pressed: true, repeat: true, text: Some('q') });
    assert!(!d.has_pending());
}
