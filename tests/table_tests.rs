use window_host::model::WindowState;
use window_host::table::{TableError, WindowTable};

#[test]
fn new_handles_are_distinct_while_live() {
    let mut t: WindowTable<String> = WindowTable::new();
    let a = t.insert(10, "a".to_string()).unwrap();
    let b = t.insert(11, "b".to_string()).unwrap();
    let c = t.insert(12, "c".to_string()).unwrap();
    assert_ne!(a, b);
    assert_ne!(b, c);
    assert_ne!(a, c);
    t.remove(b).unwrap();
    let d = t.insert(13, "d".to_string()).unwrap();
    assert_ne!(d, a);
    assert_ne!(d, c);
    assert_ne!(d, b);
    assert_eq!(t.get(a), Some(&"a".to_string()));
    assert_eq!(t.get(d), Some(&"d".to_string()));
    assert_eq!(t.issued(), 4);
}

#[test]
fn unknown_handle_is_invalid() {
    let mut t: WindowTable<u8> = WindowTable::new();
    assert_eq!(t.set_visible(0, true), Err(TableError::InvalidHandle));
    assert_eq!(t.remove(7), Err(TableError::InvalidHandle));
    assert_eq!(t.get(0), None);
}

#[test]
fn dropped_handle_is_invalid() {
    let mut t: WindowTable<u8> = WindowTable::new();
    let h = t.insert(5, 1).unwrap();
    assert_eq!(t.remove(h), Ok(1));
    assert_eq!(t.remove(h), Err(TableError::InvalidHandle));
    assert_eq!(t.set_visible(h, true), Err(TableError::InvalidHandle));
    assert_eq!(t.set_visible(h, false), Err(TableError::InvalidHandle));
    let g = t.insert(6, 2).unwrap();
    assert_ne!(g, h);
    assert_eq!(t.set_visible(h, true), Err(TableError::InvalidHandle));
}

#[test]
fn window_is_hidden_until_shown() {
    let mut t: WindowTable<u8> = WindowTable::new();
    let h = t.insert(42, 0).unwrap();
    assert_eq!(t.state(h), Some(WindowState { native_id: 42, visible: false }));
    assert_eq!(t.set_visible(h, false), Ok(()));
    let other = t.insert(43, 1).unwrap();
    assert_eq!(t.set_visible(other, true), Ok(()));
    assert_eq!(t.state(h).unwrap().visible, false);
    assert_eq!(t.set_visible(h, true), Ok(()));
    assert_eq!(t.state(h), Some(WindowState { native_id: 42, visible: true }));
}

#[test]
fn new_then_show_succeeds() {
    let mut t: WindowTable<&str> = WindowTable::new();
    let h = t.insert(100, "main");
    assert!(h.is_ok());
    let h = h.unwrap();
    assert_eq!(t.state(h).unwrap().visible, false);
    assert_eq!(t.set_visible(h, true), Ok(()));
    assert_eq!(t.state(h).unwrap().visible, true);
}

#[test]
fn show_after_drop_fails() {
    let mut t: WindowTable<&str> = WindowTable::new();
    let h = t.insert(100, "main").unwrap();
    assert_eq!(t.remove(h), Ok("main"));
    assert_eq!(t.set_visible(h, true), Err(TableError::InvalidHandle));
}

#[test]
fn exhausted_table_refuses_new_windows() {
    let mut t: WindowTable<u8> = WindowTable::with_limit(2);
    assert_eq!(t.insert(1, 1), Ok(0));
    assert_eq!(t.insert(2, 2), Ok(1));
    assert_eq!(t.insert(3, 3), Err(TableError::Exhausted));
    t.remove(0).unwrap();
    assert_eq!(t.insert(4, 4), Err(TableError::Exhausted));
    assert_eq!(t.get(1), Some(&2));
}

#[test]
fn zero_limit_table_issues_nothing() {
    let mut t: WindowTable<u8> = WindowTable::with_limit(0);
    assert_eq!(t.insert(1, 1), Err(TableError::Exhausted));
    assert_eq!(t.issued(), 0);
}

#[test]
fn handle_of_finds_live_windows_only() {
    let mut t: WindowTable<u8> = WindowTable::new();
    let a = t.insert(900, 0).unwrap();
    let b = t.insert(901, 1).unwrap();
    assert_eq!(t.handle_of(900), Some(a));
    assert_eq!(t.handle_of(901), Some(b));
    assert_eq!(t.handle_of(902), None);
    t.remove(a).unwrap();
    assert_eq!(t.handle_of(900), None);
    assert_eq!(t.handle_of(901), Some(b));
}
