use mansion::error::Error;
use mansion::req_map::RequestMap;

#[test]
fn ids_are_drawn_in_turn_from_zero() {
    let mut m: RequestMap<&str> = RequestMap::new();
    assert_eq!(m.push("a").ok(), Some(0));
    assert_eq!(m.push("b").ok(), Some(1));
    assert_eq!(m.push("c").ok(), Some(2));
}

#[test]
fn notify_hands_back_the_waiter_once() {
    let mut m: RequestMap<String> = RequestMap::new();
    let id = m.push("first".to_string()).ok().unwrap();
    let other = m.push("second".to_string()).ok().unwrap();
    assert_eq!(m.notify(id), Some("first".to_string()));
    assert_eq!(m.notify(id), None);
    assert_eq!(m.notify(other), Some("second".to_string()));
}

#[test]
fn notify_of_unknown_id_gives_nothing() {
    let mut m: RequestMap<u8> = RequestMap::new();
    assert_eq!(m.notify(7), None);
    assert_eq!(m.push(1).ok(), Some(0));
    assert_eq!(m.notify(7), None);
    assert_eq!(m.notify(0), Some(1));
}

#[test]
fn counter_wraps_and_refuses_a_pending_id() {
    let mut m: RequestMap<u32> = RequestMap::new();
    for i in 0..65536u32 {
        assert_eq!(m.push(i).ok(), Some(i as u16));
    }
    // The counter is back at 0, and request 0 still waits.
    assert!(matches!(m.push(99), Err(Error::IdCollision)));
    // The counter moved on anyway: id 1 is drawn next, and it is still pending too.
    assert!(matches!(m.push(98), Err(Error::IdCollision)));
    // Once id 2 is answered, the next draw (2) succeeds.
    assert_eq!(m.notify(2), Some(2));
    assert_eq!(m.push(97).ok(), Some(2));
    assert_eq!(m.notify(0), Some(0));
}

#[test]
fn error_messages() {
    assert_eq!(Error::Closed.message(), "Connection closed.");
    assert_eq!(Error::IdCollision.message(), "Id collision occured.");
    assert_eq!(Error::Custom("boom".to_string()).message(), "boom");
}
