use mansion::event::{Event, ServerEvent};

#[test]
fn connected_event() {
    let e: ServerEvent<String, u32, ()> = ServerEvent::connected(7);
    assert!(e.is_connected());
    assert!(!e.is_message());
    assert_eq!(e.addr(), 7);
    assert!(matches!(e.event(), Event::Connected));
    assert!(e.into_reply_slot().is_none());
}

#[test]
fn disconnected_event() {
    let e: ServerEvent<String, u32, ()> = ServerEvent::disconnected(9);
    assert!(!e.is_connected());
    assert!(!e.is_message());
    let (addr, ev) = e.into_addr_event();
    assert_eq!(addr, 9);
    assert!(matches!(ev, Event::Disconnected));
}

#[test]
fn message_event_carries_its_reply_slot() {
    let e: ServerEvent<String, u32, &str> = ServerEvent::message(3, 42, "chan", "hi".to_string());
    assert!(e.is_message());
    assert!(!e.is_connected());
    match e.event() {
        Event::Message(m) => assert_eq!(m, "hi"),
        _ => panic!("not a message"),
    }
    assert_eq!(e.into_reply_slot(), Some((42, "chan")));
}

#[test]
fn into_event_gives_the_message() {
    let e: ServerEvent<u8, u32, ()> = ServerEvent::message(1, 2, (), 5);
    assert!(matches!(e.into_event(), Event::Message(5)));
}
