use perf_collector::events_mask::{valid_events, Event, EventMask};

#[test]
fn test_event_mask_set_clear_is_set() {
    let mut mask = EventMask::new();
    assert_eq!(mask.raw_value(), 0);
    assert!(!mask.is_set(Event::CREATE_CONTAINER));
    mask.set(&[Event::CREATE_CONTAINER]);
    assert!(mask.is_set(Event::CREATE_CONTAINER));
    assert!(!mask.is_set(Event::STOP_CONTAINER));
    mask.set(&[Event::STOP_CONTAINER, Event::START_CONTAINER]);
    assert!(mask.is_set(Event::CREATE_CONTAINER));
    assert!(mask.is_set(Event::STOP_CONTAINER));
    assert!(mask.is_set(Event::START_CONTAINER));
    mask.clear(&[Event::CREATE_CONTAINER]);
    assert!(!mask.is_set(Event::CREATE_CONTAINER));
    assert!(mask.is_set(Event::STOP_CONTAINER));
    assert!(mask.is_set(Event::START_CONTAINER));
    mask.clear(&[Event::STOP_CONTAINER, Event::START_CONTAINER]);
    assert!(!mask.is_set(Event::CREATE_CONTAINER));
    assert!(!mask.is_set(Event::STOP_CONTAINER));
    assert!(!mask.is_set(Event::START_CONTAINER));
    mask.set(&[Event::UNKNOWN, Event::LAST]);
    assert_eq!(mask.raw_value(), 0);
}

#[test]
fn test_event_mask_operators() {
    let mut mask1 = EventMask::new();
    mask1.set(&[Event::CREATE_CONTAINER]);
    let mut mask2 = EventMask::new();
    mask2.set(&[Event::STOP_CONTAINER]);
    let combined = mask1 | mask2;
    assert!(combined.is_set(Event::CREATE_CONTAINER));
    assert!(combined.is_set(Event::STOP_CONTAINER));
    let mut mask3 = mask1;
    mask3 |= mask2;
    assert!(mask3.is_set(Event::CREATE_CONTAINER));
    assert!(mask3.is_set(Event::STOP_CONTAINER));
    let mut mask4 = EventMask::from_raw(-1);
    let intersection = mask4 & mask1;
    assert!(intersection.is_set(Event::CREATE_CONTAINER));
    assert!(!intersection.is_set(Event::STOP_CONTAINER));
    mask4 &= mask1;
    assert!(mask4.is_set(Event::CREATE_CONTAINER));
    assert!(!mask4.is_set(Event::STOP_CONTAINER));
}

#[test]
fn test_pretty_string() {
    let mut mask = EventMask::new();
    mask.set(&[Event::CREATE_CONTAINER, Event::STOP_CONTAINER]);
    let pretty = mask.pretty_string();
    assert!(pretty.contains("CREATE_CONTAINER"));
    assert!(pretty.contains("STOP_CONTAINER"));
    assert!(!pretty.contains("START_CONTAINER"));
}

#[test]
fn test_valid_events() {
    let valid = valid_events();
    for event_value in 1..Event::LAST.value() {
        if let Some(event) = Event::from_i32(event_value) {
            assert!(valid.is_set(event), "Event {:?} should be set in valid_events()", event);
        }
    }
    assert!(!valid.is_set(Event::UNKNOWN));
    assert!(!valid.is_set(Event::LAST));
}

#[test]
fn pretty_string_exact_and_unknown_bits() {
    let mut mask = EventMask::new();
    mask.set(&[Event::STOP_CONTAINER, Event::CREATE_CONTAINER]);
    assert_eq!(mask.pretty_string(), "CREATE_CONTAINER,STOP_CONTAINER");
    assert_eq!(EventMask::new().pretty_string(), "");
    let odd = EventMask::from_raw((1 << 3) | (1 << 20));
    assert_eq!(odd.pretty_string(), "CREATE_CONTAINER,unknown(0x100000)");
    assert_eq!(EventMask::from_raw(1 << 31).pretty_string(), "unknown(0x80000000)");
}

#[test]
fn event_mask_conversions() {
    let mask = EventMask::from(0x28);
    assert!(mask.is_set(Event::CREATE_CONTAINER));
    assert!(mask.is_set(Event::START_CONTAINER));
    assert_eq!(i32::from(mask), 0x28);
    assert_eq!(valid_events().raw_value(), 0x1fff);
}
