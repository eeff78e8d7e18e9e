use chordie::connection::ConnectionSlot;
use chordie::connection::MidiError;

#[test]
fn out_of_range_listen_reports_the_index_and_leaves_the_slot_alone() {
    let mut slot: ConnectionSlot<&str> = ConnectionSlot::new();
    slot.replace("existing connection");
    let r = slot.request_listen(5, 3);
    assert_eq!(r, Err(MidiError::PortRange(5)));
    assert!(slot.is_active());
    assert_eq!(slot.clear(), Some("existing connection"));
}

#[test]
fn index_equal_to_port_count_is_out_of_range() {
    let mut slot: ConnectionSlot<u32> = ConnectionSlot::new();
    assert_eq!(slot.request_listen(3, 3), Err(MidiError::PortRange(3)));
    assert_eq!(slot.request_listen(0, 0), Err(MidiError::PortRange(0)));
    assert!(!slot.is_active());
}

#[test]
fn in_range_listen_is_accepted() {
    let mut slot: ConnectionSlot<u32> = ConnectionSlot::new();
    assert_eq!(slot.request_listen(0, 1), Ok(()));
    assert_eq!(slot.request_listen(2, 3), Ok(()));
}

#[test]
fn replace_returns_the_previous_handle() {
    let mut slot: ConnectionSlot<u32> = ConnectionSlot::new();
    assert!(!slot.is_active());
    assert_eq!(slot.replace(7), None);
    assert!(slot.is_active());
    assert_eq!(slot.replace(9), Some(7));
    assert_eq!(slot.clear(), Some(9));
    assert!(!slot.is_active());
    assert_eq!(slot.clear(), None);
}
