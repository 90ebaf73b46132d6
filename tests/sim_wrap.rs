use driver_rust::sim_wrap::EventIdTable;

#[test]
fn test_event_table_create() {
    let table = EventIdTable::new();
    assert_eq!(table.len(), 0);
}

#[test]
fn test_event_table_write_read() {
    let mut table = EventIdTable::new();
    table.add("TEST".to_string(), 1);
    assert_eq!(table.get("TEST".to_string()), Some(1));
}

#[test]
fn test_event_table_overwrite_read() {
    let mut table = EventIdTable::new();
    table.add("TEST".to_string(), 1);
    table.add("TEST".to_string(), 2);
    assert_eq!(table.get("TEST".to_string()), Some(2));
}

#[test]
fn test_event_table_no_write_read() {
    let mut table = EventIdTable::new();
    assert_eq!(table.get("TEST".to_string()), None);
}

#[test]
fn event_table_keeps_names_apart() {
    let mut table = EventIdTable::new();
    table.add("COM_RADIO_SET_HZ".to_string(), 7);
    table.add("XPNDR_SET".to_string(), 9);
    table.add("COM_RADIO_SET_HZ".to_string(), 8);
    assert_eq!(table.len(), 2);
    assert_eq!(table.get("COM_RADIO_SET_HZ".to_string()), Some(8));
    assert_eq!(table.get("XPNDR_SET".to_string()), Some(9));
    assert_eq!(table.get("NAV1_STBY_SET_HZ".to_string()), None);
}
