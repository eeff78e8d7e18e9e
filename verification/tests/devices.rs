use chordie::devices::build_device_list;

#[test]
fn empty_port_list_gives_empty_device_list() {
    let names: Vec<Option<String>> = Vec::new();
    let devices = build_device_list(&names);
    assert!(devices.is_empty());
}

#[test]
fn ports_keep_their_positions_and_names() {
    let names = vec![
        Some(String::from("Alpha Keys")),
        None,
        Some(String::from("Beta Pad")),
    ];
    let devices = build_device_list(&names);
    assert_eq!(devices.len(), 3);
    assert_eq!(devices[0].index, 0);
    assert_eq!(devices[0].name, "Alpha Keys");
    assert_eq!(devices[1].index, 1);
    assert_eq!(devices[1].name, "Unknown Device");
    assert_eq!(devices[2].index, 2);
    assert_eq!(devices[2].name, "Beta Pad");
}

#[test]
fn unnamed_port_gets_the_placeholder() {
    let names = vec![None];
    let devices = build_device_list(&names);
    assert_eq!(devices.len(), 1);
    assert_eq!(devices[0].index, 0);
    assert_eq!(devices[0].name, "Unknown Device");
}
