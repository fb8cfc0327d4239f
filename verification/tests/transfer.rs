use yourcontrols::transfer::{write_update_data, Packet};

#[test]
fn unreliable_data_goes_first() {
    assert_eq!(
        write_update_data(Some("fast"), Some("sure")),
        vec![
            Packet { data: "fast", is_unreliable: true },
            Packet { data: "sure", is_unreliable: false },
        ]
    );
}

#[test]
fn one_kind_of_data_alone() {
    assert_eq!(
        write_update_data(Some(7u8), None),
        vec![Packet { data: 7u8, is_unreliable: true }]
    );
    assert_eq!(
        write_update_data(None, Some(7u8)),
        vec![Packet { data: 7u8, is_unreliable: false }]
    );
}

#[test]
fn no_data_sends_nothing() {
    assert_eq!(write_update_data::<u8>(None, None), Vec::new());
}
