use romi_core::ble_channel::{parse_write, ParsedPdu, Reply, RomiAttrServer, RomiChannelMap};
use romi_core::ble_service::{
    AttUuid, Attribute, AttributeAccessPermissions, RomiServiceAttrs, LED_CHAR_VALUE_HANDLE,
};

const SERVICE_UUID: [u8; 16] = [
    0x70, 0x6C, 0x98, 0x41, 0xCE, 0x43, 0x14, 0xA9, 0xB5, 0x4D, 0x22, 0x2B, 0x89, 0x10, 0xE6, 0x32,
];

const CHARACTERISTIC_UUID: [u8; 16] = [
    0x70, 0x6C, 0x98, 0x41, 0xCE, 0x43, 0x14, 0xA9, 0xB5, 0x4D, 0x22, 0x2B, 0x8A, 0x10, 0xE6, 0x32,
];

fn handles(attrs: &[Attribute]) -> Vec<u16> {
    attrs.iter().map(|a| a.handle).collect()
}

#[test]
fn the_table_has_four_attributes() {
    let attrs = RomiServiceAttrs::new();
    let all = attrs.attributes_in_range(1, 4);
    assert_eq!(handles(&all), vec![1, 2, 3, 4]);
    assert_eq!(all[0].att_type, AttUuid::Uuid16(0x2800));
    assert_eq!(all[0].value, SERVICE_UUID.to_vec());
    assert_eq!(all[1].att_type, AttUuid::Uuid16(0x2803));
    let mut declaration: Vec<u8> = vec![0x1E, 0x03, 0x00];
    declaration.extend_from_slice(&CHARACTERISTIC_UUID);
    assert_eq!(all[1].value, declaration);
    assert_eq!(all[2].att_type, AttUuid::Uuid128(CHARACTERISTIC_UUID));
    assert_eq!(all[2].handle, LED_CHAR_VALUE_HANDLE);
    assert_eq!(all[2].value, vec![0x12, 0x34]);
    assert_eq!(all[3].att_type, AttUuid::Uuid16(0x2902));
    assert_eq!(all[3].value, vec![0x00, 0x00]);
}

#[test]
fn ranges_are_clipped_to_the_table() {
    let attrs = RomiServiceAttrs::new();
    assert_eq!(handles(&attrs.attributes_in_range(3, 10)), vec![3, 4]);
    assert_eq!(handles(&attrs.attributes_in_range(1, 0xFFFF)), vec![1, 2, 3, 4]);
    assert_eq!(handles(&attrs.attributes_in_range(2, 3)), vec![2, 3]);
    assert_eq!(handles(&attrs.attributes_in_range(4, 4)), vec![4]);
    assert_eq!(handles(&attrs.attributes_in_range(1, 1)), vec![1]);
}

#[test]
fn a_range_behind_the_table_is_empty() {
    let attrs = RomiServiceAttrs::new();
    assert!(attrs.attributes_in_range(5, 10).is_empty());
    assert!(attrs.attributes_in_range(0xFFFF, 0xFFFF).is_empty());
}

#[test]
fn an_empty_range_gives_nothing() {
    let attrs = RomiServiceAttrs::new();
    assert!(attrs.attributes_in_range(3, 2).is_empty());
    assert!(attrs.attributes_in_range(0, 0).is_empty());
    assert_eq!(handles(&attrs.attributes_in_range(0, 2)), vec![1, 2]);
}

#[test]
fn attribute_by_handle() {
    let attrs = RomiServiceAttrs::new();
    assert!(attrs.attribute(0).is_none());
    assert!(attrs.attribute(5).is_none());
    for handle in 1..=4u16 {
        let a = attrs.attribute(handle).unwrap();
        assert_eq!(a.handle, handle);
        assert_eq!(attrs.attributes_in_range(handle, handle), vec![a]);
    }
}

#[test]
fn grouping_attributes_are_the_two_declarations() {
    let attrs = RomiServiceAttrs::new();
    assert!(attrs.is_grouping_attr(AttUuid::Uuid16(0x2800)));
    assert!(attrs.is_grouping_attr(AttUuid::Uuid16(0x2803)));
    assert!(!attrs.is_grouping_attr(AttUuid::Uuid16(0x2902)));
    assert!(!attrs.is_grouping_attr(AttUuid::Uuid16(0x2801)));
    assert!(!attrs.is_grouping_attr(AttUuid::Uuid16(0x0028)));
    assert!(!attrs.is_grouping_attr(AttUuid::Uuid128(SERVICE_UUID)));
    assert!(!attrs.is_grouping_attr(AttUuid::Uuid128(CHARACTERISTIC_UUID)));
    assert!(!attrs.is_grouping_attr(AttUuid::Uuid128([0u8; 16])));
}

#[test]
fn grouping_attributes_in_full_form() {
    let attrs = RomiServiceAttrs::new();
    let service: [u8; 16] = [
        0x00, 0x00, 0x28, 0x00, 0x00, 0x00, 0x10, 0x00, 0x80, 0x00, 0x00, 0x80, 0x5F, 0x9B, 0x34,
        0xFB,
    ];
    let mut characteristic = service;
    characteristic[3] = 0x03;
    let mut descriptor = service;
    descriptor[2] = 0x29;
    descriptor[3] = 0x02;
    let mut swapped = service;
    swapped[2] = 0x00;
    swapped[3] = 0x28;
    let mut other_base = service;
    other_base[15] = 0xFA;
    assert!(attrs.is_grouping_attr(AttUuid::Uuid128(service)));
    assert!(attrs.is_grouping_attr(AttUuid::Uuid128(characteristic)));
    assert!(!attrs.is_grouping_attr(AttUuid::Uuid128(descriptor)));
    assert!(!attrs.is_grouping_attr(AttUuid::Uuid128(swapped)));
    assert!(!attrs.is_grouping_attr(AttUuid::Uuid128(other_base)));
}

#[test]
fn grouping_agrees_with_the_stack() {
    let attrs = RomiServiceAttrs::new();
    for short in [0x2800u16, 0x2803, 0x2902, 0x1800, 0x0000, 0xFFFF].iter() {
        let theirs = rubble::att::AttUuid::Uuid16(rubble::uuid::Uuid16(*short));
        let expected =
            theirs == rubble::uuid::Uuid16(0x2800) || theirs == rubble::uuid::Uuid16(0x2803);
        assert_eq!(attrs.is_grouping_attr(AttUuid::Uuid16(*short)), expected);
    }
}

#[test]
fn group_end_is_the_last_attribute() {
    let attrs = RomiServiceAttrs::new();
    for handle in 0..4u16 {
        let end = attrs.group_end(handle).unwrap();
        assert_eq!(end.handle, 4);
        assert_eq!(end.att_type, AttUuid::Uuid16(0x2902));
        assert_eq!(end.value, vec![0x00, 0x00]);
    }
    assert!(attrs.group_end(4).is_none());
    assert!(attrs.group_end(5).is_none());
    assert!(attrs.group_end(0xFFFF).is_none());
}

#[test]
fn update_data_is_seen_by_the_next_read() {
    let mut attrs = RomiServiceAttrs::new();
    assert_eq!(attrs.state(), [0x12, 0x34]);
    attrs.update_data(&[0x01, 0x02]);
    assert_eq!(attrs.state(), [0x01, 0x02]);
    assert_eq!(attrs.attribute(3).unwrap().value, vec![0x01, 0x02]);
    assert_eq!(attrs.attributes_in_range(3, 3)[0].value, vec![0x01, 0x02]);
}

#[test]
fn write_request_updates_the_state_and_is_answered() {
    let mut server = RomiAttrServer::new();
    assert_eq!(server.attrs().state(), [0x12, 0x34]);
    let reply = server.process_message(&[0x12, 0x03, 0x00, 0xAB, 0xCD]);
    assert_eq!(reply, Reply::WriteRsp);
    assert_eq!(server.attrs().state(), [0xAB, 0xCD]);
    // visible to the very next read of the table
    assert_eq!(server.attrs().attribute(3).unwrap().value, vec![0xAB, 0xCD]);
}

#[test]
fn write_command_updates_the_state_and_is_not_answered() {
    let mut server = RomiAttrServer::new();
    let reply = server.process_message(&[0x52, 0x03, 0x00, 0xAB, 0xCD]);
    assert_eq!(reply, Reply::Nothing);
    assert_eq!(server.attrs().state(), [0xAB, 0xCD]);
}

#[test]
fn write_to_another_handle_leaves_the_state() {
    let mut server = RomiAttrServer::new();
    for handle in [[0x04u8, 0x00], [0x00, 0x03], [0x03, 0x01], [0x00, 0x00], [0x02, 0x00]].iter() {
        let request: Vec<u8> = vec![0x12, handle[0], handle[1], 0xAB, 0xCD];
        assert_eq!(server.process_message(&request), Reply::Forward);
        assert_eq!(server.attrs().state(), [0x12, 0x34]);
        let command: Vec<u8> = vec![0x52, handle[0], handle[1], 0xAB, 0xCD];
        assert_eq!(server.process_message(&command), Reply::Forward);
        assert_eq!(server.attrs().state(), [0x12, 0x34]);
    }
}

#[test]
fn write_request_to_an_unrelated_handle_is_forwarded() {
    let mut server = RomiAttrServer::new();
    let message: [u8; 5] = [0x12, 0x04, 0x00, 0xAB, 0xCD];
    assert_eq!(server.process_message(&message), Reply::Forward);
    assert_eq!(server.attrs().state(), [0x12, 0x34]);
    // a write to the known handle after it is still handled
    assert_eq!(server.process_message(&[0x12, 0x03, 0x00, 0xAB, 0xCD]), Reply::WriteRsp);
    assert_eq!(server.attrs().state(), [0xAB, 0xCD]);
    assert_eq!(server.process_message(&message), Reply::Forward);
    assert_eq!(server.attrs().state(), [0xAB, 0xCD]);
}

#[test]
fn short_and_long_values() {
    let mut server = RomiAttrServer::new();
    // one byte: the second byte of the state stays
    assert_eq!(server.process_message(&[0x12, 0x03, 0x00, 0x77]), Reply::WriteRsp);
    assert_eq!(server.attrs().state(), [0x77, 0x34]);
    // no byte: the state stays
    assert_eq!(server.process_message(&[0x12, 0x03, 0x00]), Reply::WriteRsp);
    assert_eq!(server.attrs().state(), [0x77, 0x34]);
    // more than the state holds: the first two are taken
    assert_eq!(server.process_message(&[0x52, 0x03, 0x00, 1, 2, 3, 4]), Reply::Nothing);
    assert_eq!(server.attrs().state(), [1, 2]);
}

#[test]
fn other_messages_are_forwarded() {
    let mut server = RomiAttrServer::new();
    let messages: Vec<Vec<u8>> = vec![
        vec![],
        vec![0x0A, 0x03, 0x00],
        vec![0x02, 0x17, 0x00],
        vec![0x10, 0x01, 0x00, 0xFF, 0xFF, 0x00, 0x28],
        vec![0x13],
        vec![0xD2, 0x03, 0x00, 0xAB, 0xCD],
        vec![0x16, 0x03, 0x00, 0x00, 0x00, 0xAB],
        vec![0xFF],
    ];
    for message in messages.iter() {
        assert_eq!(server.process_message(message), Reply::Forward);
        assert_eq!(server.attrs().state(), [0x12, 0x34]);
    }
}

#[test]
fn a_malformed_write_is_answered_by_an_error() {
    let mut server = RomiAttrServer::new();
    assert_eq!(
        server.process_message(&[0x12]),
        Reply::ErrorRsp { opcode: 0x12, handle: 0, error_code: 0x04 }
    );
    assert_eq!(
        server.process_message(&[0x12, 0x03]),
        Reply::ErrorRsp { opcode: 0x12, handle: 0, error_code: 0x04 }
    );
    assert_eq!(
        server.process_message(&[0x52, 0x03]),
        Reply::ErrorRsp { opcode: 0x52, handle: 0, error_code: 0x04 }
    );
    assert_eq!(server.attrs().state(), [0x12, 0x34]);
}

#[test]
fn parse_write_reads_handle_and_value() {
    assert_eq!(
        parse_write(&[0x12, 0x03, 0x00, 0xAB, 0xCD]),
        Some(ParsedPdu::WriteReq { handle: 3, value: vec![0xAB, 0xCD] })
    );
    assert_eq!(
        parse_write(&[0x52, 0x02, 0x01]),
        Some(ParsedPdu::WriteCommand { handle: 0x0102, value: vec![] })
    );
    assert_eq!(
        parse_write(&[0x12, 0xFF, 0x7F, 0x00]),
        Some(ParsedPdu::WriteReq { handle: 0x7FFF, value: vec![0x00] })
    );
    assert_eq!(parse_write(&[0x12, 0x03]), None);
    assert_eq!(parse_write(&[0x52]), None);
}

#[test]
fn process_request_on_parsed_units() {
    let mut server = RomiAttrServer::new();
    let write = ParsedPdu::WriteReq { handle: 3, value: vec![0x0A, 0x0B] };
    assert_eq!(server.process_request(&write), Reply::WriteRsp);
    assert_eq!(server.attrs().state(), [0x0A, 0x0B]);
    let command = ParsedPdu::WriteCommand { handle: 3, value: vec![0x0C] };
    assert_eq!(server.process_request(&command), Reply::Nothing);
    assert_eq!(server.attrs().state(), [0x0C, 0x0B]);
    assert_eq!(server.process_request(&ParsedPdu::Other), Reply::Forward);
    assert_eq!(server.attrs().state(), [0x0C, 0x0B]);
    let elsewhere = ParsedPdu::WriteReq { handle: 4, value: vec![0x01, 0x02] };
    assert_eq!(server.process_request(&elsewhere), Reply::Forward);
    let command_elsewhere = ParsedPdu::WriteCommand { handle: 2, value: vec![0x01, 0x02] };
    assert_eq!(server.process_request(&command_elsewhere), Reply::Forward);
    assert_eq!(server.attrs().state(), [0x0C, 0x0B]);
}

#[test]
fn only_the_characteristic_value_may_be_written() {
    let attrs = RomiServiceAttrs::new();
    assert_eq!(attrs.attr_access_permissions(3), AttributeAccessPermissions::ReadableAndWriteable);
    for handle in [0u16, 1, 2, 4, 5, 0x0300, 0xFFFF].iter() {
        assert_eq!(attrs.attr_access_permissions(*handle), AttributeAccessPermissions::Readable);
    }
}

#[test]
fn the_channel_map_holds_the_server() {
    let mut map = RomiChannelMap::new();
    assert_eq!(map.att().attrs().state(), [0x12, 0x34]);
    assert_eq!(map.att().process_message(&[0x12, 0x03, 0x00, 0x01, 0x02]), Reply::WriteRsp);
    assert_eq!(map.att().attrs().state(), [0x01, 0x02]);
    let mut fresh = RomiChannelMap::default();
    assert_eq!(fresh.att().attrs().state(), [0x12, 0x34]);
}

#[test]
fn parse_write_refuses_what_is_no_write() {
    assert_eq!(parse_write(&[]), None);
    assert_eq!(parse_write(&[0x0A, 0x03, 0x00]), None);
    assert_eq!(parse_write(&[0x13, 0x03, 0x00, 0x01]), None);
    assert_eq!(parse_write(&[0xD2, 0x03, 0x00, 0x01]), None);
}
