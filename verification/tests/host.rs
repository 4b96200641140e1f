use age_plugin_yubikey::host::{
    reply, transfer_buffer, Direction, EndpointAttributes, SetupPacket, Transfer, UsbEndpoint,
    UsbHostDeviceHandler, UsbHostInterfaceHandler, TRANSFER_TIMEOUT_SECS,
};

fn endpoint(address: u8, attributes: u8) -> UsbEndpoint {
    UsbEndpoint { address, attributes, max_packet_size: 64, interval: 0 }
}

fn setup(request_type: u8) -> SetupPacket {
    SetupPacket { request_type, request: 6, value: 0x0100, index: 0, length: 18 }
}

#[test]
fn a_handler_keeps_its_handle() {
    let handler = UsbHostInterfaceHandler::new(17u32);
    assert_eq!(*handler.handle(), 17);
    assert_eq!(*handler.clone().handle(), 17);
    let handler = UsbHostDeviceHandler::new("device".to_string());
    assert_eq!(handler.handle(), "device");
    assert_eq!(handler.clone().handle(), "device");
}

#[test]
fn endpoint_kinds_have_their_codes() {
    assert_eq!(EndpointAttributes::Control.code(), 0);
    assert_eq!(EndpointAttributes::Isochronous.code(), 1);
    assert_eq!(EndpointAttributes::Bulk.code(), 2);
    assert_eq!(EndpointAttributes::Interrupt.code(), 3);
}

#[test]
fn the_highest_address_bit_gives_the_direction() {
    assert_eq!(endpoint(0x81, 2).direction(), Direction::In);
    assert_eq!(endpoint(0x80, 0).direction(), Direction::In);
    assert_eq!(endpoint(0x01, 2).direction(), Direction::Out);
    assert_eq!(endpoint(0x7f, 3).direction(), Direction::Out);
}

#[test]
fn an_interface_request_goes_by_kind_and_direction() {
    let handler = UsbHostInterfaceHandler::new(());
    let packet = setup(0x80);
    assert_eq!(handler.plan_urb(endpoint(0x80, 0), packet), Transfer::ReadControl(packet));
    assert_eq!(handler.plan_urb(endpoint(0x00, 0), packet), Transfer::WriteControl(packet));
    assert_eq!(handler.plan_urb(endpoint(0x83, 3), packet), Transfer::ReadInterrupt(0x83));
    assert_eq!(handler.plan_urb(endpoint(0x03, 3), packet), Transfer::WriteInterrupt(0x03));
    assert_eq!(handler.plan_urb(endpoint(0x82, 2), packet), Transfer::ReadBulk(0x82));
    assert_eq!(handler.plan_urb(endpoint(0x02, 2), packet), Transfer::WriteBulk(0x02));
}

#[test]
fn other_kinds_of_endpoint_are_not_passed_on() {
    let handler = UsbHostInterfaceHandler::new(());
    assert_eq!(handler.plan_urb(endpoint(0x81, 1), setup(0)), Transfer::Nothing);
    assert_eq!(handler.plan_urb(endpoint(0x01, 4), setup(0)), Transfer::Nothing);
    assert_eq!(handler.plan_urb(endpoint(0x01, 0xff), setup(0)), Transfer::Nothing);
}

#[test]
fn a_device_request_goes_by_the_request_type() {
    let handler = UsbHostDeviceHandler::new(());
    assert_eq!(handler.plan_urb(setup(0x80)), Transfer::ReadControl(setup(0x80)));
    assert_eq!(handler.plan_urb(setup(0xc1)), Transfer::ReadControl(setup(0xc1)));
    assert_eq!(handler.plan_urb(setup(0x00)), Transfer::WriteControl(setup(0x00)));
    assert_eq!(handler.plan_urb(setup(0x21)), Transfer::WriteControl(setup(0x21)));
}

#[test]
fn reads_are_told_apart_from_writes() {
    assert!(Transfer::ReadControl(setup(0x80)).reads());
    assert!(Transfer::ReadInterrupt(0x81).reads());
    assert!(Transfer::ReadBulk(0x82).reads());
    assert!(!Transfer::WriteControl(setup(0)).reads());
    assert!(!Transfer::WriteInterrupt(1).reads());
    assert!(!Transfer::WriteBulk(2).reads());
    assert!(!Transfer::Nothing.reads());
}

#[test]
fn the_buffer_is_zeroed_and_of_the_asked_length() {
    assert_eq!(transfer_buffer(0), Vec::<u8>::new());
    assert_eq!(transfer_buffer(5), vec![0u8; 5]);
    assert_eq!(transfer_buffer(4096).len(), 4096);
}

#[test]
fn a_read_replies_with_what_it_brought() {
    let buffer = [1u8, 2, 3, 4, 0, 0];
    assert_eq!(reply(&Transfer::ReadBulk(0x82), &buffer, Some(4)), vec![1, 2, 3, 4]);
    assert_eq!(reply(&Transfer::ReadInterrupt(0x81), &buffer, Some(0)), Vec::<u8>::new());
    assert_eq!(reply(&Transfer::ReadControl(setup(0x80)), &buffer, Some(6)), buffer.to_vec());
}

#[test]
fn a_failed_read_replies_with_nothing() {
    let buffer = [1u8, 2, 3, 4];
    assert_eq!(reply(&Transfer::ReadBulk(0x82), &buffer, None), Vec::<u8>::new());
    assert_eq!(reply(&Transfer::ReadControl(setup(0x80)), &buffer, None), Vec::<u8>::new());
}

#[test]
fn a_write_replies_with_nothing() {
    let buffer = [1u8, 2, 3, 4];
    assert_eq!(reply(&Transfer::WriteBulk(0x02), &buffer, Some(4)), Vec::<u8>::new());
    assert_eq!(reply(&Transfer::WriteControl(setup(0)), &buffer, Some(2)), Vec::<u8>::new());
    assert_eq!(reply(&Transfer::WriteInterrupt(1), &buffer, None), Vec::<u8>::new());
    assert_eq!(reply(&Transfer::Nothing, &buffer, None), Vec::<u8>::new());
}

#[test]
fn an_interface_has_no_class_specific_descriptor() {
    let handler = UsbHostInterfaceHandler::new(());
    assert_eq!(handler.get_class_specific_descriptor(), Vec::<u8>::new());
}

#[test]
fn transfers_time_out_after_a_second() {
    assert_eq!(TRANSFER_TIMEOUT_SECS, 1);
}
