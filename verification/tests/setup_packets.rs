use ehci::setup_packet::{
    BRequest, BmRequestType, DescriptorType, Direction, Recipient, RequestType, SetupPacket,
};

#[test]
fn get_descriptor_packet() {
    assert_eq!(SetupPacket::new_get_descriptor(64).to_bytes(), [0x80, 6, 0, 1, 0, 0, 64, 0]);
    assert_eq!(SetupPacket::new_get_descriptor(0x1234).to_bytes(), [0x80, 6, 0, 1, 0, 0, 0x34, 0x12]);
}

#[test]
fn set_address_packet() {
    assert_eq!(SetupPacket::new_set_address(0x67).to_bytes(), [0, 5, 0x67, 0, 0, 0, 0, 0]);
    assert_eq!(SetupPacket::new_set_address(0x7F).to_bytes(), [0, 5, 0x7F, 0, 0, 0, 0, 0]);
}

#[test]
fn request_type_byte() {
    let bm = BmRequestType::new_with_raw_value(0)
        .with_recipient(Recipient::Other.value())
        .with_request_type(RequestType::Vendor.value())
        .with_direction(Direction::DeviceToHost.bit());
    assert_eq!(bm.raw_value(), 0xC3);
    assert_eq!(bm.recipient(), 3);
    assert_eq!(bm.request_type(), 2);
    assert!(bm.direction());
}

#[test]
fn request_codes() {
    assert_eq!(BRequest::GetStatus.value(), 0);
    assert_eq!(BRequest::ClearFeature.value(), 1);
    assert_eq!(BRequest::SetFeature.value(), 3);
    assert_eq!(BRequest::SetAddress.value(), 5);
    assert_eq!(BRequest::GetDescriptor.value(), 6);
    assert_eq!(BRequest::SetDescriptor.value(), 7);
    assert_eq!(BRequest::GetConfiguration.value(), 8);
    assert_eq!(BRequest::SetConfiguration.value(), 9);
    assert_eq!(BRequest::from_value(2), None);
    assert_eq!(BRequest::from_value(4), None);
    assert_eq!(BRequest::from_value(10), None);
    assert_eq!(DescriptorType::Device.value(), 1);
    assert_eq!(DescriptorType::from_value(0), None);
}

#[test]
fn codes_round_trip() {
    for value in 0..=255u8 {
        if let Some(request) = BRequest::from_value(value) {
            assert_eq!(request.value(), value);
        }
        if let Some(recipient) = Recipient::from_value(value) {
            assert_eq!(recipient.value(), value);
        }
        if let Some(request_type) = RequestType::from_value(value) {
            assert_eq!(request_type.value(), value);
        }
        if let Some(direction) = Direction::from_value(value) {
            assert_eq!(direction.value(), value);
        }
        if let Some(descriptor_type) = DescriptorType::from_value(value) {
            assert_eq!(descriptor_type.value(), value);
        }
    }
    assert_eq!(Recipient::from_value(Recipient::Endpoint.value()), Some(Recipient::Endpoint));
    assert_eq!(RequestType::from_value(3), None);
    assert_eq!(Direction::from_value(2), None);
    assert!(!Direction::HostToDeviceOrNoDataTransfer.bit());
}
