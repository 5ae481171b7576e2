use tock_core::return_code::ReturnCode;
use tock_core::signbus::{
    htons, signbus_api_type_t, signbus_frame_type_t, Packet, Signbus, SignbusAppLayer,
    SignbusNetworkFlags, SignbusNetworkHeader,
};

#[test]
fn byte_order_swap() {
    assert_eq!(htons(0x1234), 0x3412);
    assert_eq!(htons(0x00FF), 0xFF00);
    assert_eq!(htons(0), 0);
}

#[test]
fn type_codes() {
    assert_eq!(signbus_frame_type_t::NotificationFrame.code(), 0);
    assert_eq!(signbus_frame_type_t::ErrorFrame.code(), 3);
    assert_eq!(signbus_api_type_t::InitializationApiType.code(), 1);
    assert_eq!(signbus_api_type_t::HighestApiType.code(), 10);
}

#[test]
fn io_init_checks_address() {
    let mut s = Signbus::new();
    assert_eq!(s.get_slave_address(), 0);
    assert_eq!(s.signbus_io_init(0x20), ReturnCode::SUCCESS);
    assert_eq!(s.get_slave_address(), 0x20);
    assert_eq!(s.signbus_io_init(0x80), ReturnCode::EINVAL);
    assert_eq!(s.get_slave_address(), 0x20);
}

#[test]
fn layers_and_packets() {
    let protocol = 7u32;
    let app = SignbusAppLayer::new(&protocol);
    assert_eq!(*app.get_protocol_layer(), 7);
    let header = SignbusNetworkHeader {
        flags: SignbusNetworkFlags {
            is_fragment: false,
            is_encrypted: false,
            rsv_wire_bit5: false,
            rsv_wire_bit4: false,
            version: 1,
        },
        src: 0x20,
        sequence_number: htons(1),
        length: htons(12 + 3),
        fragment_offset: 0,
    };
    let p = Packet { header, data: vec![1, 2, 3] };
    assert_eq!(p.header.sequence_number, 0x0100);
    assert_eq!(p.data.len(), 3);
}
