use jewel::adv_pdu::NonConnectableUndirected;
use jewel::ll::{Address, AddressType};

#[test]
fn hello_word_adv_pdu() {
    let actual = NonConnectableUndirected {
        address: Address::new_be([0xff, 0xe1, 0xe8, 0xd0, 0xdc, 0x27], AddressType::Random),
        data: &[
            0x02, 0x01, 0x06, // Flags
            0x03, 0x03, 0x09, 0x18, // Complete list of 16-bit UUIDs available
            0x0A, 0x09, // Length, Type: Device name
            b'H', b'e', b'l', b'l', b'o', b'R', b'u', b's', b't',
        ],
    };

    let expected = [
        0x42u8, // ADV_NONCONN_IND, Random address,
        0x18,   // Length of payload
        0x27, 0xdc, 0xd0, 0xe8, 0xe1, 0xff, // Address
        0x02, 0x01, 0x06, // Flags
        0x03, 0x03, 0x09, 0x18, // Complete list of 16-bit UUIDs available
        0x0A, 0x09, // Length, Type: Device name
        b'H', b'e', b'l', b'l', b'o', b'R', b'u', b's', b't',
    ];

    assert_eq!(actual.transmission_bytes()[..(expected.len())], expected);
}

#[test]
fn non_connectable_bytes_parse_is_complementary() {
    let packet = NonConnectableUndirected {
        address: Address::new_be([0xff, 0xe1, 0xe8, 0xd0, 0xdc, 0x27], AddressType::Random),
        data: &[0x01, 0x02, 0x03],
    };

    let bytes = packet.transmission_bytes();
    let actual = NonConnectableUndirected::reception_parse(&bytes).unwrap();

    assert_eq!(packet, actual);
}
