use jewel::gap::{AdvData, Flags, List, LocalName, LocalNameType, Uuid, Uuid128, Uuid16, Uuid32};

#[test]
fn serialize() {
    let uuid: Uuid16 = 0x1234;

    let mut buf = [0; 2];
    let len = uuid.bytes(&mut buf);

    assert_eq!(buf, [0x12, 0x34]);
    assert_eq!(len, 2);
}

#[test]
fn deserialize() {
    let uuid = Uuid16::parse(&[0x12, 0x34]);
    assert_eq!(uuid, 0x1234);
}

#[test]
fn empty_list_serialize() {
    let uuids = [0u16; 0];
    let list = List(&uuids);

    let mut buf = [0; 10];
    let len = list.bytes(&mut buf);

    assert_eq!(buf, [0; 10]);
    assert_eq!(len, 0);
}

#[test]
fn one_item_list_serialize() {
    let uuids = [0x1234u16];
    let list = List(&uuids);

    let mut buf = [0; 3];
    let len = list.bytes(&mut buf);

    assert_eq!(buf, [0x03, 0x12, 0x34]);
    assert_eq!(len, 3);
}

#[test]
fn list_serialize() {
    let uuids = [0x1234u16, 0x5678, 0x9ABC];
    let list = List(&uuids);

    let mut buf = [0; 9];
    let len = list.bytes(&mut buf);

    assert_eq!(buf, [0x02, 0x12, 0x34, 0x02, 0x56, 0x78, 0x03, 0x9A, 0xBC]);
    assert_eq!(len, 9);
}

#[test]
fn serialize_32_uuids() {
    let uuid: Uuid32 = 0x1234_5678;

    let mut buf = [0; 4];
    let len = uuid.bytes(&mut buf);

    assert_eq!(buf, [0x12, 0x34, 0x56, 0x78]);
    assert_eq!(len, 4);
}

#[test]
fn deserialize_32_bit_uuids() {
    let uuid = Uuid32::parse(&[0x12, 0x34, 0x56, 0x78]);
    assert_eq!(uuid, 0x1234_5678);
}

#[test]
fn serialize_128_uuids() {
    let uuid: Uuid128 = 0x1234_5678_9ABC_DEF0_1234_5678_9ABC_DEF0;

    let mut buf = [0; 16];
    let len = uuid.bytes(&mut buf);

    assert_eq!(
        buf,
        [
            0x12, 0x34, 0x56, 0x78, 0x9A, 0xBC, 0xDE, 0xF0, 0x12, 0x34, 0x56, 0x78, 0x9A, 0xBC,
            0xDE, 0xF0
        ]
    );
    assert_eq!(len, 16);
}

#[test]
fn deserialize_128_bit_uuids() {
    let uuid = Uuid128::parse(&[
        0x12, 0x34, 0x56, 0x78, 0x9A, 0xBC, 0xDE, 0xF0, 0x12, 0x34, 0x56, 0x78, 0x9A, 0xBC, 0xDE,
        0xF0,
    ]);

    let expected: Uuid128 = 0x1234_5678_9ABC_DEF0_1234_5678_9ABC_DEF0;
    assert_eq!(uuid, expected);
}

#[test]
fn serialize_shortened_local_name() {
    let name = LocalName {
        name: b"test",
        kind: LocalNameType::Shortened,
    };

    let mut buf = [0; 5];
    let len = name.bytes(&mut buf);
    assert_eq!(buf, [0x08, b't', b'e', b's', b't']);
    assert_eq!(len, 5);
}

#[test]
fn deserialize_shortened_local_name() {
    let name = LocalName::parse(&[0x08, b't', b'e', b's', b't']).unwrap();
    assert_eq!(name.name, b"test");
    assert_eq!(name.kind, LocalNameType::Shortened);
}

#[test]
fn serialize_complete_local_name() {
    let name = LocalName {
        name: b"test",
        kind: LocalNameType::Complete,
    };

    let mut buf = [0; 5];
    let len = name.bytes(&mut buf);
    assert_eq!(buf, [0x09, b't', b'e', b's', b't']);
    assert_eq!(len, 5);
}

#[test]
fn deserialize_complete_local_name() {
    let name = LocalName::parse(&[0x09, b't', b'e', b's', b't']).unwrap();
    assert_eq!(name.name, b"test");
    assert_eq!(name.kind, LocalNameType::Complete);
}

#[test]
fn serialize_flags() {
    let flags = Flags {
        le_limited_disc: true,
        le_general_disc: false,
        br_edr_not_supported: true,
        simultaneous_le_bredr_capable_controller: false,
    };

    assert_eq!(flags.byte(), 0b0000_0101);

    let mut buf = [0; 2];
    let len = flags.bytes(&mut buf);
    assert_eq!(buf, [0x01, 0b0000_0101]);
    assert_eq!(len, 2);
}

#[test]
fn deserialize_flags() {
    assert_eq!(
        Flags::parse(&[0x01, 0b0000_0101]),
        Ok(Flags {
            le_limited_disc: true,
            le_general_disc: false,
            br_edr_not_supported: true,
            simultaneous_le_bredr_capable_controller: false,
        })
    );
}

#[test]
fn empty_adv_data() {
    let adv_data = AdvData::empty();
    let mut buf = [0; 31];
    let len = adv_data.bytes(&mut buf);

    assert_eq!(buf, [0; 31]);
    assert_eq!(len, 0);
}

#[test]
fn full() {
    let adv_data = AdvData::empty()
        .set_flags(Flags::discoverable())
        .set_uuids16(&[0x0918])
        .set_complete_local_name("HelloRust");

    let expected = [
        0x02, 0x01, 0x06, // Flags
        0x03, 0x03, 0x09, 0x18, // Complete list of 16-bit UUIDs available
        0x0A, 0x09, // Length, Type: Device name
        b'H', b'e', b'l', b'l', b'o', b'R', b'u', b's', b't',
    ];

    let mut buf = [0; 31];
    let len = adv_data.bytes(&mut buf);

    assert_eq!(&buf[..len], &expected[..]);
}
