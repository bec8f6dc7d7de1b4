use jewel::gap::adv_struct::MAX_STRUCTURE_LENGTH;
use jewel::gap::{
    AdvData, CompleteLocalName, DecodeError, Flags, List, LocalName, LocalNameType,
    ShortenedLocalName, Uuid, Uuid128, Uuid16, Uuid32,
};

#[test]
fn flag_bits() {
    let none = Flags {
        le_limited_disc: false,
        le_general_disc: false,
        br_edr_not_supported: false,
        simultaneous_le_bredr_capable_controller: false,
    };
    assert_eq!(none.byte(), 0);
    assert_eq!(Flags { le_limited_disc: true, ..none }.byte(), 0b0001);
    assert_eq!(Flags { le_general_disc: true, ..none }.byte(), 0b0010);
    assert_eq!(Flags { br_edr_not_supported: true, ..none }.byte(), 0b0100);
    assert_eq!(Flags { simultaneous_le_bredr_capable_controller: true, ..none }.byte(), 0b1000);
    assert_eq!(Flags::discoverable().byte(), 0x06);
    assert_eq!(Flags::broadcast().byte(), 0x04);
    assert_eq!(Flags::non_discoverable().byte(), 0x04);
    assert_eq!(Flags::AD_TYPE, 0x01);
    for byte in 0..=255u8 {
        assert_eq!(Flags::parse_byte(byte).byte(), byte & 0x0f);
    }
    for byte in 0..16u8 {
        assert_eq!(Flags::parse_byte(Flags::parse_byte(byte).byte()), Flags::parse_byte(byte));
    }
}

#[test]
fn flags_that_cannot_be_read() {
    assert_eq!(Flags::parse(&[]), Err(DecodeError::InvalidLength));
    assert_eq!(Flags::parse(&[0x01]), Err(DecodeError::InvalidLength));
    assert_eq!(Flags::parse(&[0x02, 0x06]), Err(DecodeError::InvalidType));
    assert_eq!(Flags::parse(&[0x01, 0x06, 0xff]), Ok(Flags::discoverable()));
}

#[test]
fn names() {
    assert_eq!(LocalName::SHORTENETD_AD_TYPE, 0x08);
    assert_eq!(LocalName::COMPLETE_AD_TYPE, 0x09);
    assert_eq!(ShortenedLocalName::AD_TYPE, 0x08);
    assert_eq!(CompleteLocalName::AD_TYPE, 0x09);

    let name = LocalName::parse(&[0x09, b't', b'e', b's', b't']).unwrap();
    assert_eq!(name.to_str(), Ok("test"));
    let empty = LocalName::parse(&[0x08]).unwrap();
    assert_eq!(empty.name.len(), 0);
    assert_eq!(empty.to_str(), Ok(""));
    let umlaut = LocalName::parse(&[0x09, 0xc3, 0xa4]).unwrap();
    assert_eq!(umlaut.to_str(), Ok("\u{e4}"));
}

#[test]
fn names_that_cannot_be_read() {
    assert_eq!(LocalName::parse(&[]), Err(DecodeError::InvalidLength));
    assert_eq!(LocalName::parse(&[0x07, b'a']), Err(DecodeError::InvalidType));
    assert_eq!(LocalName::parse(&[0x0A, b'a']), Err(DecodeError::InvalidType));
    // a byte that no text in UTF-8 holds, and a character cut short
    assert_eq!(LocalName::parse(&[0x09, b'a', 0xff]), Err(DecodeError::InvalidUtf8));
    assert_eq!(LocalName::parse(&[0x08, 0xc3]), Err(DecodeError::InvalidUtf8));
    assert_eq!(ShortenedLocalName::parse(&[b'a', 0xff]), Err(DecodeError::InvalidUtf8));
    assert_eq!(CompleteLocalName::parse(&[0xc3]), Err(DecodeError::InvalidUtf8));
    assert_eq!(CompleteLocalName::parse(&[]), Ok(CompleteLocalName("")));

    let name = LocalName { name: &[b'a', 0x80], kind: LocalNameType::Complete };
    assert_eq!(name.to_str(), Err(DecodeError::InvalidUtf8));
}

#[test]
fn list_ad_types() {
    assert_eq!(<Uuid16 as Uuid>::INCOMPLETE_AD_TYPE, 0x02);
    assert_eq!(<Uuid16 as Uuid>::COMPLETE_AD_TYPE, 0x03);
    assert_eq!(<Uuid32 as Uuid>::INCOMPLETE_AD_TYPE, 0x04);
    assert_eq!(<Uuid32 as Uuid>::COMPLETE_AD_TYPE, 0x05);
    assert_eq!(<Uuid128 as Uuid>::INCOMPLETE_AD_TYPE, 0x06);
    assert_eq!(<Uuid128 as Uuid>::COMPLETE_AD_TYPE, 0x07);
    assert_eq!(<Uuid16 as Uuid>::size(), 2);
    assert_eq!(<Uuid32 as Uuid>::size(), 4);
    assert_eq!(<Uuid128 as Uuid>::size(), 16);
}

#[test]
fn only_the_last_of_a_list_is_complete() {
    let uuids = [0x1234_5678u32, 0x9abc_def0];
    let mut buf = [0xEE; 12];
    let len = List(&uuids).bytes(&mut buf);
    assert_eq!(len, 10);
    assert_eq!(buf, [0x04, 0x12, 0x34, 0x56, 0x78, 0x05, 0x9a, 0xbc, 0xde, 0xf0, 0xEE, 0xEE]);

    let uuids = [1u128, 2];
    let mut buf = [0xEE; 34];
    let len = List(&uuids).bytes(&mut buf);
    assert_eq!(len, 34);
    assert_eq!(buf[0], 0x06);
    assert_eq!(buf[16], 1);
    assert_eq!(buf[17], 0x07);
    assert_eq!(buf[33], 2);
    assert!(buf[1..16].iter().all(|byte| *byte == 0));
}

#[test]
fn list_round_trip() {
    let uuids = [0x1234u16, 0x5678, 0x9ABC];
    let mut buf = [0; 9];
    List(&uuids).bytes(&mut buf);
    let mut room = [0u16; 4];
    let list = List::parse(&buf, &mut room).unwrap();
    assert_eq!(list.0, &uuids);

    let mut room = [0u16; 3];
    assert_eq!(List::parse(&buf, &mut room).unwrap().0, &uuids);

    let uuids = [u128::MAX, 0, 0x1234_5678_9ABC_DEF0_1234_5678_9ABC_DEF0];
    let mut buf = [0; 60];
    let len = List(&uuids).bytes(&mut buf);
    assert_eq!(len, 51);
    let mut room = [0u128; 3];
    // what follows the block of the complete list is not looked at
    assert_eq!(List::parse(&buf, &mut room).unwrap().0, &uuids);
}

#[test]
fn lists_that_cannot_be_read() {
    let mut room = [0u16; 2];
    assert_eq!(List::<Uuid16>::parse(&[], &mut room).unwrap().0.len(), 0);
    // a block cut short
    assert_eq!(List::<Uuid16>::parse(&[0x03, 0x12], &mut room), Err(DecodeError::InvalidLength));
    // no block of a complete list
    assert_eq!(
        List::<Uuid16>::parse(&[0x02, 0x12, 0x34], &mut room),
        Err(DecodeError::InvalidLength)
    );
    // more UUIDs than there is room for
    assert_eq!(
        List::<Uuid16>::parse(&[0x02, 0, 1, 0x02, 0, 2, 0x03, 0, 3], &mut room),
        Err(DecodeError::InvalidLength)
    );
    let mut none = [0u16; 0];
    assert_eq!(List::<Uuid16>::parse(&[0x03, 0, 1], &mut none), Err(DecodeError::InvalidLength));
}

#[test]
fn every_structure_in_its_place() {
    let uuids16 = [0x0918u16, 0x180F];
    let uuids32 = [0x1234_5678u32];
    let uuids128 = [0x0102_0304_0506_0708_090a_0b0c_0d0e_0f10u128];
    // set in another order than they are sent in
    let data = AdvData::empty()
        .set_shortened_local_name("Hi")
        .set_uuids128(&uuids128)
        .set_uuids32(&uuids32)
        .set_uuids16(&uuids16)
        .set_flags(Flags::broadcast());
    let expected = [
        0x02, 0x01, 0x04, // flags
        0x06, 0x02, 0x09, 0x18, 0x03, 0x18, 0x0F, // 16 bits
        0x05, 0x05, 0x12, 0x34, 0x56, 0x78, // 32 bits
        0x11, 0x07, 0x01, 0x02, 0x03, 0x04, 0x05, 0x06, 0x07, 0x08, 0x09, 0x0a, 0x0b, 0x0c, 0x0d,
        0x0e, 0x0f, 0x10, // 128 bits
        0x03, 0x08, b'H', b'i', // name
    ];
    assert_eq!(data.serialized_len(), Some(expected.len()));
    let mut buf = [0xEE; 40];
    let len = data.bytes(&mut buf);
    assert_eq!(len, expected.len());
    assert_eq!(&buf[..len], &expected[..]);
    assert!(buf[len..].iter().all(|byte| *byte == 0xEE));
}

#[test]
fn builder_replaces_and_keeps() {
    let first = AdvData::empty().set_flags(Flags::broadcast()).set_complete_local_name("a");
    let second = first.clone().set_flags(Flags::discoverable());
    let mut buf = [0; 8];
    assert_eq!(first.bytes(&mut buf), 6);
    assert_eq!(buf, [0x02, 0x01, 0x04, 0x02, 0x09, b'a', 0, 0]);
    assert_eq!(second.bytes(&mut buf), 6);
    assert_eq!(buf, [0x02, 0x01, 0x06, 0x02, 0x09, b'a', 0, 0]);
    assert_eq!(AdvData::default(), AdvData::empty());
    assert_eq!(AdvData::empty().serialized_len(), Some(0));
}

#[test]
fn empty_list_is_a_structure_without_bytes() {
    let data = AdvData::empty().set_uuids16(&[]);
    let mut buf = [0xEE; 2];
    assert_eq!(data.serialized_len(), Some(1));
    assert_eq!(data.bytes(&mut buf), 1);
    assert_eq!(buf, [0x00, 0xEE]);
}

#[test]
fn structures_too_long_for_their_length_byte() {
    let long = "x".repeat(MAX_STRUCTURE_LENGTH - 1);
    assert_eq!(
        AdvData::empty().set_complete_local_name(&long).serialized_len(),
        Some(MAX_STRUCTURE_LENGTH + 1)
    );
    let longer = "x".repeat(MAX_STRUCTURE_LENGTH);
    assert_eq!(AdvData::empty().set_complete_local_name(&longer).serialized_len(), None);

    let uuids = [0u16; 86];
    assert_eq!(AdvData::empty().set_uuids16(&uuids[..85]).serialized_len(), Some(256));
    assert_eq!(AdvData::empty().set_uuids16(&uuids).serialized_len(), None);
    let uuids = [0u32; 52];
    assert_eq!(AdvData::empty().set_uuids32(&uuids[..51]).serialized_len(), Some(256));
    assert_eq!(AdvData::empty().set_uuids32(&uuids).serialized_len(), None);
    let uuids = [0u128; 16];
    assert_eq!(AdvData::empty().set_uuids128(&uuids[..15]).serialized_len(), Some(256));
    assert_eq!(AdvData::empty().set_uuids128(&uuids).serialized_len(), None);
}
