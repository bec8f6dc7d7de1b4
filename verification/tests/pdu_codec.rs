use jewel::adv_pdu;
use jewel::ll::{
    parse, Address, AddressAndData, AddressType, AdvDirectInd, AdvInd, AdvNonconnInd, AdvPdu,
    AdvScanInd, ParseError, ScanReq, ScanRsp, TwoAddress,
};

fn payloads() -> Vec<Vec<u8>> {
    vec![Vec::new(), vec![0x01, 0x02, 0x03], (0..31u8).map(|i| 0xE0 + i).collect()]
}

fn addresses() -> [Address; 2] {
    [Address::new_random(0xffe1e8d0dc27), Address::new_public(0x0102_0304_0506)]
}

fn round_trip_one<'a>(pdu: AdvPdu<'a>, buffer: &'a mut [u8; 64]) {
    *buffer = [0x5A; 64];
    let len = match &pdu {
        AdvPdu::AdvInd(p) => p.bytes(&mut buffer[..]),
        AdvPdu::AdvDirectInd(p) => p.bytes(&mut buffer[..]),
        AdvPdu::AdvNonconnInd(p) => p.bytes(&mut buffer[..]),
        AdvPdu::AdvScanInd(p) => p.bytes(&mut buffer[..]),
        AdvPdu::ScanReq(p) => p.bytes(&mut buffer[..]),
        AdvPdu::ScanRsp(p) => p.bytes(&mut buffer[..]),
    };
    // the length byte of the header is the length of the frame less the header
    assert_eq!(buffer[1] as usize, len - 2);
    // what lies behind the frame was not written
    assert!(buffer[len..].iter().all(|byte| *byte == 0x5A));
    let buffer: &'a [u8; 64] = buffer;
    // with and without the bytes that follow the frame
    assert_eq!(parse(&buffer[..]), Ok(pdu.clone()));
    assert_eq!(parse(&buffer[..len]), Ok(pdu.clone()));
    match &pdu {
        AdvPdu::AdvInd(p) => assert_eq!(AdvInd::parse(&buffer[..]).as_ref(), Ok(p)),
        AdvPdu::AdvDirectInd(p) => assert_eq!(AdvDirectInd::parse(&buffer[..]).as_ref(), Ok(p)),
        AdvPdu::AdvNonconnInd(p) => {
            assert_eq!(AdvNonconnInd::parse(&buffer[..]).as_ref(), Ok(p))
        }
        AdvPdu::AdvScanInd(p) => assert_eq!(AdvScanInd::parse(&buffer[..]).as_ref(), Ok(p)),
        AdvPdu::ScanReq(p) => assert_eq!(ScanReq::parse(&buffer[..]).as_ref(), Ok(p)),
        AdvPdu::ScanRsp(p) => assert_eq!(ScanRsp::parse(&buffer[..]).as_ref(), Ok(p)),
    }
}

#[test]
fn round_trip_every_variant() {
    let payloads = payloads();
    for address in addresses() {
        for data in &payloads {
            let mut buffer = [0u8; 64];
            round_trip_one(AdvPdu::from(AdvInd::new(address, data)), &mut buffer);
            let mut buffer = [0u8; 64];
            round_trip_one(AdvPdu::from(AdvNonconnInd::new(address, data)), &mut buffer);
            let mut buffer = [0u8; 64];
            round_trip_one(AdvPdu::from(AdvScanInd::new(address, data)), &mut buffer);
            let mut buffer = [0u8; 64];
            round_trip_one(AdvPdu::from(ScanRsp::new(address, data)), &mut buffer);
        }
        for other in addresses() {
            let mut buffer = [0u8; 64];
            round_trip_one(AdvPdu::from(AdvDirectInd::new(address, other)), &mut buffer);
            let mut buffer = [0u8; 64];
            round_trip_one(AdvPdu::from(ScanReq::new(address, other)), &mut buffer);
        }
    }
}

#[test]
fn round_trip_through_fixed_buffers() {
    for address in addresses() {
        for data in payloads() {
            let pdu = AdvInd::new(address, &data);
            let bytes = pdu.transmission_bytes();
            assert_eq!(bytes[1] as usize, 6 + data.len());
            assert!(bytes[8 + data.len()..].iter().all(|byte| *byte == 0));
            assert_eq!(AdvInd::reception_parse(&bytes), Ok(pdu));

            let pdu = AdvNonconnInd::new(address, &data);
            let bytes = pdu.transmission_bytes();
            assert_eq!(AdvNonconnInd::reception_parse(&bytes), Ok(pdu));

            let pdu = AdvScanInd::new(address, &data);
            let bytes = pdu.transmission_bytes();
            assert_eq!(AdvScanInd::reception_parse(&bytes), Ok(pdu));

            let pdu = ScanRsp::new(address, &data);
            let bytes = pdu.transmission_bytes();
            assert_eq!(ScanRsp::reception_parse(&bytes), Ok(pdu));

            let pdu = adv_pdu::NonConnectableUndirected { address, data: &data };
            let bytes = pdu.transmission_bytes();
            assert_eq!(adv_pdu::NonConnectableUndirected::reception_parse(&bytes), Ok(pdu.clone()));
            assert_eq!(adv_pdu::parse(&bytes), Ok(pdu));
        }
        let pdu = AdvDirectInd::new(address, Address::new_public(9));
        assert_eq!(AdvDirectInd::reception_parse(&pdu.transmission_bytes()), Ok(pdu));
        let pdu = ScanReq::new(Address::new_public(9), address);
        assert_eq!(ScanReq::reception_parse(&pdu.transmission_bytes()), Ok(pdu));
    }
}

#[test]
fn hello_rust_pdu() {
    let data = [
        0x02, 0x01, 0x06, 0x03, 0x03, 0x09, 0x18, 0x0A, 0x09, b'H', b'e', b'l', b'l', b'o', b'R',
        b'u', b's', b't',
    ];
    let pdu = AdvNonconnInd::new(Address::new_random(0xffe1e8d0dc27), &data);
    let mut buffer = [0u8; 39];
    let len = pdu.bytes(&mut buffer);
    assert_eq!(len, 26);
    assert_eq!(&buffer[..8], &[0x42, 0x18, 0x27, 0xdc, 0xd0, 0xe8, 0xe1, 0xff]);
    assert_eq!(&buffer[8..len], &data);
}

#[test]
fn type_codes() {
    assert_eq!(AdvInd::PDU_TYPE, 0b0000);
    assert_eq!(AdvDirectInd::PDU_TYPE, 0b0001);
    assert_eq!(AdvNonconnInd::PDU_TYPE, 0b0010);
    assert_eq!(AdvNonconnInd::TYPE, 0b0010);
    assert_eq!(ScanReq::PDU_TYPE, 0b0011);
    assert_eq!(ScanRsp::PDU_TYPE, 0b0100);
    assert_eq!(AdvScanInd::PDU_TYPE, 0b0110);
    assert_eq!(adv_pdu::NonConnectableUndirected::TYPE, 0b0010);
}

#[test]
fn header_bits_tell_the_address_types() {
    let public = Address::new_public(1);
    let random = Address::new_random(1);
    assert_eq!(AdvInd::new(public, &[]).transmission_bytes()[0], 0x00);
    assert_eq!(AdvInd::new(random, &[]).transmission_bytes()[0], 0x40);
    assert_eq!(ScanReq::new(public, public).transmission_bytes()[0], 0x03);
    assert_eq!(ScanReq::new(random, public).transmission_bytes()[0], 0x43);
    assert_eq!(ScanReq::new(public, random).transmission_bytes()[0], 0x83);
    assert_eq!(ScanReq::new(random, random).transmission_bytes()[0], 0xC3);

    let parsed = ScanReq::parse(&ScanReq::new(random, public).transmission_bytes()).unwrap();
    assert_eq!(parsed.first().kind(), AddressType::Random);
    assert_eq!(parsed.second().kind(), AddressType::Public);
}

#[test]
fn too_few_bytes() {
    let frame = [0x40u8, 9, 0x27, 0xdc, 0xd0, 0xe8, 0xe1, 0xff, 1, 2, 3];
    for len in 0..8 {
        assert_eq!(AdvInd::parse(&frame[..len]), Err(ParseError::InvalidLength));
        assert_eq!(AdvDirectInd::parse(&frame[..len]), Err(ParseError::InvalidLength));
        assert_eq!(parse(&frame[..len]), Err(ParseError::InvalidType));
        assert_eq!(adv_pdu::parse(&frame[..len]), Err(ParseError::InvalidType));
    }
    // the header promises more than there is
    for len in 8..11 {
        assert_eq!(AdvInd::parse(&frame[..len]), Err(ParseError::InvalidLength));
        assert_eq!(parse(&frame[..len]), Err(ParseError::InvalidType));
    }
    assert!(AdvInd::parse(&frame).is_ok());
}

#[test]
fn wrong_type() {
    let frame = [0x40u8, 9, 0x27, 0xdc, 0xd0, 0xe8, 0xe1, 0xff, 1, 2, 3];
    assert_eq!(AdvNonconnInd::parse(&frame), Err(ParseError::InvalidType));
    assert_eq!(AdvScanInd::parse(&frame), Err(ParseError::InvalidType));
    assert_eq!(ScanRsp::parse(&frame), Err(ParseError::InvalidType));
    assert_eq!(AdvDirectInd::parse(&frame), Err(ParseError::InvalidType));
    assert_eq!(ScanReq::parse(&frame), Err(ParseError::InvalidType));
    assert_eq!(adv_pdu::parse(&frame), Err(ParseError::InvalidType));

    // types that are no legacy advertising PDU
    for pdu_type in [5u8, 7, 8, 15] {
        let mut other = [0u8; 39];
        other[0] = pdu_type;
        other[1] = 12;
        assert_eq!(parse(&other), Err(ParseError::InvalidType));
    }
}

#[test]
fn wrong_length_in_the_header() {
    let mut frame = [0u8; 64];
    frame[0] = 0x40;
    // less than the address
    for length in 0..6 {
        frame[1] = length;
        assert_eq!(AdvInd::parse(&frame), Err(ParseError::InvalidLength));
    }
    // an address and up to 31 bytes of data
    for length in 6..=37 {
        frame[1] = length;
        let pdu = AdvInd::parse(&frame).unwrap();
        assert_eq!(pdu.data().len(), length as usize - 6);
    }
    for length in 38..=255 {
        frame[1] = length;
        assert_eq!(AdvInd::parse(&frame), Err(ParseError::InvalidLength));
    }
    // two addresses take twelve bytes
    frame[0] = 0x01;
    for length in 0..=255u8 {
        frame[1] = length;
        assert_eq!(AdvDirectInd::parse(&frame).is_ok(), length == 12);
        if length != 12 {
            assert_eq!(AdvDirectInd::parse(&frame), Err(ParseError::InvalidLength));
        }
    }
    frame[1] = 12;
    assert_eq!(AdvDirectInd::parse(&frame[..13]), Err(ParseError::InvalidLength));
    assert!(AdvDirectInd::parse(&frame[..14]).is_ok());
}

#[test]
fn bytes_after_the_frame_are_ignored() {
    let mut buffer = [0xEEu8; 39];
    buffer[..11].copy_from_slice(&[0x46, 9, 0x27, 0xdc, 0xd0, 0xe8, 0xe1, 0xff, 1, 2, 3]);
    let expected = AdvScanInd::new(Address::new_random(0xffe1e8d0dc27), &[1, 2, 3]);
    assert_eq!(AdvScanInd::parse(&buffer), Ok(expected.clone()));
    assert_eq!(parse(&buffer), Ok(AdvPdu::AdvScanInd(expected)));
}

#[test]
fn parse_tells_the_types_apart() {
    let address = Address::new_random(0xffe1e8d0dc27);
    let data = [9u8, 8, 7];
    assert!(matches!(parse(&AdvInd::new(address, &data).transmission_bytes()), Ok(AdvPdu::AdvInd(_))));
    assert!(matches!(
        parse(&AdvNonconnInd::new(address, &data).transmission_bytes()),
        Ok(AdvPdu::AdvNonconnInd(_))
    ));
    assert!(matches!(
        parse(&AdvScanInd::new(address, &data).transmission_bytes()),
        Ok(AdvPdu::AdvScanInd(_))
    ));
    assert!(matches!(
        parse(&ScanRsp::new(address, &data).transmission_bytes()),
        Ok(AdvPdu::ScanRsp(_))
    ));
    assert!(matches!(
        parse(&AdvDirectInd::new(address, address).transmission_bytes()),
        Ok(AdvPdu::AdvDirectInd(_))
    ));
    assert!(matches!(
        parse(&ScanReq::new(address, address).transmission_bytes()),
        Ok(AdvPdu::ScanReq(_))
    ));
}
