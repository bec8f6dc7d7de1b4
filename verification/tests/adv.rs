use jewel::ll::{Address, AdvDirectInd, AdvInd, AdvNonconnInd, AdvScanInd, ScanReq, ScanRsp};

#[test]
fn adv_adv_serialize() {
    let actual = AdvInd::new(Address::new_random(0xffe1e8d0dc27), &[0x01, 0x02, 0x03]);

    let expected = [
        0x40u8, // ADV_IND, Random address,
        9,      // Length of payload
        0x27, 0xdc, 0xd0, 0xe8, 0xe1, 0xff, // Address
        0x01, 0x02, 0x03, // Data
    ];

    assert_eq!(actual.transmission_bytes()[..(expected.len())], expected);
}

#[test]
fn adv_adv_complementary() {
    let packet = AdvInd::new(Address::new_random(0xffe1e8d0dc27), &[0x01, 0x02, 0x03]);

    let bytes = packet.transmission_bytes();
    let actual = AdvInd::reception_parse(&bytes).unwrap();

    assert_eq!(packet, actual);
}

#[test]
fn adv_direct_serialize() {
    let actual = AdvDirectInd::new(
        Address::new_random(0xffe1e8d0dc27),
        Address::new_random(0xffe1e8d0dc27),
    );

    let expected = [
        0xC1u8, // ADV_DIRECT_IND, Random address, Random address
        12,     // Length of payload
        0x27, 0xdc, 0xd0, 0xe8, 0xe1, 0xff, // Address
        0x27, 0xdc, 0xd0, 0xe8, 0xe1, 0xff, // Address
    ];

    assert_eq!(actual.transmission_bytes()[..(expected.len())], expected);
}

#[test]
fn adv_direct_complementary() {
    let packet = AdvDirectInd::new(
        Address::new_random(0xffe1e8d0dc27),
        Address::new_random(0xffe1e8d0dc27),
    );

    let bytes = packet.transmission_bytes();
    let actual = AdvDirectInd::reception_parse(&bytes).unwrap();

    assert_eq!(packet, actual);
}

#[test]
fn adv_non_connectable_serialize() {
    let actual = AdvNonconnInd::new(Address::new_random(0xffe1e8d0dc27), &[0x01, 0x02, 0x03]);

    let expected = [
        0x42u8, // ADV_NONCONN_IND, Random address,
        9,      // Length of payload
        0x27, 0xdc, 0xd0, 0xe8, 0xe1, 0xff, // Address
        0x01, 0x02, 0x03, // Data
    ];

    assert_eq!(actual.transmission_bytes()[..(expected.len())], expected);
}

#[test]
fn adv_non_connectable_complementary() {
    let packet = AdvNonconnInd::new(Address::new_random(0xffe1e8d0dc27), &[0x01, 0x02, 0x03]);

    let bytes = packet.transmission_bytes();
    let actual = AdvNonconnInd::reception_parse(&bytes).unwrap();

    assert_eq!(packet, actual);
}

#[test]
fn adv_scan_serialize() {
    let actual = AdvScanInd::new(Address::new_random(0xffe1e8d0dc27), &[0x01, 0x02, 0x03]);

    let expected = [
        0x46u8, // ADV_SCAN_IND, Random address,
        9,      // Length of payload
        0x27, 0xdc, 0xd0, 0xe8, 0xe1, 0xff, // Address
        0x01, 0x02, 0x03, // Data
    ];

    assert_eq!(actual.transmission_bytes()[..(expected.len())], expected);
}

#[test]
fn adv_scan_complementary() {
    let packet = AdvScanInd::new(Address::new_random(0xffe1e8d0dc27), &[0x01, 0x02, 0x03]);

    let bytes = packet.transmission_bytes();
    let actual = AdvScanInd::reception_parse(&bytes).unwrap();

    assert_eq!(packet, actual);
}

#[test]
fn adv_scan_request_serialize() {
    let actual = ScanReq::new(
        Address::new_random(0xffe1e8d0dc27),
        Address::new_random(0xffe1e8d0dc27),
    );

    let expected = [
        0xC3u8, // SCAN_REQ, Random address, Random address
        12,     // Length of payload
        0x27, 0xdc, 0xd0, 0xe8, 0xe1, 0xff, // Address
        0x27, 0xdc, 0xd0, 0xe8, 0xe1, 0xff, // Address
    ];

    assert_eq!(actual.transmission_bytes()[..(expected.len())], expected);
}

#[test]
fn adv_scan_request_complementary() {
    let packet = ScanReq::new(
        Address::new_random(0xffe1e8d0dc27),
        Address::new_random(0xffe1e8d0dc27),
    );

    let bytes = packet.transmission_bytes();
    let actual = ScanReq::reception_parse(&bytes).unwrap();

    assert_eq!(packet, actual);
}

#[test]
fn adv_scan_response_serialize() {
    let actual = ScanRsp::new(Address::new_random(0xffe1e8d0dc27), &[0x01, 0x02, 0x03]);

    let expected = [
        0x44u8, // SCAN_RSP, Random address,
        9,      // Length of payload
        0x27, 0xdc, 0xd0, 0xe8, 0xe1, 0xff, // Address
        0x01, 0x02, 0x03, // Data
    ];

    assert_eq!(actual.transmission_bytes()[..(expected.len())], expected);
}

#[test]
fn adv_scan_response_complementary() {
    let packet = ScanRsp::new(Address::new_random(0xffe1e8d0dc27), &[0x01, 0x02, 0x03]);

    let bytes = packet.transmission_bytes();
    let actual = ScanRsp::reception_parse(&bytes).unwrap();

    assert_eq!(packet, actual);
}
