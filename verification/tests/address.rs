use jewel::ll::{Address, AddressType};

#[test]
fn number_is_stored_least_significant_byte_first() {
    let address = Address::new_random(0xffe1e8d0dc27);
    assert_eq!(address.bytes(), [0x27, 0xdc, 0xd0, 0xe8, 0xe1, 0xff]);
    assert_eq!(address.transmission_bytes(), [0x27, 0xdc, 0xd0, 0xe8, 0xe1, 0xff]);
    assert_eq!(address.kind(), AddressType::Random);

    let address = Address::new_public(0xffe1e8d0dc27);
    assert_eq!(address.bytes(), [0x27, 0xdc, 0xd0, 0xe8, 0xe1, 0xff]);
    assert_eq!(address.kind(), AddressType::Public);
}

#[test]
fn only_the_low_48_bits_count() {
    let address = Address::new_public(0xabcd_0102_0304_0506);
    assert_eq!(address.bytes(), [0x06, 0x05, 0x04, 0x03, 0x02, 0x01]);
    assert_eq!(address.u64_address(), 0x0102_0304_0506);
    assert_eq!(Address::u64_to_le(u64::MAX), [0xff; 6]);
    assert_eq!(Address::u64_to_le(0), [0; 6]);
}

#[test]
fn construction_paths_agree() {
    let from_number = Address::new_random(0xffe1e8d0dc27);
    let from_be = Address::new_be([0xff, 0xe1, 0xe8, 0xd0, 0xdc, 0x27], AddressType::Random);
    let from_le = Address::new_le([0x27, 0xdc, 0xd0, 0xe8, 0xe1, 0xff], AddressType::Random);
    assert_eq!(from_number, from_be);
    assert_eq!(from_number, from_le);
    assert_eq!(from_be.bytes(), from_le.bytes());
    assert_eq!(from_be.u64_address(), 0xffe1e8d0dc27);
}

#[test]
fn random_is_not_public() {
    for x in [0u64, 1, 0xffe1e8d0dc27, 0xffff_ffff_ffff, u64::MAX] {
        assert_ne!(Address::new_random(x), Address::new_public(x));
        assert_eq!(Address::new_random(x), Address::new_random(x));
        assert_eq!(Address::new_public(x), Address::new_public(x));
        assert_eq!(Address::new_random(x).bytes(), Address::new_public(x).bytes());
    }
    assert_ne!(Address::new_public(1), Address::new_public(2));
    assert_ne!(Address::new_public(1), Address::new_public(1 << 40));
}

#[test]
fn number_round_trip() {
    for x in [0u64, 1, 0xff, 0x100, 0x1234_5678_9abc, 0xffff_ffff_ffff] {
        assert_eq!(Address::new_public(x).u64_address(), x);
    }
}
