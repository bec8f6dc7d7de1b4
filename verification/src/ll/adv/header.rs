//! The two byte header of an advertising physical channel PDU.

use vstd::prelude::*;
use crate::ll::address::AddressType;

verus! {

/// The header: one byte of flags, one byte with the length of the payload.
#[derive(Debug, Clone, Copy, PartialEq, Eq, Structural)]
pub struct Header {
    pub flags: Flags,
    pub length: u8,
}

/// The first header byte: the PDU type in the low four bits, then RFU,
/// ChSel, TxAdd and RxAdd, one bit each.
#[derive(Debug, Clone, Copy, PartialEq, Eq, Structural)]
pub struct Flags {
    pub rx_add: bool,
    pub tx_add: bool,
    pub ch_sel: bool,
    pub rfu: bool,
    pub pdu_type: u8,
}

/// A bit as a number.
pub open spec fn spec_bit(b: bool) -> int {
    if b {
        1
    } else {
        0
    }
}

/// The header bit that stands for an address type: clear for public, set
/// for random.
pub open spec fn spec_address_bit(address_type: AddressType) -> bool {
    address_type == AddressType::Random
}

/// The address type that a header bit stands for.
pub open spec fn spec_bit_address(bit: bool) -> AddressType {
    if bit {
        AddressType::Random
    } else {
        AddressType::Public
    }
}

/// A bit as a number.
pub fn bool_to_bit(b: bool) -> (bit: u8)
    ensures
        bit == spec_bit(b),
{
    match b {
        true => 1,
        false => 0,
    }
}

impl Flags {
    /// The flags as one byte: RxAdd | TxAdd | ChSel | RFU | PDU type.
    pub open spec fn spec_byte(&self) -> u8 {
        (128 * spec_bit(self.rx_add) + 64 * spec_bit(self.tx_add) + 32 * spec_bit(self.ch_sel) + 16
            * spec_bit(self.rfu) + self.pdu_type % 16) as u8
    }

    /// The flags that a byte holds.
    pub open spec fn spec_parse(byte: u8) -> Flags {
        Flags {
            rx_add: byte / 128 % 2 == 1,
            tx_add: byte / 64 % 2 == 1,
            ch_sel: byte / 32 % 2 == 1,
            rfu: byte / 16 % 2 == 1,
            pdu_type: byte % 16,
        }
    }

    /// RxAdd | TxAdd | ChSel | RFU | PDU Type
    pub fn bytes(&self) -> (bytes: [u8; 1])
        ensures
            bytes@ == seq![self.spec_byte()],
    {
        let rx: u8 = bool_to_bit(self.rx_add);
        let tx: u8 = bool_to_bit(self.tx_add);
        let ch: u8 = bool_to_bit(self.ch_sel);
        let rfu: u8 = bool_to_bit(self.rfu);
        let pdu_type: u8 = self.pdu_type;
        assert(rx << 7 | tx << 6 | ch << 5 | rfu << 4 | (pdu_type & 0b1111) == 128 * rx + 64 * tx
            + 32 * ch + 16 * rfu + pdu_type % 16) by (bit_vector)
            requires
                rx <= 1,
                tx <= 1,
                ch <= 1,
                rfu <= 1,
        ;
        let byte: u8 = rx << 7 | tx << 6 | ch << 5 | rfu << 4 | (pdu_type & 0b1111);
        let bytes = [byte];
        assert(bytes@ =~= seq![self.spec_byte()]);
        bytes
    }

    /// The flags that a byte holds.
    pub fn parse(bytes: &[u8; 1]) -> (flags: Self)
        ensures
            flags == Flags::spec_parse(bytes@[0]),
    {
        let byte: u8 = bytes[0];
        assert(((byte & 0b1000_0000) != 0) == (byte / 128 % 2 == 1)) by (bit_vector);
        assert(((byte & 0b0100_0000) != 0) == (byte / 64 % 2 == 1)) by (bit_vector);
        assert(((byte & 0b0010_0000) != 0) == (byte / 32 % 2 == 1)) by (bit_vector);
        assert(((byte & 0b0001_0000) != 0) == (byte / 16 % 2 == 1)) by (bit_vector);
        assert(byte & 0b0000_1111 == byte % 16) by (bit_vector);
        Flags {
            rx_add: (byte & 0b1000_0000) != 0,
            tx_add: (byte & 0b0100_0000) != 0,
            ch_sel: (byte & 0b0010_0000) != 0,
            rfu: (byte & 0b0001_0000) != 0,
            pdu_type: byte & 0b0000_1111,
        }
    }
}

impl Header {
    /// The header as sent on air.
    pub open spec fn spec_bytes(&self) -> Seq<u8> {
        seq![self.flags.spec_byte(), self.length]
    }

    /// The header that two bytes hold.
    pub open spec fn spec_parse(bytes: Seq<u8>) -> Header
        recommends
            bytes.len() == 2,
    {
        Header { flags: Flags::spec_parse(bytes[0]), length: bytes[1] }
    }

    /// The header of a PDU that names no address type.
    pub open spec fn spec_new(pdu_type: u8, length: u8) -> Header {
        Header {
            flags: Flags {
                rx_add: false,
                tx_add: false,
                ch_sel: false,
                rfu: false,
                pdu_type: pdu_type % 16,
            },
            length,
        }
    }

    /// The header of a PDU sent from an address of the given type.
    pub open spec fn spec_with_tx(adv_address_type: AddressType, pdu_type: u8, length: u8) -> Header {
        Header {
            flags: Flags {
                rx_add: false,
                tx_add: spec_address_bit(adv_address_type),
                ch_sel: false,
                rfu: false,
                pdu_type: pdu_type % 16,
            },
            length,
        }
    }

    /// The header of a PDU sent from an address of the first type to one of
    /// the second.
    pub open spec fn spec_with_rxtx(
        adv_address_type: AddressType,
        target_address_type: AddressType,
        pdu_type: u8,
        length: u8,
    ) -> Header {
        Header {
            flags: Flags {
                rx_add: spec_address_bit(target_address_type),
                tx_add: spec_address_bit(adv_address_type),
                ch_sel: false,
                rfu: false,
                pdu_type: pdu_type % 16,
            },
            length,
        }
    }

    /// The header as sent on air.
    pub fn bytes(&self) -> (bytes: [u8; 2])
        ensures
            bytes@ == self.spec_bytes(),
    {
        let flags = self.flags.bytes();
        let bytes = [flags[0], self.length];
        assert(bytes@ =~= self.spec_bytes());
        bytes
    }

    /// The header that two bytes hold.
    pub fn parse(bytes: &[u8; 2]) -> (header: Self)
        ensures
            header == Header::spec_parse(bytes@),
    {
        let flags = [bytes[0]];
        Header { flags: Flags::parse(&flags), length: bytes[1] }
    }

    // The TxAdd in the advertising physical channel PDU header indicates whether the
    // advertiser's address in the AdvA field is public (TxAdd = 0) or random (TxAdd = 1).
    // Also works for the RxAdd
    pub fn address_type_to_header_bit(address_type: AddressType) -> (bit: bool)
        ensures
            bit == spec_address_bit(address_type),
    {
        match address_type {
            AddressType::Public => false,
            AddressType::Random => true,
        }
    }

    /// The address type that a TxAdd or RxAdd bit stands for.
    pub fn bit_to_address_type(bit: bool) -> (address_type: AddressType)
        ensures
            address_type == spec_bit_address(bit),
    {
        match bit {
            false => AddressType::Public,
            true => AddressType::Random,
        }
    }

    /// The header of a PDU that names no address type.
    pub fn new(pdu_type: u8, length: u8) -> (header: Self)
        ensures
            header == Header::spec_new(pdu_type, length),
    {
        assert(pdu_type & 0b1111 == pdu_type % 16) by (bit_vector);
        Header {
            flags: Flags {
                rx_add: false,
                tx_add: false,
                ch_sel: false,
                rfu: false,
                pdu_type: pdu_type & 0b1111,
            },
            length,
        }
    }

    /// The header of a PDU sent from an address of the given type.
    pub fn with_tx(adv_address_type: AddressType, pdu_type: u8, length: u8) -> (header: Self)
        ensures
            header == Header::spec_with_tx(adv_address_type, pdu_type, length),
    {
        let mut header = Self::new(pdu_type, length);
        header.flags.tx_add = Self::address_type_to_header_bit(adv_address_type);
        header
    }

    /// The header of a PDU sent from an address of the first type to one of
    /// the second.
    pub fn with_rxtx(
        adv_address_type: AddressType,
        target_address_type: AddressType,
        pdu_type: u8,
        length: u8,
    ) -> (header: Self)
        ensures
            header == Header::spec_with_rxtx(
                adv_address_type,
                target_address_type,
                pdu_type,
                length,
            ),
    {
        let mut header = Self::with_tx(adv_address_type, pdu_type, length);
        header.flags.rx_add = Self::address_type_to_header_bit(target_address_type);
        header
    }
}

/// Flags with a PDU type below 16 come back unchanged from their byte, and
/// every byte comes back unchanged from its flags.
pub proof fn lemma_flags_round_trip(flags: Flags, byte: u8)
    ensures
        flags.pdu_type < 16 ==> Flags::spec_parse(flags.spec_byte()) == flags,
        Flags::spec_parse(byte).spec_byte() == byte,
        Flags::spec_parse(byte).pdu_type < 16,
        flags.spec_byte() % 16 == flags.pdu_type % 16,
{
    let rx = spec_bit(flags.rx_add) as u8;
    let tx = spec_bit(flags.tx_add) as u8;
    let ch = spec_bit(flags.ch_sel) as u8;
    let rfu = spec_bit(flags.rfu) as u8;
    let pdu_type = (flags.pdu_type % 16) as u8;
    assert({
        let value = (128 * rx + 64 * tx + 32 * ch + 16 * rfu + pdu_type) as u8;
        &&& 128 * rx + 64 * tx + 32 * ch + 16 * rfu + pdu_type < 256
        &&& value / 128 % 2 == rx
        &&& value / 64 % 2 == tx
        &&& value / 32 % 2 == ch
        &&& value / 16 % 2 == rfu
        &&& value % 16 == pdu_type
    }) by (bit_vector)
        requires
            rx <= 1,
            tx <= 1,
            ch <= 1,
            rfu <= 1,
            pdu_type < 16,
    ;
    assert(128 * (byte / 128 % 2) + 64 * (byte / 64 % 2) + 32 * (byte / 32 % 2) + 16 * (byte / 16
        % 2) + byte % 16 == byte) by (bit_vector);
}

/// A header with a PDU type below 16 comes back unchanged from its two
/// bytes, and any two bytes come back unchanged from their header.
pub proof fn lemma_header_round_trip(header: Header, bytes: Seq<u8>)
    ensures
        header.spec_bytes().len() == 2,
        header.flags.pdu_type < 16 ==> Header::spec_parse(header.spec_bytes()) == header,
        bytes.len() == 2 ==> Header::spec_parse(bytes).spec_bytes() == bytes,
{
    lemma_flags_round_trip(header.flags, 0);
    if bytes.len() == 2 {
        lemma_flags_round_trip(header.flags, bytes[0]);
        assert(Header::spec_parse(bytes).spec_bytes() =~= bytes);
    }
}

/// The bit of an address type stands for that address type.
pub proof fn lemma_address_bit_round_trip(address_type: AddressType, bit: bool)
    ensures
        spec_bit_address(spec_address_bit(address_type)) == address_type,
        spec_address_bit(spec_bit_address(bit)) == bit,
{
}

} // verus!
