//! The PDUs of the advertising physical channel.
//!
//! The six legacy PDU types come in two shapes. ADV_IND, ADV_NONCONN_IND,
//! ADV_SCAN_IND and SCAN_RSP hold one address and up to 31 bytes of data;
//! ADV_DIRECT_IND and SCAN_REQ hold two addresses. Each shape has one trait,
//! which writes and reads the frame for every type of that shape.

pub mod direct_ind;
pub mod ind;
pub mod nonconn_ind;
pub mod scan_ind;
pub mod scan_req;
pub mod scan_rsp;

use vstd::prelude::*;
use crate::buffer::{spec_write_at, write_at};
use crate::ll::adv::pdu::direct_ind::AdvDirectInd;
use crate::ll::adv::pdu::ind::AdvInd;
use crate::ll::adv::pdu::nonconn_ind::AdvNonconnInd;
use crate::ll::adv::pdu::scan_ind::AdvScanInd;
use crate::ll::adv::pdu::scan_req::ScanReq;
use crate::ll::adv::pdu::scan_rsp::ScanRsp;
use crate::ll::address::{Address, AddressView};
use crate::ll::adv::header::{
    lemma_address_bit_round_trip, lemma_flags_round_trip, lemma_header_round_trip,
    spec_bit_address, Header,
};

verus! {

/// Why some bytes are not the PDU that was asked for.
#[derive(Debug, Clone, Copy, PartialEq, Eq, Structural)]
pub enum ParseError {
    /// The PDU type in the header is not the one that was asked for, or the
    /// bytes are no PDU of any type that can be read.
    InvalidType,
    /// There are fewer bytes than the PDU takes, or the length in the
    /// header is none that the PDU can have.
    InvalidLength,
    /// The header cannot be read.
    InvalidHeader,
}

/// The most bytes of data that a PDU with one address holds.
pub const MAX_DATA_LENGTH: usize = 31;

/// The length of the longest legacy advertising PDU, header included.
pub const MAX_ADV_PDU_LENGTH: usize = 39;

/// What a PDU with two addresses holds.
pub struct TwoAddressView {
    pub first: AddressView,
    pub second: AddressView,
}

/// What a PDU with one address and data holds.
pub struct AddressAndDataView {
    pub address: AddressView,
    pub data: Seq<u8>,
}

/// One PDU of the advertising physical channel, of any of the six legacy
/// types.
#[derive(Debug, Clone, Copy, PartialEq, Eq)]
pub enum AdvPdu<'a> {
    AdvInd(AdvInd<'a>),
    AdvDirectInd(AdvDirectInd),
    AdvNonconnInd(AdvNonconnInd<'a>),
    AdvScanInd(AdvScanInd<'a>),
    ScanReq(ScanReq),
    ScanRsp(ScanRsp<'a>),
}

/// What a PDU of any type holds.
pub enum AdvPduView {
    AdvInd(AddressAndDataView),
    AdvDirectInd(TwoAddressView),
    AdvNonconnInd(AddressAndDataView),
    AdvScanInd(AddressAndDataView),
    ScanReq(TwoAddressView),
    ScanRsp(AddressAndDataView),
}

impl<'a> View for AdvPdu<'a> {
    type V = AdvPduView;

    open spec fn view(&self) -> AdvPduView {
        match self {
            AdvPdu::AdvInd(pdu) => AdvPduView::AdvInd(pdu@),
            AdvPdu::AdvDirectInd(pdu) => AdvPduView::AdvDirectInd(pdu@),
            AdvPdu::AdvNonconnInd(pdu) => AdvPduView::AdvNonconnInd(pdu@),
            AdvPdu::AdvScanInd(pdu) => AdvPduView::AdvScanInd(pdu@),
            AdvPdu::ScanReq(pdu) => AdvPduView::ScanReq(pdu@),
            AdvPdu::ScanRsp(pdu) => AdvPduView::ScanRsp(pdu@),
        }
    }
}

/// The frame of a PDU with two addresses: the header, whose TxAdd and RxAdd
/// tell the types of the first and the second address, then the two
/// addresses.
pub open spec fn spec_two_address_frame(pdu_type: u8, pdu: TwoAddressView) -> Seq<u8> {
    Header::spec_with_rxtx(pdu.first.kind, pdu.second.kind, pdu_type, 12).spec_bytes()
        + pdu.first.bytes + pdu.second.bytes
}

/// The frame of a PDU with one address and data: the header, whose TxAdd
/// tells the type of the address and whose length counts address and data,
/// then the address, then the data.
pub open spec fn spec_address_and_data_frame(pdu_type: u8, pdu: AddressAndDataView) -> Seq<u8> {
    Header::spec_with_tx(pdu.address.kind, pdu_type, (6 + pdu.data.len()) as u8).spec_bytes()
        + pdu.address.bytes + pdu.data
}

/// What reading a PDU of the given type with two addresses from `bytes`
/// gives. Bytes after the fourteenth are not looked at.
pub open spec fn spec_parse_two_address(pdu_type: u8, bytes: Seq<u8>) -> Result<
    TwoAddressView,
    ParseError,
> {
    if bytes.len() < 8 {
        Err(ParseError::InvalidLength)
    } else {
        let header = Header::spec_parse(bytes.subrange(0, 2));
        if header.flags.pdu_type != pdu_type {
            Err(ParseError::InvalidType)
        } else if header.length != 12 || bytes.len() < 14 {
            Err(ParseError::InvalidLength)
        } else {
            Ok(
                TwoAddressView {
                    first: AddressView {
                        bytes: bytes.subrange(2, 8),
                        kind: spec_bit_address(header.flags.tx_add),
                    },
                    second: AddressView {
                        bytes: bytes.subrange(8, 14),
                        kind: spec_bit_address(header.flags.rx_add),
                    },
                },
            )
        }
    }
}

/// What reading a PDU of the given type with one address and data from
/// `bytes` gives. The header tells where the data ends; bytes after that are
/// not looked at.
pub open spec fn spec_parse_address_and_data(pdu_type: u8, bytes: Seq<u8>) -> Result<
    AddressAndDataView,
    ParseError,
> {
    if bytes.len() < 8 {
        Err(ParseError::InvalidLength)
    } else {
        let header = Header::spec_parse(bytes.subrange(0, 2));
        if header.flags.pdu_type != pdu_type {
            Err(ParseError::InvalidType)
        } else if header.length > 37 || header.length < 6 || bytes.len() < 2 + header.length {
            Err(ParseError::InvalidLength)
        } else {
            Ok(
                AddressAndDataView {
                    address: AddressView {
                        bytes: bytes.subrange(2, 8),
                        kind: spec_bit_address(header.flags.tx_add),
                    },
                    data: bytes.subrange(8, 2 + header.length),
                },
            )
        }
    }
}

/// A buffer of `len` zero bytes.
pub open spec fn spec_zeros(len: nat) -> Seq<u8> {
    Seq::new(len, |i: int| 0u8)
}

/// Reads the header from the first two bytes of a frame.
fn parse_header(bytes: &[u8]) -> (header: Header)
    requires
        bytes@.len() >= 2,
    ensures
        header == Header::spec_parse(bytes@.subrange(0, 2)),
{
    let head = [bytes[0], bytes[1]];
    assert(head@ =~= bytes@.subrange(0, 2));
    Header::parse(&head)
}

/// Reads the six bytes of an address from `start` on.
fn parse_address(bytes: &[u8], start: usize, tx_or_rx_add: bool) -> (address: Address)
    requires
        start + 6 <= bytes@.len(),
    ensures
        address@ == (AddressView {
            bytes: bytes@.subrange(start as int, start + 6),
            kind: spec_bit_address(tx_or_rx_add),
        }),
{
    let address_le = [
        bytes[start],
        bytes[start + 1],
        bytes[start + 2],
        bytes[start + 3],
        bytes[start + 4],
        bytes[start + 5],
    ];
    assert(address_le@ =~= bytes@.subrange(start as int, start + 6));
    Address::new_le(address_le, Header::bit_to_address_type(tx_or_rx_add))
}

/// The shape of ADV_DIRECT_IND and SCAN_REQ.
///
/// ```text
/// |LSB                                     MSB|LSB    MSB|LSB      MSB|LSB      MSB|
/// +----------+-----+-------+---------+---------+----------+------------+------------+
/// | PDU Type | RFU | ChSel | TxAdd   | RxAdd   | Length   | first()    | second()   |
/// | (4 bits) | -   | -     | (1 bit) | (1 bit) | (8 bits) | (6 bytes)  | (6 bytes)  |
/// +----------+-----+-------+---------+---------+----------+------------+------------+
/// |                 HEADER (2 bytes)                      |   Payload (12 bytes)    |
/// +-------------------------------------------------------+-------------------------+
/// ```
/// TxAdd and RxAdd tell whether the first and the second address are public
/// or random.
pub trait TwoAddress: Sized + View<V = TwoAddressView> {
    /// The four bit code of the PDU type in the header.
    const PDU_TYPE: u8;

    /// The value of `PDU_TYPE`.
    spec fn spec_pdu_type() -> u8;

    /// `PDU_TYPE` is what `spec_pdu_type` says.
    proof fn lemma_pdu_type()
        ensures
            Self::PDU_TYPE == Self::spec_pdu_type(),
    ;

    /// The first address: that of the sender.
    fn first(&self) -> (address: &Address)
        ensures
            address@ == self@.first,
    ;

    /// The second address: that of the device that the PDU is meant for.
    fn second(&self) -> (address: &Address)
        ensures
            address@ == self@.second,
    ;

    /// The PDU with these two addresses.
    fn from_addresses(first: Address, second: Address) -> (pdu: Self)
        ensures
            pdu@ == (TwoAddressView { first: first@, second: second@ }),
    ;

    /// Writes the frame to the start of `dest` and returns its length. The
    /// rest of `dest` stays as it is.
    fn bytes(&self, dest: &mut [u8]) -> (total_len: usize)
        requires
            old(dest)@.len() >= 14,
        ensures
            total_len == 14,
            final(dest)@ == spec_write_at(
                old(dest)@,
                0,
                spec_two_address_frame(Self::spec_pdu_type(), self@),
            ),
            final(dest)@.len() == old(dest)@.len(),
            final(dest)@[1] == total_len - 2,
    {
        proof {
            Self::lemma_pdu_type();
        }
        let payload_len: usize = 12;
        let total_len: usize = 2 + payload_len;

        let header = Header::with_rxtx(
            self.first().kind(),
            self.second().kind(),
            Self::PDU_TYPE,
            payload_len as u8,
        );
        let header_bytes = header.bytes();
        let first = self.first();
        let second = self.second();
        let first_bytes = first.bytes();
        let second_bytes = second.bytes();
        proof {
            first.lemma_view(*second);
            second.lemma_view(*first);
        }

        write_at(dest, 0, &header_bytes);  // write header
        write_at(dest, 2, &first_bytes);  // write address 1
        write_at(dest, 8, &second_bytes);  // write address 2
        assert(dest@ =~= spec_write_at(
            old(dest)@,
            0,
            spec_two_address_frame(Self::spec_pdu_type(), self@),
        ));

        total_len
    }

    /// Reads the frame at the start of `bytes`.
    fn parse(bytes: &[u8]) -> (pdu: Result<Self, ParseError>)
        ensures
            match spec_parse_two_address(Self::spec_pdu_type(), bytes@) {
                Ok(view) => pdu matches Ok(parsed) && parsed@ == view,
                Err(error) => pdu matches Err(found) && found == error,
            },
    {
        proof {
            Self::lemma_pdu_type();
        }
        if bytes.len() < 8 {
            return Err(ParseError::InvalidLength);
        }
        let header = parse_header(bytes);
        if header.flags.pdu_type != Self::PDU_TYPE {
            return Err(ParseError::InvalidType);
        }
        if header.length != 12 || bytes.len() < 14 {
            return Err(ParseError::InvalidLength);
        }
        let first = parse_address(bytes, 2, header.flags.tx_add);
        let second = parse_address(bytes, 8, header.flags.rx_add);

        Ok(Self::from_addresses(first, second))
    }
}

/// The shape of ADV_IND, ADV_NONCONN_IND, ADV_SCAN_IND and SCAN_RSP.
///
/// ```text
/// |LSB                                     MSB|LSB    MSB|LSB     MSB|LSB         MSB|
/// +----------+-----+-------+---------+---------+----------+-----------+---------------+
/// | PDU Type | RFU | ChSel | TxAdd   | RxAdd   | Length   | address() | data()        |
/// | (4 bits) | -   | -     | (1 bit) | -       | (8 bits) | (6 bytes) | (0-31 bytes)  |
/// +----------+-----+-------+---------+---------+----------+-----------+---------------+
/// |                 HEADER (2 bytes)                      |   Payload (6-37 bytes)    |
/// +-------------------------------------------------------+---------------------------+
/// ```
/// TxAdd tells whether the address is public or random.
pub trait AddressAndData<'a>: Sized + View<V = AddressAndDataView> {
    /// The four bit code of the PDU type in the header.
    const PDU_TYPE: u8;

    /// The value of `PDU_TYPE`.
    spec fn spec_pdu_type() -> u8;

    /// `PDU_TYPE` is what `spec_pdu_type` says.
    proof fn lemma_pdu_type()
        ensures
            Self::PDU_TYPE == Self::spec_pdu_type(),
    ;

    /// The address of the sender.
    fn address(&self) -> (address: &Address)
        ensures
            address@ == self@.address,
    ;

    /// The data: advertising data or scan response data from the host.
    fn data(&self) -> (data: &[u8])
        ensures
            data@ == self@.data,
    ;

    /// The PDU with this address and this data.
    fn from_address_and_data(address: Address, data: &'a [u8]) -> (pdu: Self)
        ensures
            pdu@ == (AddressAndDataView { address: address@, data: data@ }),
    ;

    /// Writes the frame to the start of `dest` and returns its length. The
    /// rest of `dest` stays as it is.
    fn bytes(&self, dest: &mut [u8]) -> (total_len: usize)
        requires
            self@.data.len() <= MAX_DATA_LENGTH,
            old(dest)@.len() >= 8 + self@.data.len(),
        ensures
            total_len == 8 + self@.data.len(),
            final(dest)@ == spec_write_at(
                old(dest)@,
                0,
                spec_address_and_data_frame(Self::spec_pdu_type(), self@),
            ),
            final(dest)@.len() == old(dest)@.len(),
            final(dest)@[1] == total_len - 2,
    {
        proof {
            Self::lemma_pdu_type();
        }
        let payload_len: usize = 6 + self.data().len();
        let total_len: usize = 2 + payload_len;

        let header = Header::with_tx(self.address().kind(), Self::PDU_TYPE, payload_len as u8);
        let header_bytes = header.bytes();
        let address = self.address();
        let address_bytes = address.bytes();
        proof {
            address.lemma_view(*address);
        }

        write_at(dest, 0, &header_bytes);  // write header
        write_at(dest, 2, &address_bytes);  // write address
        write_at(dest, 8, self.data());  // write data
        assert(dest@ =~= spec_write_at(
            old(dest)@,
            0,
            spec_address_and_data_frame(Self::spec_pdu_type(), self@),
        ));

        total_len
    }

    /// Reads the frame at the start of `bytes`.
    fn parse(bytes: &'a [u8]) -> (pdu: Result<Self, ParseError>)
        ensures
            match spec_parse_address_and_data(Self::spec_pdu_type(), bytes@) {
                Ok(view) => pdu matches Ok(parsed) && parsed@ == view,
                Err(error) => pdu matches Err(found) && found == error,
            },
    {
        proof {
            Self::lemma_pdu_type();
        }
        if bytes.len() < 8 {
            return Err(ParseError::InvalidLength);
        }
        let header = parse_header(bytes);
        if header.flags.pdu_type != Self::PDU_TYPE {
            return Err(ParseError::InvalidType);
        }
        if header.length as usize > 37 {
            return Err(ParseError::InvalidLength);
        }
        if (header.length as usize) < 6 || bytes.len() < 2 + header.length as usize {
            return Err(ParseError::InvalidLength);
        }
        let address = parse_address(bytes, 2, header.flags.tx_add);
        let data = &bytes[8..(2 + header.length as usize)];

        Ok(Self::from_address_and_data(address, data))
    }
}

impl AdvPduView {
    /// The frame of the PDU.
    pub open spec fn spec_frame(self) -> Seq<u8> {
        match self {
            AdvPduView::AdvInd(pdu) => spec_address_and_data_frame(AdvInd::spec_pdu_type(), pdu),
            AdvPduView::AdvDirectInd(pdu) => spec_two_address_frame(AdvDirectInd::spec_pdu_type(), pdu),
            AdvPduView::AdvNonconnInd(pdu) => spec_address_and_data_frame(
                AdvNonconnInd::spec_pdu_type(),
                pdu,
            ),
            AdvPduView::AdvScanInd(pdu) => spec_address_and_data_frame(AdvScanInd::spec_pdu_type(), pdu),
            AdvPduView::ScanReq(pdu) => spec_two_address_frame(ScanReq::spec_pdu_type(), pdu),
            AdvPduView::ScanRsp(pdu) => spec_address_and_data_frame(ScanRsp::spec_pdu_type(), pdu),
        }
    }

    /// Whether the PDU can be sent: its addresses have six bytes and its
    /// data, where it has any, at most 31.
    pub open spec fn wf(self) -> bool {
        match self {
            AdvPduView::AdvInd(pdu) => pdu.wf(),
            AdvPduView::AdvDirectInd(pdu) => pdu.wf(),
            AdvPduView::AdvNonconnInd(pdu) => pdu.wf(),
            AdvPduView::AdvScanInd(pdu) => pdu.wf(),
            AdvPduView::ScanReq(pdu) => pdu.wf(),
            AdvPduView::ScanRsp(pdu) => pdu.wf(),
        }
    }
}

impl TwoAddressView {
    /// Both addresses have six bytes.
    pub open spec fn wf(self) -> bool {
        self.first.bytes.len() == 6 && self.second.bytes.len() == 6
    }
}

impl AddressAndDataView {
    /// The address has six bytes and the data at most 31.
    pub open spec fn wf(self) -> bool {
        self.address.bytes.len() == 6 && self.data.len() <= MAX_DATA_LENGTH
    }
}

/// What reading a PDU of any type from `bytes` gives: each type is tried in
/// turn, and the first that reads without an error is the result.
pub open spec fn spec_parse(bytes: Seq<u8>) -> Result<AdvPduView, ParseError> {
    if let Ok(pdu) = spec_parse_two_address(AdvDirectInd::spec_pdu_type(), bytes) {
        Ok(AdvPduView::AdvDirectInd(pdu))
    } else if let Ok(pdu) = spec_parse_address_and_data(AdvInd::spec_pdu_type(), bytes) {
        Ok(AdvPduView::AdvInd(pdu))
    } else if let Ok(pdu) = spec_parse_address_and_data(AdvNonconnInd::spec_pdu_type(), bytes) {
        Ok(AdvPduView::AdvNonconnInd(pdu))
    } else if let Ok(pdu) = spec_parse_address_and_data(AdvScanInd::spec_pdu_type(), bytes) {
        Ok(AdvPduView::AdvScanInd(pdu))
    } else if let Ok(pdu) = spec_parse_two_address(ScanReq::spec_pdu_type(), bytes) {
        Ok(AdvPduView::ScanReq(pdu))
    } else if let Ok(pdu) = spec_parse_address_and_data(ScanRsp::spec_pdu_type(), bytes) {
        Ok(AdvPduView::ScanRsp(pdu))
    } else {
        Err(ParseError::InvalidType)
    }
}

/// Reads the PDU at the start of `bytes`, whatever its type.
pub fn parse<'a>(bytes: &'a [u8]) -> (pdu: Result<AdvPdu<'a>, ParseError>)
    ensures
        match spec_parse(bytes@) {
            Ok(view) => pdu matches Ok(parsed) && parsed@ == view,
            Err(error) => pdu matches Err(found) && found == error,
        },
{
    if let Ok(packet) = <AdvDirectInd as TwoAddress>::parse(bytes) {
        Ok(AdvPdu::from(packet))
    } else if let Ok(packet) = <AdvInd as AddressAndData>::parse(bytes) {
        Ok(AdvPdu::from(packet))
    } else if let Ok(packet) = <AdvNonconnInd as AddressAndData>::parse(bytes) {
        Ok(AdvPdu::from(packet))
    } else if let Ok(packet) = <AdvScanInd as AddressAndData>::parse(bytes) {
        Ok(AdvPdu::from(packet))
    } else if let Ok(packet) = <ScanReq as TwoAddress>::parse(bytes) {
        Ok(AdvPdu::from(packet))
    } else if let Ok(packet) = <ScanRsp as AddressAndData>::parse(bytes) {
        Ok(AdvPdu::from(packet))
    } else {
        Err(ParseError::InvalidType)
    }
}

/// The frame of a PDU with two addresses has fourteen bytes. The length
/// byte of its header is its length less the two bytes of the header, and
/// the low four bits of its first byte are the PDU type.
pub proof fn lemma_two_address_header(pdu_type: u8, pdu: TwoAddressView)
    requires
        pdu.wf(),
    ensures
        spec_two_address_frame(pdu_type, pdu).len() == 14,
        spec_two_address_frame(pdu_type, pdu)[1] == spec_two_address_frame(pdu_type, pdu).len()
            - 2,
        spec_two_address_frame(pdu_type, pdu)[0] % 16 == pdu_type % 16,
{
    let header = Header::spec_with_rxtx(pdu.first.kind, pdu.second.kind, pdu_type, 12);
    lemma_flags_round_trip(header.flags, 0);
}

/// The frame of a PDU with an address and data has eight bytes and those of
/// the data. The length byte of its header is its length less the two bytes
/// of the header, and the low four bits of its first byte are the PDU type.
pub proof fn lemma_address_and_data_header(pdu_type: u8, pdu: AddressAndDataView)
    requires
        pdu.wf(),
    ensures
        spec_address_and_data_frame(pdu_type, pdu).len() == 8 + pdu.data.len(),
        spec_address_and_data_frame(pdu_type, pdu)[1] == spec_address_and_data_frame(
            pdu_type,
            pdu,
        ).len() - 2,
        spec_address_and_data_frame(pdu_type, pdu)[0] % 16 == pdu_type % 16,
{
    let header = Header::spec_with_tx(pdu.address.kind, pdu_type, (6 + pdu.data.len()) as u8);
    lemma_flags_round_trip(header.flags, 0);
}

/// The length byte of the header of the frame of any PDU is the length of
/// the frame less the two bytes of the header, and no frame is longer than
/// 39 bytes.
pub proof fn lemma_pdu_header_length(pdu: AdvPduView)
    requires
        pdu.wf(),
    ensures
        2 <= pdu.spec_frame().len() <= MAX_ADV_PDU_LENGTH,
        pdu.spec_frame()[1] == pdu.spec_frame().len() - 2,
{
    match pdu {
        AdvPduView::AdvInd(one) => lemma_address_and_data_header(AdvInd::spec_pdu_type(), one),
        AdvPduView::AdvDirectInd(two) => lemma_two_address_header(
            AdvDirectInd::spec_pdu_type(),
            two,
        ),
        AdvPduView::AdvNonconnInd(one) => lemma_address_and_data_header(
            AdvNonconnInd::spec_pdu_type(),
            one,
        ),
        AdvPduView::AdvScanInd(one) => lemma_address_and_data_header(
            AdvScanInd::spec_pdu_type(),
            one,
        ),
        AdvPduView::ScanReq(two) => lemma_two_address_header(ScanReq::spec_pdu_type(), two),
        AdvPduView::ScanRsp(one) => lemma_address_and_data_header(ScanRsp::spec_pdu_type(), one),
    }
}

/// Reading what was written gives the PDU back: a PDU with two addresses is
/// read from its frame, whatever bytes follow the frame in the buffer.
pub proof fn lemma_two_address_round_trip(pdu_type: u8, pdu: TwoAddressView, rest: Seq<u8>)
    requires
        pdu_type < 16,
        pdu.wf(),
    ensures
        spec_parse_two_address(pdu_type, spec_two_address_frame(pdu_type, pdu) + rest) == Ok::<
            TwoAddressView,
            ParseError,
        >(pdu),
{
    let frame = spec_two_address_frame(pdu_type, pdu);
    let bytes = frame + rest;
    let header = Header::spec_with_rxtx(pdu.first.kind, pdu.second.kind, pdu_type, 12);
    lemma_header_round_trip(header, header.spec_bytes());
    lemma_address_bit_round_trip(pdu.first.kind, true);
    lemma_address_bit_round_trip(pdu.second.kind, true);
    assert(bytes.subrange(0, 2) =~= header.spec_bytes());
    assert(bytes.subrange(2, 8) =~= pdu.first.bytes);
    assert(bytes.subrange(8, 14) =~= pdu.second.bytes);
}

/// Reading what was written gives the PDU back: a PDU with an address and
/// data is read from its frame, whatever bytes follow the frame in the
/// buffer.
pub proof fn lemma_address_and_data_round_trip(
    pdu_type: u8,
    pdu: AddressAndDataView,
    rest: Seq<u8>,
)
    requires
        pdu_type < 16,
        pdu.wf(),
    ensures
        spec_parse_address_and_data(pdu_type, spec_address_and_data_frame(pdu_type, pdu) + rest)
            == Ok::<AddressAndDataView, ParseError>(pdu),
{
    let frame = spec_address_and_data_frame(pdu_type, pdu);
    let bytes = frame + rest;
    let header = Header::spec_with_tx(pdu.address.kind, pdu_type, (6 + pdu.data.len()) as u8);
    lemma_header_round_trip(header, header.spec_bytes());
    lemma_address_bit_round_trip(pdu.address.kind, true);
    assert(bytes.subrange(0, 2) =~= header.spec_bytes());
    assert(bytes.subrange(2, 8) =~= pdu.address.bytes);
    assert(bytes.subrange(8, 2 + header.length) =~= pdu.data);
}

/// Reading a frame without knowing its type gives back the PDU that was
/// written, of the type that it was written as, whatever bytes follow the
/// frame in the buffer.
pub proof fn lemma_parse_round_trip(pdu: AdvPduView, rest: Seq<u8>)
    requires
        pdu.wf(),
    ensures
        spec_parse(pdu.spec_frame() + rest) == Ok::<AdvPduView, ParseError>(pdu),
{
    let bytes = pdu.spec_frame() + rest;
    lemma_parse_by_type(bytes);
    match pdu {
        AdvPduView::AdvInd(one) => {
            lemma_address_and_data_header(AdvInd::spec_pdu_type(), one);
            lemma_address_and_data_round_trip(AdvInd::spec_pdu_type(), one, rest);
        },
        AdvPduView::AdvDirectInd(two) => {
            lemma_two_address_header(AdvDirectInd::spec_pdu_type(), two);
            lemma_two_address_round_trip(AdvDirectInd::spec_pdu_type(), two, rest);
        },
        AdvPduView::AdvNonconnInd(one) => {
            lemma_address_and_data_header(AdvNonconnInd::spec_pdu_type(), one);
            lemma_address_and_data_round_trip(AdvNonconnInd::spec_pdu_type(), one, rest);
        },
        AdvPduView::AdvScanInd(one) => {
            lemma_address_and_data_header(AdvScanInd::spec_pdu_type(), one);
            lemma_address_and_data_round_trip(AdvScanInd::spec_pdu_type(), one, rest);
        },
        AdvPduView::ScanReq(two) => {
            lemma_two_address_header(ScanReq::spec_pdu_type(), two);
            lemma_two_address_round_trip(ScanReq::spec_pdu_type(), two, rest);
        },
        AdvPduView::ScanRsp(one) => {
            lemma_address_and_data_header(ScanRsp::spec_pdu_type(), one);
            lemma_address_and_data_round_trip(ScanRsp::spec_pdu_type(), one, rest);
        },
    }
}

/// The order in which the types are tried does not show in the result: the
/// low four bits of the first byte tell the only type that can be read, and
/// whatever keeps that type from being read is reported as an invalid type.
pub proof fn lemma_parse_by_type(bytes: Seq<u8>)
    ensures
        bytes.len() < 8 ==> spec_parse(bytes) == Err::<AdvPduView, ParseError>(
            ParseError::InvalidType,
        ),
        bytes.len() >= 8 ==> spec_parse(bytes) == {
            let pdu_type = bytes[0] % 16;
            if pdu_type == AdvInd::spec_pdu_type() {
                match spec_parse_address_and_data(pdu_type as u8, bytes) {
                    Ok(pdu) => Ok(AdvPduView::AdvInd(pdu)),
                    Err(_) => Err(ParseError::InvalidType),
                }
            } else if pdu_type == AdvDirectInd::spec_pdu_type() {
                match spec_parse_two_address(pdu_type as u8, bytes) {
                    Ok(pdu) => Ok(AdvPduView::AdvDirectInd(pdu)),
                    Err(_) => Err(ParseError::InvalidType),
                }
            } else if pdu_type == AdvNonconnInd::spec_pdu_type() {
                match spec_parse_address_and_data(pdu_type as u8, bytes) {
                    Ok(pdu) => Ok(AdvPduView::AdvNonconnInd(pdu)),
                    Err(_) => Err(ParseError::InvalidType),
                }
            } else if pdu_type == ScanReq::spec_pdu_type() {
                match spec_parse_two_address(pdu_type as u8, bytes) {
                    Ok(pdu) => Ok(AdvPduView::ScanReq(pdu)),
                    Err(_) => Err(ParseError::InvalidType),
                }
            } else if pdu_type == ScanRsp::spec_pdu_type() {
                match spec_parse_address_and_data(pdu_type as u8, bytes) {
                    Ok(pdu) => Ok(AdvPduView::ScanRsp(pdu)),
                    Err(_) => Err(ParseError::InvalidType),
                }
            } else if pdu_type == AdvScanInd::spec_pdu_type() {
                match spec_parse_address_and_data(pdu_type as u8, bytes) {
                    Ok(pdu) => Ok(AdvPduView::AdvScanInd(pdu)),
                    Err(_) => Err(ParseError::InvalidType),
                }
            } else {
                Err(ParseError::InvalidType)
            }
        },
{
    if bytes.len() >= 8 {
        assert(bytes.subrange(0, 2)[0] == bytes[0]);
    }
}

} // verus!
