//! The non-connectable undirected advertising PDU with its fields in the
//! open.

use vstd::prelude::*;
use crate::buffer::spec_write_at;
use crate::ll::address::Address;
use crate::ll::adv::pdu::{
    spec_address_and_data_frame, spec_parse_address_and_data, spec_zeros, AddressAndData,
    AddressAndDataView, MAX_DATA_LENGTH,
};

pub use crate::ll::adv::pdu::ParseError;

verus! {

/// Advertising Non-Connectable Indication
/// Used to non-connectable and non-scannable undirected advertising events
///
/// ```text
/// |LSB                                     MSB|LSB    MSB|LSB     MSB|LSB         MSB|
/// +----------+-----+-------+---------+---------+----------+-----------+---------------+
/// | PDU Type | RFU | ChSel | TxAdd   | RxAdd   | Length   | AdvA      | AdvData       |
/// | 0b0010   | -   | -     | (1 bit) | -       | (8 bits) | (6 bytes) | (0-31 bytes)  |
/// +----------+-----+-------+---------+---------+----------+-----------+---------------+
/// |                 HEADER (2 bytes)                      |   Payload (6-37 bytes)    |
/// +-------------------------------------------------------+---------------------------+
/// ```
/// The TxAdd indicate the type of the advertiser address, either public or random.
#[derive(Debug, Clone, Copy, PartialEq, Eq)]
pub struct NonConnectableUndirected<'a> {
    pub address: Address,
    pub data: &'a [u8],
}

impl<'a> View for NonConnectableUndirected<'a> {
    type V = AddressAndDataView;

    open spec fn view(&self) -> AddressAndDataView {
        AddressAndDataView { address: self.address@, data: self.data@ }
    }
}

impl<'a> AddressAndData<'a> for NonConnectableUndirected<'a> {
    const PDU_TYPE: u8 = 0b0010;

    open spec fn spec_pdu_type() -> u8 {
        0b0010
    }

    proof fn lemma_pdu_type() {
        assert(Self::PDU_TYPE == 0b0010);
    }

    fn address(&self) -> (address: &Address) {
        &self.address
    }

    fn data(&self) -> (data: &[u8]) {
        self.data
    }

    fn from_address_and_data(address: Address, data: &'a [u8]) -> (pdu: Self) {
        Self { address, data }
    }
}

impl<'a> NonConnectableUndirected<'a> {
    /// The four bit code of the PDU type in the header.
    pub const TYPE: u8 = 0b0010;

    /// The frame at the start of a buffer of 39 bytes, the longest that a
    /// frame can be. The bytes after the frame are zero.
    pub fn transmission_bytes(&self) -> (bytes: [u8; 39])
        requires
            self@.data.len() <= MAX_DATA_LENGTH,
        ensures
            bytes@ == spec_write_at(
                spec_zeros(39),
                0,
                spec_address_and_data_frame(Self::spec_pdu_type(), self@),
            ),
    {
        let mut bytes = [0u8; 39];
        assert(bytes@ =~= spec_zeros(39));
        self.bytes(&mut bytes);
        bytes
    }

    /// Reads the frame at the start of a buffer of 39 bytes.
    pub fn reception_parse(bytes: &'a [u8; 39]) -> (pdu: Result<Self, ParseError>)
        ensures
            match spec_parse_address_and_data(Self::spec_pdu_type(), bytes@) {
                Ok(view) => pdu matches Ok(parsed) && parsed@ == view,
                Err(error) => pdu matches Err(found) && found == error,
            },
    {
        <Self as AddressAndData>::parse(bytes.as_slice())
    }
}

/// Reads the non-connectable undirected advertising PDU at the start of
/// `bytes`. Whatever keeps it from being read is reported as an invalid
/// type.
pub fn parse<'a>(bytes: &'a [u8]) -> (pdu: Result<NonConnectableUndirected<'a>, ParseError>)
    ensures
        match spec_parse_address_and_data(NonConnectableUndirected::spec_pdu_type(), bytes@) {
            Ok(view) => pdu matches Ok(parsed) && parsed@ == view,
            Err(_) => pdu matches Err(found) && found == ParseError::InvalidType,
        },
{
    let package = <NonConnectableUndirected as AddressAndData>::parse(bytes);
    if package.is_ok() {
        return package;
    }
    Err(ParseError::InvalidType)
}

} // verus!
