//! The ADV_IND PDU.

use vstd::prelude::*;
use crate::buffer::spec_write_at;
use crate::ll::address::Address;
use crate::ll::adv::pdu::{
    spec_address_and_data_frame, spec_parse_address_and_data, spec_zeros, AddressAndData,
    AddressAndDataView, AdvPdu, ParseError, MAX_DATA_LENGTH,
};

verus! {

/// ADV_IND: connectable and scannable undirected advertising.
///
/// Holds the advertiser's address and, where there is any, advertising data
/// from the advertiser's host.
#[derive(Debug, Clone, Copy, PartialEq, Eq)]
pub struct AdvInd<'a> {
    adv_address: Address,
    adv_data: &'a [u8],
}

impl<'a> View for AdvInd<'a> {
    type V = AddressAndDataView;

    closed spec fn view(&self) -> AddressAndDataView {
        AddressAndDataView { address: self.adv_address@, data: self.adv_data@ }
    }
}

impl<'a> AdvInd<'a> {
    /// The PDU with this address and this data.
    pub fn new(adv_address: Address, adv_data: &'a [u8]) -> (pdu: Self)
        ensures
            pdu@ == (AddressAndDataView { address: adv_address@, data: adv_data@ }),
    {
        Self { adv_address: adv_address, adv_data: adv_data }
    }

    /// The frame at the start of a buffer of 39 bytes, the longest that a
    /// frame can be. The bytes after the frame are zero.
    pub fn transmission_bytes(&self) -> (bytes: [u8; 39])
        requires
            self@.data.len() <= MAX_DATA_LENGTH,
        ensures
            bytes@ == spec_write_at(
                spec_zeros(39),
                0,
                spec_address_and_data_frame(Self::spec_pdu_type(), self@),
            ),
    {
        let mut bytes = [0u8; 39];
        assert(bytes@ =~= spec_zeros(39));
        self.bytes(&mut bytes);
        bytes
    }

    /// Reads the frame at the start of a buffer of 39 bytes.
    pub fn reception_parse(bytes: &'a [u8; 39]) -> (pdu: Result<Self, ParseError>)
        ensures
            match spec_parse_address_and_data(Self::spec_pdu_type(), bytes@) {
                Ok(view) => pdu matches Ok(parsed) && parsed@ == view,
                Err(error) => pdu matches Err(found) && found == error,
            },
    {
        Self::parse(bytes.as_slice())
    }
}

impl<'a> AddressAndData<'a> for AdvInd<'a> {
    const PDU_TYPE: u8 = 0b0000;

    open spec fn spec_pdu_type() -> u8 {
        0b0000
    }

    proof fn lemma_pdu_type() {
        assert(Self::PDU_TYPE == 0b0000);
    }

    fn address(&self) -> (address: &Address) {
        &self.adv_address
    }

    fn data(&self) -> (data: &[u8]) {
        self.adv_data
    }

    fn from_address_and_data(address: Address, data: &'a [u8]) -> (pdu: Self) {
        Self { adv_address: address, adv_data: data }
    }
}

impl<'a> From<AdvInd<'a>> for AdvPdu<'a> {
    fn from(pdu: AdvInd<'a>) -> (wrapped: Self) {
        Self::AdvInd(pdu)
    }
}

impl<'a> vstd::std_specs::convert::FromSpecImpl<AdvInd<'a>> for AdvPdu<'a> {
    open spec fn obeys_from_spec() -> bool {
        true
    }

    open spec fn from_spec(pdu: AdvInd<'a>) -> Self {
        AdvPdu::AdvInd(pdu)
    }
}

} // verus!
