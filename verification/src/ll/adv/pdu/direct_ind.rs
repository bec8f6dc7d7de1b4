//! The ADV_DIRECT_IND PDU.

use vstd::prelude::*;
use crate::ll::address::Address;
use crate::ll::adv::pdu::{
    spec_parse_two_address, spec_two_address_frame, AdvPdu, ParseError, TwoAddress,
    TwoAddressView,
};

verus! {

/// ADV_DIRECT_IND: connectable directed advertising.
///
/// Holds the advertiser's address and the address of the device that the
/// PDU is meant for.
#[derive(Debug, Clone, Copy, PartialEq, Eq)]
pub struct AdvDirectInd {
    adv_address: Address,
    target_address: Address,
}

impl View for AdvDirectInd {
    type V = TwoAddressView;

    closed spec fn view(&self) -> TwoAddressView {
        TwoAddressView { first: self.adv_address@, second: self.target_address@ }
    }
}

impl AdvDirectInd {
    /// The PDU with these two addresses.
    pub fn new(adv_address: Address, target_address: Address) -> (pdu: Self)
        ensures
            pdu@ == (TwoAddressView { first: adv_address@, second: target_address@ }),
    {
        Self { adv_address, target_address }
    }

    /// The frame as a buffer of its own.
    pub fn transmission_bytes(&self) -> (bytes: [u8; 14])
        ensures
            bytes@ == spec_two_address_frame(Self::spec_pdu_type(), self@),
    {
        let mut bytes = [0u8; 14];
        let first = self.first();
        let second = self.second();
        self.bytes(&mut bytes);
        proof {
            first.lemma_view(*second);
            second.lemma_view(*first);
            assert(bytes@ =~= spec_two_address_frame(Self::spec_pdu_type(), self@));
        }
        bytes
    }

    /// Reads the frame that a buffer of fourteen bytes holds.
    pub fn reception_parse(bytes: &[u8; 14]) -> (pdu: Result<Self, ParseError>)
        ensures
            match spec_parse_two_address(Self::spec_pdu_type(), bytes@) {
                Ok(view) => pdu matches Ok(parsed) && parsed@ == view,
                Err(error) => pdu matches Err(found) && found == error,
            },
    {
        Self::parse(bytes.as_slice())
    }
}

impl TwoAddress for AdvDirectInd {
    const PDU_TYPE: u8 = 0b0001;

    open spec fn spec_pdu_type() -> u8 {
        0b0001
    }

    proof fn lemma_pdu_type() {
        assert(Self::PDU_TYPE == 0b0001);
    }

    fn first(&self) -> (address: &Address) {
        &self.adv_address
    }

    fn second(&self) -> (address: &Address) {
        &self.target_address
    }

    fn from_addresses(first: Address, second: Address) -> (pdu: Self) {
        Self { adv_address: first, target_address: second }
    }
}

impl<'a> From<AdvDirectInd> for AdvPdu<'a> {
    fn from(pdu: AdvDirectInd) -> (wrapped: Self) {
        Self::AdvDirectInd(pdu)
    }
}

impl<'a> vstd::std_specs::convert::FromSpecImpl<AdvDirectInd> for AdvPdu<'a> {
    open spec fn obeys_from_spec() -> bool {
        true
    }

    open spec fn from_spec(pdu: AdvDirectInd) -> Self {
        AdvPdu::AdvDirectInd(pdu)
    }
}

} // verus!
