//! The SCAN_REQ PDU.

use vstd::prelude::*;
use crate::ll::address::Address;
use crate::ll::adv::pdu::{
    spec_parse_two_address, spec_two_address_frame, AdvPdu, ParseError, TwoAddress,
    TwoAddressView,
};

verus! {

/// SCAN_REQ: a scanner asks an advertiser for its scan response.
///
/// Holds the scanner's address and the address of the advertiser that the
/// PDU is meant for.
#[derive(Debug, Clone, Copy, PartialEq, Eq)]
pub struct ScanReq {
    scan_address: Address,
    adv_address: Address,
}

impl View for ScanReq {
    type V = TwoAddressView;

    closed spec fn view(&self) -> TwoAddressView {
        TwoAddressView { first: self.scan_address@, second: self.adv_address@ }
    }
}

impl ScanReq {
    /// The PDU with these two addresses.
    pub fn new(scan_address: Address, adv_address: Address) -> (pdu: Self)
        ensures
            pdu@ == (TwoAddressView { first: scan_address@, second: adv_address@ }),
    {
        Self { scan_address, adv_address }
    }

    /// The frame as a buffer of its own.
    pub fn transmission_bytes(&self) -> (bytes: [u8; 14])
        ensures
            bytes@ == spec_two_address_frame(Self::spec_pdu_type(), self@),
    {
        let mut bytes = [0u8; 14];
        let first = self.first();
        let second = self.second();
        self.bytes(&mut bytes);
        proof {
            first.lemma_view(*second);
            second.lemma_view(*first);
            assert(bytes@ =~= spec_two_address_frame(Self::spec_pdu_type(), self@));
        }
        bytes
    }

    /// Reads the frame that a buffer of fourteen bytes holds.
    pub fn reception_parse(bytes: &[u8; 14]) -> (pdu: Result<Self, ParseError>)
        ensures
            match spec_parse_two_address(Self::spec_pdu_type(), bytes@) {
                Ok(view) => pdu matches Ok(parsed) && parsed@ == view,
                Err(error) => pdu matches Err(found) && found == error,
            },
    {
        Self::parse(bytes.as_slice())
    }
}

impl TwoAddress for ScanReq {
    const PDU_TYPE: u8 = 0b0011;

    open spec fn spec_pdu_type() -> u8 {
        0b0011
    }

    proof fn lemma_pdu_type() {
        assert(Self::PDU_TYPE == 0b0011);
    }

    fn first(&self) -> (address: &Address) {
        &self.scan_address
    }

    fn second(&self) -> (address: &Address) {
        &self.adv_address
    }

    fn from_addresses(first: Address, second: Address) -> (pdu: Self) {
        Self { scan_address: first, adv_address: second }
    }
}

impl<'a> From<ScanReq> for AdvPdu<'a> {
    fn from(pdu: ScanReq) -> (wrapped: Self) {
        Self::ScanReq(pdu)
    }
}

impl<'a> vstd::std_specs::convert::FromSpecImpl<ScanReq> for AdvPdu<'a> {
    open spec fn obeys_from_spec() -> bool {
        true
    }

    open spec fn from_spec(pdu: ScanReq) -> Self {
        AdvPdu::ScanReq(pdu)
    }
}

} // verus!
