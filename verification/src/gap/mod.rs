//! Generic access profile.

pub mod adv_struct;

pub use crate::gap::adv_struct::flags::Flags;
pub use crate::gap::adv_struct::local_name::{
    CompleteLocalName, LocalName, LocalNameType, ShortenedLocalName,
};
pub use crate::gap::adv_struct::uuid::{
    CompleteListOf128BitServiceUuids, CompleteListOf16BitServiceUuids,
    CompleteListOf32BitServiceUuids, IncompleteListOf128BitServiceUuids,
    IncompleteListOf16BitServiceUuids, IncompleteListOf32BitServiceUuids, List, Uuid, Uuid128,
    Uuid16, Uuid32,
};
pub use crate::gap::adv_struct::{AdvData, AdvDataView, DecodeError};

use vstd::prelude::*;
use crate::buffer::spec_write_at;
use crate::ll::address::Address;
use crate::ll::adv::pdu::nonconn_ind::AdvNonconnInd;
use crate::ll::adv::pdu::{
    spec_address_and_data_frame, AddressAndData, AddressAndDataView, MAX_DATA_LENGTH,
};
use crate::ll::timer::{check_interval, spec_check_interval, IntervalError, MAX_ADV_DELAY};
use crate::ll::{
    spec_legacy_adv, Advertising, AdvertisingMode, AdvertisingView, LinkLayer, Phase,
};
use crate::phy::radio::{Radio, MAX_PDU_LENGTH};

verus! {

/// Broadcast profile: advertises legacy packets that nobody can connect to
/// or scan, on the three primary advertising channels.
pub struct Broadcaster<'r, 'a, R: Radio> {
    ll: LinkLayer<'r, R, Advertising<'a>>,
}

impl<'r, 'a, R: Radio> View for Broadcaster<'r, 'a, R> {
    type V = AdvertisingView;

    closed spec fn view(&self) -> AdvertisingView {
        self.ll@
    }
}

/// What a buffer holds once the ADV_NONCONN_IND PDU that advertises `data`
/// from `address` is written to its start.
pub open spec fn spec_broadcast_pdu(
    buffer: Seq<u8>,
    address: Address,
    data: AdvDataView,
) -> Seq<u8> {
    spec_write_at(
        buffer,
        0,
        spec_address_and_data_frame(
            AdvNonconnInd::spec_pdu_type(),
            AddressAndDataView { address: address@, data: data.spec_bytes() },
        ),
    )
}

impl<'r, 'a, R: Radio> Broadcaster<'r, 'a, R> {
    /// Create a new broadcaster: writes the PDU that advertises `data` from
    /// `address` into `buffer`, and has a link layer advertise it every
    /// `interval` microseconds from the instant `now` on. An interval out of
    /// range is refused, and the radio and the buffer then stay as they are.
    pub fn new(
        radio: &'r mut R,
        interval: u64,
        now: u64,
        address: Address,
        data: AdvData<'_>,
        buffer: &'a mut [u8; MAX_PDU_LENGTH],
    ) -> (broadcaster: Result<Broadcaster<'r, 'a, R>, IntervalError>)
        requires
            data@.encodable(),
            data@.spec_bytes().len() <= MAX_DATA_LENGTH,
            now + interval + MAX_ADV_DELAY <= u64::MAX,
        ensures
            match spec_check_interval(interval) {
                Ok(_) => broadcaster matches Ok(made) && {
                    &&& made@.wf()
                    &&& made@.timer.interval == interval
                    &&& now + interval <= made@.timer.event < now + interval + MAX_ADV_DELAY
                    &&& made@.mode == AdvertisingMode::NonScannable
                    &&& made@.phase == Phase::Waiting
                    &&& made@.deadline == now
                    &&& made@.pdu == spec_broadcast_pdu(old(buffer)@, address, data@)
                    &&& made@.settings == spec_legacy_adv(old(radio).settings())
                },
                Err(error) => {
                    &&& broadcaster matches Err(found) && found == error
                    &&& final(radio).settings() == old(radio).settings()
                    &&& final(buffer)@ == old(buffer)@
                },
            },
    {
        match check_interval(interval) {
            Ok(_) => {},
            Err(error) => {
                return Err(error);
            },
        }
        let mut body_buffer = [0u8; MAX_PDU_LENGTH];
        let len = data.bytes(&mut body_buffer);
        let body = &body_buffer[0..len];
        assert(body@ =~= data@.spec_bytes());

        let pdu = AdvNonconnInd::new(address, body);

        pdu.bytes(buffer);
        let frame: &'a [u8] = buffer;

        let ll = LinkLayer::new(radio);

        let ll = ll.advertise(AdvertisingMode::NonScannable, interval, now, frame);

        Ok(Broadcaster { ll })
    }

    /// The link layer that advertises, to drive it through its events.
    pub fn link_layer(&mut self) -> (ll: &mut LinkLayer<'r, R, Advertising<'a>>)
        ensures
            ll@ == old(self)@,
            final(self)@ == final(ll)@,
    {
        &mut self.ll
    }
}

} // verus!
