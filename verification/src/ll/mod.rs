//! Link layer.
//!
//! The link layer starts in standby. From there it goes over to advertising,
//! and stays there: to stop and start again, a new link layer is made.
//!
//! While it advertises, the link layer decides and its user acts: the link
//! layer says what is to be done next, to wait, to transmit or to listen,
//! and hears from its user how that ended.

pub mod address;
pub mod adv;
pub mod timer;

pub use crate::ll::address::{Address, AddressType, AddressView};
pub use crate::ll::adv::header::Header;
pub use crate::ll::adv::pdu::direct_ind::AdvDirectInd;
pub use crate::ll::adv::pdu::ind::AdvInd;
pub use crate::ll::adv::pdu::nonconn_ind::AdvNonconnInd;
pub use crate::ll::adv::pdu::scan_ind::AdvScanInd;
pub use crate::ll::adv::pdu::scan_req::ScanReq;
pub use crate::ll::adv::pdu::scan_rsp::ScanRsp;
pub use crate::ll::adv::pdu::{parse, AddressAndData, AdvPdu, ParseError, TwoAddress};
pub use crate::ll::timer::{AdvertisingTimer, IntervalError};

use vstd::prelude::*;
use crate::buffer::spec_write_at;
use crate::ll::adv::pdu::{spec_address_and_data_frame, AddressAndDataView, MAX_DATA_LENGTH};
use crate::ll::timer::{seeded_rng, spec_check_interval, TimerView, MAX_ADV_DELAY};
use crate::phy::channel::{AdvertisingChannel, Channel};
use crate::phy::radio::{HeaderSize, Mode, Radio, RadioSettings, CRC_POLY};
use crate::phy::{ADV_ADDRESS, ADV_CRC_INIT};

verus! {

/// Inter Frame Space, in microseconds: the time between two consecutive
/// packets on the same channel index, from the end of the last bit of the
/// one to the start of the first bit of the other.
pub const T_IFS: u64 = 150;

/// Minimum AUX Frame Space, in microseconds: the least time between a packet
/// that holds an AuxPtr and the auxiliary packet that it points to.
pub const T_MAFS: u64 = 300;

/// Minimum Subevent Space, in microseconds: the least time between the end
/// of the last packet of a subevent and the start of the first packet of the
/// next.
pub const T_MSS: u64 = 150;

/// Active clock accuracy, in microseconds: less than or equal to 50 ppm.
pub const T_ACA: u64 = 2;

/// Sleep clock accuracy, in microseconds: less than or equal to 500 ppm.
pub const T_SCA: u64 = 20;

/// A reasonable distance between two devices, in meters.
pub const PROPAGATION_DISTANCE: u64 = 10;

/// Range delay, in nanoseconds: the time that a signal takes there and back
/// between two devices that are some meters apart.
pub const RANGE_DELAY: u64 = 2 * PROPAGATION_DISTANCE * 4;

/// The seed of the generator of the advertising delays.
pub const ADV_DELAY_SEED: u64 = 42;

/// Whether the advertiser listens for scan requests between its events.
#[derive(Debug, Clone, Copy, PartialEq, Eq, Structural)]
pub enum AdvertisingMode {
    /// Non-connectable and non-scannable: between two events the advertiser
    /// waits.
    NonScannable,
    /// Non-connectable and scannable: between two events the advertiser
    /// listens.
    Scannable,
}

/// What the advertiser is doing.
#[derive(Debug, Clone, Copy, PartialEq, Eq, Structural)]
pub enum Phase {
    /// It waits for the instant of the next event.
    Waiting,
    /// It transmits the PDU on a channel.
    Transmitting(AdvertisingChannel),
    /// It listens for a scan request until the instant of the next event.
    Listening,
    /// The radio failed to transmit: the advertiser has stopped for good.
    Stopped,
}

/// What the user of the link layer is to do next.
#[derive(Debug, Clone, Copy, PartialEq, Eq, Structural)]
pub enum Action {
    /// Wait until the instant, then report `Event::Elapsed`.
    WaitUntil(u64),
    /// Transmit the PDU on the channel that the radio was set to, this one,
    /// then report `Event::Transmitted` or `Event::TransmitFailed`.
    Transmit(AdvertisingChannel),
    /// Receive until the instant at the latest, then report
    /// `Event::Received` if a packet came, however it was received, and
    /// `Event::Elapsed` if none came in time.
    ListenUntil(u64),
    /// Do nothing more, and hand the error of the radio to whoever asked to
    /// advertise.
    Stop,
}

/// How what the link layer asked for has ended.
#[derive(Debug, Clone, Copy, PartialEq, Eq, Structural)]
pub enum Event {
    /// The instant that was waited for, or listened until, has come.
    Elapsed,
    /// The radio has transmitted the PDU.
    Transmitted,
    /// The radio has failed to transmit the PDU.
    TransmitFailed,
    /// The radio has received a packet, or has failed to receive one.
    Received,
}

/// The state of a link layer that does nothing yet.
pub struct Standby {}

/// The state of a link layer that advertises.
pub struct Advertising<'a> {
    timer: AdvertisingTimer,
    mode: AdvertisingMode,
    phase: Phase,
    // The instant that the advertiser waits for or listens until
    deadline: u64,
    pdu: &'a [u8],
}

/// The link layer, in the state `S`, driving the radio `R`.
// pattern from https://hoverbear.org/blog/rust-state-machine-pattern/
pub struct LinkLayer<'r, R: Radio, S = Standby> {
    radio: &'r mut R,
    state: S,
}

/// What an advertising link layer stands at.
pub struct AdvertisingView {
    pub timer: TimerView,
    pub mode: AdvertisingMode,
    pub phase: Phase,
    pub deadline: u64,
    pub pdu: Seq<u8>,
    pub settings: RadioSettings,
}

/// What a radio is set to for legacy advertising: 1 Mbit/s, 0 dBm, a header
/// of two bytes, the access address and the CRC preset of the advertising
/// physical channel, and the CRC polynomial of BLE. The channel stays as it
/// was.
pub open spec fn spec_legacy_adv(settings: RadioSettings) -> RadioSettings {
    RadioSettings {
        mode: Some(Mode::Ble1mbit),
        tx_power: Some(0i8),
        header_size: Some(HeaderSize::TwoBytes),
        access_address: Some(ADV_ADDRESS),
        crc_init: Some(ADV_CRC_INIT),
        crc_poly: Some(CRC_POLY),
        channel: settings.channel,
    }
}

/// The channel that an advertising event visits after `channel`, where it
/// visits one.
pub open spec fn spec_next_channel(channel: AdvertisingChannel) -> Option<AdvertisingChannel> {
    match channel {
        AdvertisingChannel::Ch37 => Some(AdvertisingChannel::Ch38),
        AdvertisingChannel::Ch38 => Some(AdvertisingChannel::Ch39),
        AdvertisingChannel::Ch39 => None,
    }
}

impl AdvertisingView {
    /// The interval of the timer is one that the link layer allows, and the
    /// instant that the advertiser waits for or listens until is that of
    /// the event before the one that the timer stands at.
    pub open spec fn wf(self) -> bool {
        &&& self.timer.wf()
        &&& self.deadline + self.timer.interval <= self.timer.event < self.deadline
            + self.timer.interval + MAX_ADV_DELAY
    }

    /// Whether the timer goes on by one event when the link layer hears of
    /// `event`: it does when the last transmission of an advertising event
    /// has ended.
    pub open spec fn advances_on(self, event: Event) -> bool {
        self.phase == Phase::Transmitting(AdvertisingChannel::Ch39) && event
            == Event::Transmitted
    }

    /// What the user of the link layer is to do in this state.
    pub open spec fn pending(self) -> Action {
        match self.phase {
            Phase::Waiting => Action::WaitUntil(self.deadline),
            Phase::Transmitting(channel) => Action::Transmit(channel),
            Phase::Listening => Action::ListenUntil(self.deadline),
            Phase::Stopped => Action::Stop,
        }
    }

    /// This state with the radio set to a channel and the PDU going out on
    /// it.
    pub open spec fn transmitting(self, channel: AdvertisingChannel) -> AdvertisingView {
        AdvertisingView {
            phase: Phase::Transmitting(channel),
            settings: RadioSettings {
                channel: Some(Channel::Advertising(channel)),
                ..self.settings
            },
            ..self
        }
    }

    /// Whether the link layer gets from this state to `next` when it hears
    /// of `event`.
    ///
    /// When the instant of an event has come, or listening has ended, the
    /// event begins on channel 37. After each transmission comes the next
    /// channel, 38 and 39; after channel 39 the timer goes on by one event,
    /// and the advertiser waits or listens, as its mode says, until the
    /// instant that the timer stood at. A failed transmission stops the
    /// advertiser. Whatever else is reported changes nothing.
    pub open spec fn steps_to(self, event: Event, next: AdvertisingView) -> bool {
        match (self.phase, event) {
            (Phase::Waiting, Event::Elapsed) => next == self.transmitting(AdvertisingChannel::Ch37),
            (Phase::Listening, Event::Elapsed) => next == self.transmitting(
                AdvertisingChannel::Ch37,
            ),
            (Phase::Listening, Event::Received) => next == self.transmitting(
                AdvertisingChannel::Ch37,
            ),
            (Phase::Transmitting(channel), Event::Transmitted) => match spec_next_channel(
                channel,
            ) {
                Some(following) => next == self.transmitting(following),
                None => {
                    &&& self.timer.advances_to(next.timer)
                    &&& next == (AdvertisingView {
                        timer: next.timer,
                        phase: match self.mode {
                            AdvertisingMode::NonScannable => Phase::Waiting,
                            AdvertisingMode::Scannable => Phase::Listening,
                        },
                        deadline: self.timer.event,
                        ..self
                    })
                },
            },
            (Phase::Transmitting(_), Event::TransmitFailed) => next == (AdvertisingView {
                phase: Phase::Stopped,
                ..self
            }),
            _ => next == self,
        }
    }
}

impl<'r, R: Radio, S> LinkLayer<'r, R, S> {
    /// What the radio is set to.
    pub closed spec fn settings(&self) -> RadioSettings {
        (*self.radio).settings()
    }

    /// The address of the device.
    pub closed spec fn spec_device_address(&self) -> AddressView {
        (*self.radio).spec_device_address()
    }
}

impl<'r, 'a, R: Radio> View for LinkLayer<'r, R, Advertising<'a>> {
    type V = AdvertisingView;

    closed spec fn view(&self) -> AdvertisingView {
        AdvertisingView {
            timer: self.state.timer@,
            mode: self.state.mode,
            phase: self.state.phase,
            deadline: self.state.deadline,
            pdu: self.state.pdu@,
            settings: (*self.radio).settings(),
        }
    }
}

impl<'r, R: Radio> LinkLayer<'r, R, Standby> {
    /// A link layer in standby.
    pub fn new(radio: &'r mut R) -> (link_layer: Self)
        ensures
            link_layer.settings() == old(radio).settings(),
            link_layer.spec_device_address() == old(radio).spec_device_address(),
    {
        LinkLayer { radio, state: Standby {  } }
    }

    /// Sets the radio for legacy advertising.
    pub fn setup_legacy_adv(&mut self)
        ensures
            final(self).settings() == spec_legacy_adv(old(self).settings()),
    {
        self.radio.set_mode(Mode::Ble1mbit);
        self.radio.set_tx_power(0);
        self.radio.set_header_size(HeaderSize::TwoBytes);
        self.radio.set_access_address(ADV_ADDRESS);
        self.radio.set_crc_init(ADV_CRC_INIT);
        self.radio.set_crc_poly(CRC_POLY);
    }

    /// Writes the ADV_NONCONN_IND PDU that advertises `adv_data` from the
    /// address of the device to the start of `buffer`, and returns its
    /// length.
    pub fn adv_nonconn_ind(&self, adv_data: &[u8], buffer: &mut [u8]) -> (len: usize)
        requires
            adv_data@.len() <= MAX_DATA_LENGTH,
            old(buffer)@.len() >= 8 + adv_data@.len(),
        ensures
            len == 8 + adv_data@.len(),
            final(buffer)@ == spec_write_at(
                old(buffer)@,
                0,
                spec_address_and_data_frame(
                    AdvNonconnInd::spec_pdu_type(),
                    AddressAndDataView { address: self.spec_device_address(), data: adv_data@ },
                ),
            ),
    {
        let addr = self.radio.device_address();
        let data_pdu = AdvNonconnInd::new(addr, adv_data);
        data_pdu.bytes(buffer)
    }

    /// Goes over to advertising `pdu` every `interval` microseconds, from
    /// the instant `now` on: sets the radio for legacy advertising and
    /// asks to wait for the first event, which is at `now`.
    pub fn advertise<'a>(
        self,
        mode: AdvertisingMode,
        interval: u64,
        now: u64,
        pdu: &'a [u8],
    ) -> (advertising: LinkLayer<'r, R, Advertising<'a>>)
        requires
            spec_check_interval(interval) is Ok,
            now + interval + MAX_ADV_DELAY <= u64::MAX,
        ensures
            advertising@.wf(),
            advertising@.timer.interval == interval,
            now + interval <= advertising@.timer.event < now + interval + MAX_ADV_DELAY,
            advertising@.mode == mode,
            advertising@.phase == Phase::Waiting,
            advertising@.deadline == now,
            advertising@.pdu == pdu@,
            advertising@.settings == spec_legacy_adv(self.settings()),
    {
        let rng = seeded_rng(ADV_DELAY_SEED);
        let mut timer = AdvertisingTimer::new(rng, interval, now).unwrap();
        let mut link_layer = self;
        link_layer.setup_legacy_adv();
        let deadline = timer.next_event();

        LinkLayer {
            radio: link_layer.radio,
            state: Advertising { timer, mode, phase: Phase::Waiting, deadline, pdu },
        }
    }
}

impl<'r, 'a, R: Radio> LinkLayer<'r, R, Advertising<'a>> {
    /// What is to be done now.
    pub fn pending(&self) -> (action: Action)
        ensures
            action == self@.pending(),
    {
        match self.state.phase {
            Phase::Waiting => Action::WaitUntil(self.state.deadline),
            Phase::Transmitting(channel) => Action::Transmit(channel),
            Phase::Listening => Action::ListenUntil(self.state.deadline),
            Phase::Stopped => Action::Stop,
        }
    }

    /// The PDU that is advertised.
    pub fn pdu(&self) -> (pdu: &'a [u8])
        ensures
            pdu@ == self@.pdu,
    {
        self.state.pdu
    }

    /// The radio, for what `pending` asks to be done with it.
    pub fn radio(&mut self) -> (radio: &mut R)
        ensures
            radio.settings() == old(self)@.settings,
            final(self)@ == (AdvertisingView { settings: final(radio).settings(), ..old(self)@ }),
    {
        self.radio
    }

    /// Whether `step` can hear of `event`: it cannot where the timer would
    /// have to go on by one event and would leave the range of the clock.
    pub fn can_step(&self, event: Event) -> (can: bool)
        ensures
            can == (self@.advances_on(event) ==> self@.timer.can_advance()),
    {
        match (self.state.phase, event) {
            (Phase::Transmitting(AdvertisingChannel::Ch39), Event::Transmitted) => {
                self.state.timer.can_advance()
            },
            _ => true,
        }
    }

    /// Sets the radio to a channel and goes over to transmitting on it.
    fn transmit_on(&mut self, channel: AdvertisingChannel)
        ensures
            final(self)@ == old(self)@.transmitting(channel),
    {
        self.radio.set_channel(Channel::from(channel));
        self.state.phase = Phase::Transmitting(channel);
    }

    /// Hears how what was to be done has ended, and says what is to be done
    /// next.
    pub fn step(&mut self, event: Event) -> (action: Action)
        requires
            old(self)@.wf(),
            old(self)@.advances_on(event) ==> old(self)@.timer.can_advance(),
        ensures
            old(self)@.steps_to(event, final(self)@),
            final(self)@.wf(),
            action == final(self)@.pending(),
    {
        match (self.state.phase, event) {
            (Phase::Waiting, Event::Elapsed) => {
                self.transmit_on(AdvertisingChannel::Ch37);
            },
            (Phase::Listening, Event::Elapsed) => {
                self.transmit_on(AdvertisingChannel::Ch37);
            },
            (Phase::Listening, Event::Received) => {
                self.transmit_on(AdvertisingChannel::Ch37);
            },
            (Phase::Transmitting(AdvertisingChannel::Ch37), Event::Transmitted) => {
                self.transmit_on(AdvertisingChannel::Ch38);
            },
            (Phase::Transmitting(AdvertisingChannel::Ch38), Event::Transmitted) => {
                self.transmit_on(AdvertisingChannel::Ch39);
            },
            (Phase::Transmitting(AdvertisingChannel::Ch39), Event::Transmitted) => {
                self.state.deadline = self.state.timer.next_event();
                self.state.phase = match self.state.mode {
                    AdvertisingMode::NonScannable => Phase::Waiting,
                    AdvertisingMode::Scannable => Phase::Listening,
                };
            },
            (Phase::Transmitting(_), Event::TransmitFailed) => {
                self.state.phase = Phase::Stopped;
            },
            _ => {},
        }
        self.pending()
    }
}

/// Whatever the link layer hears of, the instant that it waits for or
/// listens until never moves back: it stays, or it moves on by the interval
/// at least and by less than the interval and 10 ms, to the instant that
/// the timer stood at.
pub proof fn lemma_deadline_monotonic(before: AdvertisingView, event: Event, after: AdvertisingView)
    requires
        before.wf(),
        before.steps_to(event, after),
    ensures
        after.timer.interval == before.timer.interval,
        after.pdu == before.pdu,
        after.mode == before.mode,
        if before.advances_on(event) {
            &&& after.deadline == before.timer.event
            &&& before.deadline + before.timer.interval <= after.deadline < before.deadline
                + before.timer.interval + MAX_ADV_DELAY
            &&& after.pending() == match before.mode {
                AdvertisingMode::NonScannable => Action::WaitUntil(after.deadline),
                AdvertisingMode::Scannable => Action::ListenUntil(after.deadline),
            }
        } else {
            after.deadline == before.deadline && after.timer == before.timer
        },
{
}

/// An advertising event visits the channels 37, 38 and 39, in this order and
/// each once: from waiting or listening, the link layer asks for these three
/// transmissions, one after the other has ended, and only then to wait or
/// to listen again.
pub proof fn lemma_event_visits_channels(
    start: AdvertisingView,
    begun: Event,
    first: AdvertisingView,
    second: AdvertisingView,
    third: AdvertisingView,
    over: AdvertisingView,
)
    requires
        start.phase == Phase::Waiting && begun == Event::Elapsed || start.phase
            == Phase::Listening && (begun == Event::Elapsed || begun == Event::Received),
        start.steps_to(begun, first),
        first.steps_to(Event::Transmitted, second),
        second.steps_to(Event::Transmitted, third),
        third.steps_to(Event::Transmitted, over),
    ensures
        first.pending() == Action::Transmit(AdvertisingChannel::Ch37),
        first.settings.channel == Some(Channel::Advertising(AdvertisingChannel::Ch37)),
        second.pending() == Action::Transmit(AdvertisingChannel::Ch38),
        second.settings.channel == Some(Channel::Advertising(AdvertisingChannel::Ch38)),
        third.pending() == Action::Transmit(AdvertisingChannel::Ch39),
        third.settings.channel == Some(Channel::Advertising(AdvertisingChannel::Ch39)),
        over.phase == Phase::Waiting || over.phase == Phase::Listening,
        over.deadline == start.timer.event,
{
}

} // verus!
