//! RF channels.
//!
//! The 2.4 GHz band is divided into 40 RF channels, 2 MHz apart. Three of
//! them are the primary advertising channels, the other 37 carry data. Each
//! channel has two indices: the channel index, from which the whitening
//! sequence is derived, and the physical index, which gives its place in the
//! band and so its centre frequency.

use vstd::prelude::*;

verus! {

/// Centre frequency, in MHz, of the RF channel at a physical index.
pub open spec fn spec_central_frequency(physical_index: u8) -> int {
    2402 + 2 * physical_index
}

/// Preset of the whitening shift register for a channel index: position 0 is
/// one, positions 1 to 6 hold the channel index.
pub open spec fn spec_whitening_init(channel_index: u8) -> u8 {
    0b0100_0000u8 | channel_index
}

/// What every RF channel offers: its two indices, its frequency and its
/// whitening preset.
pub trait ChannelTrait {
    /// The channel index, 0 to 39.
    spec fn spec_channel_index(&self) -> u8;

    /// The place of the channel in the band, 0 to 39.
    spec fn spec_physical_index(&self) -> u8;

    /// The channel index, from which the whitening is derived.
    fn channel_index(&self) -> (index: u8)
        ensures
            index == self.spec_channel_index(),
    ;

    /// The place of the channel in the band, from which its frequency is
    /// derived.
    fn physical_index(&self) -> (index: u8)
        ensures
            index == self.spec_physical_index(),
    ;

    /// RF channel centre frequency in MHz.
    fn central_frequency(&self) -> (mhz: u16)
        ensures
            mhz == spec_central_frequency(self.spec_physical_index()),
    {
        let index: u16 = self.physical_index() as u16;
        2402u16 + index * 2u16
    }

    /// Initial value of the whitening shift register on this channel.
    fn whitening_init(&self) -> (seed: u8)
        ensures
            seed == spec_whitening_init(self.spec_channel_index()),
            seed & 0b0100_0000 == 0b0100_0000,
    {
        let index: u8 = self.channel_index();
        let seed: u8 = 0b0100_0000u8 | index;
        assert((0b0100_0000u8 | index) & 0b0100_0000 == 0b0100_0000) by (bit_vector);
        seed
    }
}

/// A value that is the channel index of no channel of the kind asked for.
#[derive(Debug, Clone, Copy, PartialEq, Eq, Structural)]
pub struct UnknownChannel;

/// One of the 40 RF channels.
#[derive(Clone, Copy, Debug, PartialEq, Eq, Structural)]
pub enum Channel {
    Advertising(AdvertisingChannel),
    Data(DataChannel),
}

/// The three RF channels used for primary advertising.
#[derive(Clone, Copy, Debug, PartialEq, Eq, Structural)]
pub enum AdvertisingChannel {
    /// Channel 37.
    Ch37,
    /// Channel 38.
    Ch38,
    /// Channel 39.
    Ch39,
}

/// The primary advertising channels, by their full name.
pub type PrimaryAdvertisingChannel = AdvertisingChannel;

/// The 37 general purpose RF channels.
#[derive(Clone, Copy, Debug, PartialEq, Eq, Structural)]
pub enum DataChannel {
    /// Data channel 0.
    Ch0,
    /// Data channel 1.
    Ch1,
    /// Data channel 2.
    Ch2,
    /// Data channel 3.
    Ch3,
    /// Data channel 4.
    Ch4,
    /// Data channel 5.
    Ch5,
    /// Data channel 6.
    Ch6,
    /// Data channel 7.
    Ch7,
    /// Data channel 8.
    Ch8,
    /// Data channel 9.
    Ch9,
    /// Data channel 10.
    Ch10,
    /// Data channel 11.
    Ch11,
    /// Data channel 12.
    Ch12,
    /// Data channel 13.
    Ch13,
    /// Data channel 14.
    Ch14,
    /// Data channel 15.
    Ch15,
    /// Data channel 16.
    Ch16,
    /// Data channel 17.
    Ch17,
    /// Data channel 18.
    Ch18,
    /// Data channel 19.
    Ch19,
    /// Data channel 20.
    Ch20,
    /// Data channel 21.
    Ch21,
    /// Data channel 22.
    Ch22,
    /// Data channel 23.
    Ch23,
    /// Data channel 24.
    Ch24,
    /// Data channel 25.
    Ch25,
    /// Data channel 26.
    Ch26,
    /// Data channel 27.
    Ch27,
    /// Data channel 28.
    Ch28,
    /// Data channel 29.
    Ch29,
    /// Data channel 30.
    Ch30,
    /// Data channel 31.
    Ch31,
    /// Data channel 32.
    Ch32,
    /// Data channel 33.
    Ch33,
    /// Data channel 34.
    Ch34,
    /// Data channel 35.
    Ch35,
    /// Data channel 36.
    Ch36,
}

impl AdvertisingChannel {
    /// The primary advertising channels in the order in which an advertising
    /// event visits them.
    pub fn channels() -> (all: [AdvertisingChannel; 3])
        ensures
            all@ == seq![AdvertisingChannel::Ch37, AdvertisingChannel::Ch38, AdvertisingChannel::Ch39],
    {
        let all = [AdvertisingChannel::Ch37, AdvertisingChannel::Ch38, AdvertisingChannel::Ch39];
        assert(all@ =~= seq![
            AdvertisingChannel::Ch37,
            AdvertisingChannel::Ch38,
            AdvertisingChannel::Ch39,
        ]);
        all
    }

    /// The advertising channel with a given channel index, where there is one.
    pub open spec fn with_channel_index(index: u8) -> Option<AdvertisingChannel> {
        if index == 37 {
            Some(AdvertisingChannel::Ch37)
        } else if index == 38 {
            Some(AdvertisingChannel::Ch38)
        } else if index == 39 {
            Some(AdvertisingChannel::Ch39)
        } else {
            None
        }
    }
}

impl ChannelTrait for AdvertisingChannel {
    open spec fn spec_channel_index(&self) -> u8 {
        match self {
            AdvertisingChannel::Ch37 => 37,
            AdvertisingChannel::Ch38 => 38,
            AdvertisingChannel::Ch39 => 39,
        }
    }

    open spec fn spec_physical_index(&self) -> u8 {
        match self {
            AdvertisingChannel::Ch37 => 0,
            AdvertisingChannel::Ch38 => 12,
            AdvertisingChannel::Ch39 => 39,
        }
    }

    fn channel_index(&self) -> (index: u8) {
        match self {
            AdvertisingChannel::Ch37 => 37,
            AdvertisingChannel::Ch38 => 38,
            AdvertisingChannel::Ch39 => 39,
        }
    }

    fn physical_index(&self) -> (index: u8) {
        match self {
            AdvertisingChannel::Ch37 => 0,
            AdvertisingChannel::Ch38 => 12,
            AdvertisingChannel::Ch39 => 39,
        }
    }
}

impl DataChannel {
    /// The data channel with a given channel index, where there is one.
    pub open spec fn with_channel_index(index: u8) -> Option<DataChannel> {
        if exists|channel: DataChannel| channel.spec_channel_index() == index {
            Some(choose|channel: DataChannel| channel.spec_channel_index() == index)
        } else {
            None
        }
    }
}

impl ChannelTrait for DataChannel {
    open spec fn spec_channel_index(&self) -> u8 {
        match self {
            DataChannel::Ch0 => 0,
            DataChannel::Ch1 => 1,
            DataChannel::Ch2 => 2,
            DataChannel::Ch3 => 3,
            DataChannel::Ch4 => 4,
            DataChannel::Ch5 => 5,
            DataChannel::Ch6 => 6,
            DataChannel::Ch7 => 7,
            DataChannel::Ch8 => 8,
            DataChannel::Ch9 => 9,
            DataChannel::Ch10 => 10,
            DataChannel::Ch11 => 11,
            DataChannel::Ch12 => 12,
            DataChannel::Ch13 => 13,
            DataChannel::Ch14 => 14,
            DataChannel::Ch15 => 15,
            DataChannel::Ch16 => 16,
            DataChannel::Ch17 => 17,
            DataChannel::Ch18 => 18,
            DataChannel::Ch19 => 19,
            DataChannel::Ch20 => 20,
            DataChannel::Ch21 => 21,
            DataChannel::Ch22 => 22,
            DataChannel::Ch23 => 23,
            DataChannel::Ch24 => 24,
            DataChannel::Ch25 => 25,
            DataChannel::Ch26 => 26,
            DataChannel::Ch27 => 27,
            DataChannel::Ch28 => 28,
            DataChannel::Ch29 => 29,
            DataChannel::Ch30 => 30,
            DataChannel::Ch31 => 31,
            DataChannel::Ch32 => 32,
            DataChannel::Ch33 => 33,
            DataChannel::Ch34 => 34,
            DataChannel::Ch35 => 35,
            DataChannel::Ch36 => 36,
        }
    }

    /// Data channels fill the band around the advertising channels at the
    /// physical indices 0, 12 and 39.
    open spec fn spec_physical_index(&self) -> u8 {
        if self.spec_channel_index() <= 10 {
            (self.spec_channel_index() + 1) as u8
        } else {
            (self.spec_channel_index() + 2) as u8
        }
    }

    fn channel_index(&self) -> (index: u8) {
        match self {
            DataChannel::Ch0 => 0,
            DataChannel::Ch1 => 1,
            DataChannel::Ch2 => 2,
            DataChannel::Ch3 => 3,
            DataChannel::Ch4 => 4,
            DataChannel::Ch5 => 5,
            DataChannel::Ch6 => 6,
            DataChannel::Ch7 => 7,
            DataChannel::Ch8 => 8,
            DataChannel::Ch9 => 9,
            DataChannel::Ch10 => 10,
            DataChannel::Ch11 => 11,
            DataChannel::Ch12 => 12,
            DataChannel::Ch13 => 13,
            DataChannel::Ch14 => 14,
            DataChannel::Ch15 => 15,
            DataChannel::Ch16 => 16,
            DataChannel::Ch17 => 17,
            DataChannel::Ch18 => 18,
            DataChannel::Ch19 => 19,
            DataChannel::Ch20 => 20,
            DataChannel::Ch21 => 21,
            DataChannel::Ch22 => 22,
            DataChannel::Ch23 => 23,
            DataChannel::Ch24 => 24,
            DataChannel::Ch25 => 25,
            DataChannel::Ch26 => 26,
            DataChannel::Ch27 => 27,
            DataChannel::Ch28 => 28,
            DataChannel::Ch29 => 29,
            DataChannel::Ch30 => 30,
            DataChannel::Ch31 => 31,
            DataChannel::Ch32 => 32,
            DataChannel::Ch33 => 33,
            DataChannel::Ch34 => 34,
            DataChannel::Ch35 => 35,
            DataChannel::Ch36 => 36,
        }
    }

    fn physical_index(&self) -> (index: u8) {
        match self {
            // physical index 0 is advertising channel 37
            DataChannel::Ch0 => 1,
            DataChannel::Ch1 => 2,
            DataChannel::Ch2 => 3,
            DataChannel::Ch3 => 4,
            DataChannel::Ch4 => 5,
            DataChannel::Ch5 => 6,
            DataChannel::Ch6 => 7,
            DataChannel::Ch7 => 8,
            DataChannel::Ch8 => 9,
            DataChannel::Ch9 => 10,
            DataChannel::Ch10 => 11,
            DataChannel::Ch11 => 13,
            DataChannel::Ch12 => 14,
            DataChannel::Ch13 => 15,
            DataChannel::Ch14 => 16,
            DataChannel::Ch15 => 17,
            DataChannel::Ch16 => 18,
            DataChannel::Ch17 => 19,
            DataChannel::Ch18 => 20,
            DataChannel::Ch19 => 21,
            DataChannel::Ch20 => 22,
            DataChannel::Ch21 => 23,
            DataChannel::Ch22 => 24,
            DataChannel::Ch23 => 25,
            DataChannel::Ch24 => 26,
            DataChannel::Ch25 => 27,
            DataChannel::Ch26 => 28,
            DataChannel::Ch27 => 29,
            DataChannel::Ch28 => 30,
            DataChannel::Ch29 => 31,
            DataChannel::Ch30 => 32,
            DataChannel::Ch31 => 33,
            DataChannel::Ch32 => 34,
            DataChannel::Ch33 => 35,
            DataChannel::Ch34 => 36,
            DataChannel::Ch35 => 37,
            DataChannel::Ch36 => 38,
            // physical index 39 is advertising channel 39
        }
    }
}

impl ChannelTrait for Channel {
    open spec fn spec_channel_index(&self) -> u8 {
        match self {
            Channel::Advertising(channel) => channel.spec_channel_index(),
            Channel::Data(channel) => channel.spec_channel_index(),
        }
    }

    open spec fn spec_physical_index(&self) -> u8 {
        match self {
            Channel::Advertising(channel) => channel.spec_physical_index(),
            Channel::Data(channel) => channel.spec_physical_index(),
        }
    }

    fn channel_index(&self) -> (index: u8) {
        match self {
            Channel::Advertising(channel) => channel.channel_index(),
            Channel::Data(channel) => channel.channel_index(),
        }
    }

    fn physical_index(&self) -> (index: u8) {
        match self {
            Channel::Advertising(channel) => channel.physical_index(),
            Channel::Data(channel) => channel.physical_index(),
        }
    }
}

impl TryFrom<u8> for AdvertisingChannel {
    type Error = UnknownChannel;

    /// From the channel index.
    fn try_from(value: u8) -> (channel: Result<Self, UnknownChannel>) {
        match value {
            37 => Ok(AdvertisingChannel::Ch37),
            38 => Ok(AdvertisingChannel::Ch38),
            39 => Ok(AdvertisingChannel::Ch39),
            _ => Err(UnknownChannel),
        }
    }
}

impl vstd::std_specs::convert::TryFromSpecImpl<u8> for AdvertisingChannel {
    open spec fn obeys_try_from_spec() -> bool {
        true
    }

    open spec fn try_from_spec(value: u8) -> Result<Self, UnknownChannel> {
        match AdvertisingChannel::with_channel_index(value) {
            Some(channel) => Ok(channel),
            None => Err(UnknownChannel),
        }
    }
}

impl TryFrom<u8> for DataChannel {
    type Error = UnknownChannel;

    /// From the channel index.
    fn try_from(value: u8) -> (channel: Result<Self, UnknownChannel>) {
        proof {
            lemma_data_channel_with_index(value);
        }
        match value {
            0 => Ok(DataChannel::Ch0),
            1 => Ok(DataChannel::Ch1),
            2 => Ok(DataChannel::Ch2),
            3 => Ok(DataChannel::Ch3),
            4 => Ok(DataChannel::Ch4),
            5 => Ok(DataChannel::Ch5),
            6 => Ok(DataChannel::Ch6),
            7 => Ok(DataChannel::Ch7),
            8 => Ok(DataChannel::Ch8),
            9 => Ok(DataChannel::Ch9),
            10 => Ok(DataChannel::Ch10),
            11 => Ok(DataChannel::Ch11),
            12 => Ok(DataChannel::Ch12),
            13 => Ok(DataChannel::Ch13),
            14 => Ok(DataChannel::Ch14),
            15 => Ok(DataChannel::Ch15),
            16 => Ok(DataChannel::Ch16),
            17 => Ok(DataChannel::Ch17),
            18 => Ok(DataChannel::Ch18),
            19 => Ok(DataChannel::Ch19),
            20 => Ok(DataChannel::Ch20),
            21 => Ok(DataChannel::Ch21),
            22 => Ok(DataChannel::Ch22),
            23 => Ok(DataChannel::Ch23),
            24 => Ok(DataChannel::Ch24),
            25 => Ok(DataChannel::Ch25),
            26 => Ok(DataChannel::Ch26),
            27 => Ok(DataChannel::Ch27),
            28 => Ok(DataChannel::Ch28),
            29 => Ok(DataChannel::Ch29),
            30 => Ok(DataChannel::Ch30),
            31 => Ok(DataChannel::Ch31),
            32 => Ok(DataChannel::Ch32),
            33 => Ok(DataChannel::Ch33),
            34 => Ok(DataChannel::Ch34),
            35 => Ok(DataChannel::Ch35),
            36 => Ok(DataChannel::Ch36),
            _ => Err(UnknownChannel),
        }
    }
}

impl vstd::std_specs::convert::TryFromSpecImpl<u8> for DataChannel {
    open spec fn obeys_try_from_spec() -> bool {
        true
    }

    open spec fn try_from_spec(value: u8) -> Result<Self, UnknownChannel> {
        match DataChannel::with_channel_index(value) {
            Some(channel) => Ok(channel),
            None => Err(UnknownChannel),
        }
    }
}

impl TryFrom<u8> for Channel {
    type Error = UnknownChannel;

    /// From the channel index: 37 to 39 give an advertising channel, 0 to 36
    /// a data channel.
    fn try_from(value: u8) -> (channel: Result<Self, UnknownChannel>) {
        if let Ok(channel) = AdvertisingChannel::try_from(value) {
            Ok(Channel::Advertising(channel))
        } else if let Ok(channel) = DataChannel::try_from(value) {
            Ok(Channel::Data(channel))
        } else {
            Err(UnknownChannel)
        }
    }
}

impl vstd::std_specs::convert::TryFromSpecImpl<u8> for Channel {
    open spec fn obeys_try_from_spec() -> bool {
        true
    }

    open spec fn try_from_spec(value: u8) -> Result<Self, UnknownChannel> {
        match AdvertisingChannel::with_channel_index(value) {
            Some(channel) => Ok(Channel::Advertising(channel)),
            None => match DataChannel::with_channel_index(value) {
                Some(channel) => Ok(Channel::Data(channel)),
                None => Err(UnknownChannel),
            },
        }
    }
}

impl From<AdvertisingChannel> for Channel {
    fn from(channel: AdvertisingChannel) -> (wrapped: Self) {
        Channel::Advertising(channel)
    }
}

impl vstd::std_specs::convert::FromSpecImpl<AdvertisingChannel> for Channel {
    open spec fn obeys_from_spec() -> bool {
        true
    }

    open spec fn from_spec(channel: AdvertisingChannel) -> Self {
        Channel::Advertising(channel)
    }
}

impl From<DataChannel> for Channel {
    fn from(channel: DataChannel) -> (wrapped: Self) {
        Channel::Data(channel)
    }
}

impl vstd::std_specs::convert::FromSpecImpl<DataChannel> for Channel {
    open spec fn obeys_from_spec() -> bool {
        true
    }

    open spec fn from_spec(channel: DataChannel) -> Self {
        Channel::Data(channel)
    }
}

/// The data channels are numbered 0 to 36, each number once: an index in
/// that range names exactly one data channel, and no other index names one.
pub proof fn lemma_data_channel_with_index(index: u8)
    ensures
        index <= 36 <==> DataChannel::with_channel_index(index) is Some,
        forall|channel: DataChannel|
            channel.spec_channel_index() == index ==> DataChannel::with_channel_index(index)
                == Some(channel),
{
    if index <= 36 {
        let witness = data_channel_at(index);
        assert(witness.spec_channel_index() == index);
    }
}

/// The data channel numbered `index`, for an index up to 36.
spec fn data_channel_at(index: u8) -> DataChannel {
    if index == 0 {
        DataChannel::Ch0
    } else if index == 1 {
        DataChannel::Ch1
    } else if index == 2 {
        DataChannel::Ch2
    } else if index == 3 {
        DataChannel::Ch3
    } else if index == 4 {
        DataChannel::Ch4
    } else if index == 5 {
        DataChannel::Ch5
    } else if index == 6 {
        DataChannel::Ch6
    } else if index == 7 {
        DataChannel::Ch7
    } else if index == 8 {
        DataChannel::Ch8
    } else if index == 9 {
        DataChannel::Ch9
    } else if index == 10 {
        DataChannel::Ch10
    } else if index == 11 {
        DataChannel::Ch11
    } else if index == 12 {
        DataChannel::Ch12
    } else if index == 13 {
        DataChannel::Ch13
    } else if index == 14 {
        DataChannel::Ch14
    } else if index == 15 {
        DataChannel::Ch15
    } else if index == 16 {
        DataChannel::Ch16
    } else if index == 17 {
        DataChannel::Ch17
    } else if index == 18 {
        DataChannel::Ch18
    } else if index == 19 {
        DataChannel::Ch19
    } else if index == 20 {
        DataChannel::Ch20
    } else if index == 21 {
        DataChannel::Ch21
    } else if index == 22 {
        DataChannel::Ch22
    } else if index == 23 {
        DataChannel::Ch23
    } else if index == 24 {
        DataChannel::Ch24
    } else if index == 25 {
        DataChannel::Ch25
    } else if index == 26 {
        DataChannel::Ch26
    } else if index == 27 {
        DataChannel::Ch27
    } else if index == 28 {
        DataChannel::Ch28
    } else if index == 29 {
        DataChannel::Ch29
    } else if index == 30 {
        DataChannel::Ch30
    } else if index == 31 {
        DataChannel::Ch31
    } else if index == 32 {
        DataChannel::Ch32
    } else if index == 33 {
        DataChannel::Ch33
    } else if index == 34 {
        DataChannel::Ch34
    } else if index == 35 {
        DataChannel::Ch35
    } else {
        DataChannel::Ch36
    }
}

/// Two channels with the same channel index are the same channel.
pub proof fn lemma_channel_index_injective(a: Channel, b: Channel)
    requires
        a.spec_channel_index() == b.spec_channel_index(),
    ensures
        a == b,
{
}

/// Two channels with the same physical index are the same channel, every
/// physical index lies in 0..=39, and each of these is taken by a channel.
pub proof fn lemma_physical_index_bijective(a: Channel, b: Channel, index: u8)
    ensures
        a.spec_physical_index() <= 39,
        a.spec_physical_index() == b.spec_physical_index() ==> a == b,
        index <= 39 ==> exists|channel: Channel| channel.spec_physical_index() == index,
{
    if index <= 39 {
        let channel = channel_at_physical_index(index);
        assert(channel.spec_physical_index() == index);
    }
}

/// The channel that sits at a physical index.
spec fn channel_at_physical_index(index: u8) -> Channel {
    if index == 0 {
        Channel::Advertising(AdvertisingChannel::Ch37)
    } else if index == 12 {
        Channel::Advertising(AdvertisingChannel::Ch38)
    } else if index == 39 {
        Channel::Advertising(AdvertisingChannel::Ch39)
    } else if index <= 11 {
        Channel::Data(data_channel_at((index - 1) as u8))
    } else {
        Channel::Data(data_channel_at((index - 2) as u8))
    }
}

/// The centre frequency grows strictly with the physical index, so no two
/// channels share a frequency; the channels lie 2 MHz apart from 2402 MHz
/// to 2480 MHz.
pub proof fn lemma_central_frequency_increasing(a: Channel, b: Channel)
    ensures
        a.spec_physical_index() < b.spec_physical_index() ==> spec_central_frequency(
            a.spec_physical_index(),
        ) < spec_central_frequency(b.spec_physical_index()),
        spec_central_frequency(a.spec_physical_index()) == spec_central_frequency(
            b.spec_physical_index(),
        ) ==> a == b,
        b.spec_physical_index() == a.spec_physical_index() + 1 ==> spec_central_frequency(
            b.spec_physical_index(),
        ) == spec_central_frequency(a.spec_physical_index()) + 2,
        2402 <= spec_central_frequency(a.spec_physical_index()) <= 2480,
{
    lemma_physical_index_bijective(a, b, 0);
}

/// The whitening preset of a channel is 64 plus its channel index: bit 6 is
/// set, bit 7 is clear and the low six bits hold the index.
pub proof fn lemma_whitening_init(channel: Channel)
    ensures
        channel.spec_channel_index() <= 39,
        spec_whitening_init(channel.spec_channel_index()) == 64 + channel.spec_channel_index(),
        spec_whitening_init(channel.spec_channel_index()) & 0b0100_0000 == 0b0100_0000,
        spec_whitening_init(channel.spec_channel_index()) & 0b1000_0000 == 0,
        spec_whitening_init(channel.spec_channel_index()) & 0b0011_1111
            == channel.spec_channel_index(),
{
    let index = channel.spec_channel_index();
    assert(index <= 39 ==> (0b0100_0000u8 | index) == 64 + index && (0b0100_0000u8 | index)
        & 0b0100_0000 == 0b0100_0000 && (0b0100_0000u8 | index) & 0b1000_0000 == 0 && (
    0b0100_0000u8 | index) & 0b0011_1111 == index) by (bit_vector);
}

} // verus!
