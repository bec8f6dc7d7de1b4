use jewel::phy::{
    AdvertisingChannel, Channel, ChannelTrait, DataChannel, PrimaryAdvertisingChannel,
    UnknownChannel,
};

fn all_channels() -> Vec<Channel> {
    (0..=39u8).map(|index| Channel::try_from(index).unwrap()).collect()
}

#[test]
fn channels_from_their_index() {
    assert_eq!(AdvertisingChannel::try_from(37), Ok(AdvertisingChannel::Ch37));
    assert_eq!(AdvertisingChannel::try_from(38), Ok(AdvertisingChannel::Ch38));
    assert_eq!(AdvertisingChannel::try_from(39), Ok(AdvertisingChannel::Ch39));
    assert_eq!(AdvertisingChannel::try_from(36), Err(UnknownChannel));
    assert_eq!(AdvertisingChannel::try_from(40), Err(UnknownChannel));
    assert_eq!(AdvertisingChannel::try_from(0), Err(UnknownChannel));

    assert_eq!(DataChannel::try_from(0), Ok(DataChannel::Ch0));
    assert_eq!(DataChannel::try_from(23), Ok(DataChannel::Ch23));
    assert_eq!(DataChannel::try_from(36), Ok(DataChannel::Ch36));
    assert_eq!(DataChannel::try_from(37), Err(UnknownChannel));
    assert_eq!(DataChannel::try_from(255), Err(UnknownChannel));

    assert_eq!(Channel::try_from(0), Ok(Channel::Data(DataChannel::Ch0)));
    assert_eq!(Channel::try_from(36), Ok(Channel::Data(DataChannel::Ch36)));
    assert_eq!(Channel::try_from(37), Ok(Channel::Advertising(AdvertisingChannel::Ch37)));
    assert_eq!(Channel::try_from(39), Ok(Channel::Advertising(AdvertisingChannel::Ch39)));
    assert_eq!(Channel::try_from(40), Err(UnknownChannel));
    assert_eq!(Channel::try_from(255), Err(UnknownChannel));

    for index in 0..=255u8 {
        match Channel::try_from(index) {
            Ok(channel) => {
                assert!(index <= 39);
                assert_eq!(channel.channel_index(), index);
            }
            Err(UnknownChannel) => assert!(index > 39),
        }
    }
    assert_eq!(Channel::from(DataChannel::Ch5), Channel::Data(DataChannel::Ch5));
    assert_eq!(
        Channel::from(AdvertisingChannel::Ch38),
        Channel::Advertising(AdvertisingChannel::Ch38)
    );
}

#[test]
fn advertising_channels_in_order() {
    assert_eq!(
        AdvertisingChannel::channels(),
        [AdvertisingChannel::Ch37, AdvertisingChannel::Ch38, AdvertisingChannel::Ch39]
    );
    // every call starts over
    let mut visited = Vec::new();
    for channel in AdvertisingChannel::channels() {
        visited.push(channel.channel_index());
    }
    for channel in AdvertisingChannel::channels() {
        visited.push(channel.channel_index());
    }
    assert_eq!(visited, vec![37, 38, 39, 37, 38, 39]);
}

#[test]
fn physical_indices() {
    assert_eq!(AdvertisingChannel::Ch37.physical_index(), 0);
    assert_eq!(AdvertisingChannel::Ch38.physical_index(), 12);
    assert_eq!(AdvertisingChannel::Ch39.physical_index(), 39);
    assert_eq!(DataChannel::Ch0.physical_index(), 1);
    assert_eq!(DataChannel::Ch10.physical_index(), 11);
    assert_eq!(DataChannel::Ch11.physical_index(), 13);
    assert_eq!(DataChannel::Ch36.physical_index(), 38);

    let mut taken: Vec<u8> = all_channels().iter().map(|c| c.physical_index()).collect();
    taken.sort();
    assert_eq!(taken, (0..=39u8).collect::<Vec<u8>>());
}

#[test]
fn frequency_grows_with_the_physical_index() {
    let mut channels = all_channels();
    channels.sort_by_key(|channel| channel.physical_index());
    assert_eq!(channels.len(), 40);
    assert_eq!(channels[0].central_frequency(), 2402);
    assert_eq!(channels[39].central_frequency(), 2480);
    for pair in channels.windows(2) {
        assert_eq!(pair[0].central_frequency() + 2, pair[1].central_frequency());
    }
    for channel in &channels {
        assert_eq!(channel.central_frequency(), 2402 + 2 * channel.physical_index() as u16);
    }
}

#[test]
fn whitening_has_bit_six_set() {
    for channel in all_channels() {
        let seed = channel.whitening_init();
        assert_eq!(seed & 0b0100_0000, 0b0100_0000);
        assert_eq!(seed & 0b1000_0000, 0);
        assert_eq!(seed & 0b0011_1111, channel.channel_index());
        assert_eq!(seed, 64 + channel.channel_index());
    }
    assert_eq!(DataChannel::Ch0.whitening_init(), 0b0100_0000);
    assert_eq!(DataChannel::Ch23.whitening_init(), 0b0101_0111);
}

#[test]
fn primary_advertising_channels() {
    assert_eq!(PrimaryAdvertisingChannel::Ch37.central_frequency(), 2402);
    assert_eq!(PrimaryAdvertisingChannel::Ch38.central_frequency(), 2426);
    assert_eq!(PrimaryAdvertisingChannel::Ch39.central_frequency(), 2480);
    assert_eq!(PrimaryAdvertisingChannel::Ch37.whitening_init(), 0x65);
    assert_eq!(PrimaryAdvertisingChannel::Ch38.whitening_init(), 0x66);
    assert_eq!(PrimaryAdvertisingChannel::Ch39.whitening_init(), 0x67);
}
