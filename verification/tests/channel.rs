use jewel::phy::{AdvertisingChannel, ChannelTrait, DataChannel};

#[test]
fn test_central_frequency() {
    assert_eq!(AdvertisingChannel::Ch37.central_frequency(), 2402);
    assert_eq!(DataChannel::Ch0.central_frequency(), 2404);
    assert_eq!(DataChannel::Ch1.central_frequency(), 2406);
    assert_eq!(DataChannel::Ch2.central_frequency(), 2408);
    assert_eq!(DataChannel::Ch3.central_frequency(), 2410);
    assert_eq!(DataChannel::Ch4.central_frequency(), 2412);
    assert_eq!(DataChannel::Ch5.central_frequency(), 2414);
    assert_eq!(DataChannel::Ch6.central_frequency(), 2416);
    assert_eq!(DataChannel::Ch7.central_frequency(), 2418);
    assert_eq!(DataChannel::Ch8.central_frequency(), 2420);
    assert_eq!(DataChannel::Ch9.central_frequency(), 2422);
    assert_eq!(DataChannel::Ch10.central_frequency(), 2424);
    assert_eq!(AdvertisingChannel::Ch38.central_frequency(), 2426);
    assert_eq!(DataChannel::Ch11.central_frequency(), 2428);
    assert_eq!(DataChannel::Ch12.central_frequency(), 2430);
    assert_eq!(DataChannel::Ch13.central_frequency(), 2432);
    assert_eq!(DataChannel::Ch14.central_frequency(), 2434);
    assert_eq!(DataChannel::Ch15.central_frequency(), 2436);
    assert_eq!(DataChannel::Ch16.central_frequency(), 2438);
    assert_eq!(DataChannel::Ch17.central_frequency(), 2440);
    assert_eq!(DataChannel::Ch18.central_frequency(), 2442);
    assert_eq!(DataChannel::Ch19.central_frequency(), 2444);
    assert_eq!(DataChannel::Ch20.central_frequency(), 2446);
    assert_eq!(DataChannel::Ch21.central_frequency(), 2448);
    assert_eq!(DataChannel::Ch22.central_frequency(), 2450);
    assert_eq!(DataChannel::Ch23.central_frequency(), 2452);
    assert_eq!(DataChannel::Ch24.central_frequency(), 2454);
    assert_eq!(DataChannel::Ch25.central_frequency(), 2456);
    assert_eq!(DataChannel::Ch26.central_frequency(), 2458);
    assert_eq!(DataChannel::Ch27.central_frequency(), 2460);
    assert_eq!(DataChannel::Ch28.central_frequency(), 2462);
    assert_eq!(DataChannel::Ch29.central_frequency(), 2464);
    assert_eq!(DataChannel::Ch30.central_frequency(), 2466);
    assert_eq!(DataChannel::Ch31.central_frequency(), 2468);
    assert_eq!(DataChannel::Ch32.central_frequency(), 2470);
    assert_eq!(DataChannel::Ch33.central_frequency(), 2472);
    assert_eq!(DataChannel::Ch34.central_frequency(), 2474);
    assert_eq!(DataChannel::Ch35.central_frequency(), 2476);
    assert_eq!(DataChannel::Ch36.central_frequency(), 2478);
    assert_eq!(AdvertisingChannel::Ch39.central_frequency(), 2480);
}

#[test]
fn test_whitening_init() {
    assert_eq!(DataChannel::Ch0.whitening_init(), 0b0100_0000);
    assert_eq!(AdvertisingChannel::Ch37.whitening_init(), 0b0110_0101);
    assert_eq!(AdvertisingChannel::Ch38.whitening_init(), 0b0110_0110);
    assert_eq!(AdvertisingChannel::Ch39.whitening_init(), 0b0110_0111);
}
