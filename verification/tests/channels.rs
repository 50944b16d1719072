use xwiimote::channels::ALL;
use xwiimote::Channel;
use xwiimote::Channels;

const EVERY: [Channel; 10] = [
    Channel::Core,
    Channel::Accelerometer,
    Channel::Ir,
    Channel::MotionPlus,
    Channel::Nunchuk,
    Channel::ClassicController,
    Channel::BalanceBoard,
    Channel::ProController,
    Channel::Drums,
    Channel::Guitar,
];

#[test]
fn channel_bits_are_those_of_the_kernel_interface() {
    let bits: Vec<u32> = EVERY.iter().map(|c| c.bit()).collect();
    assert_eq!(bits, vec![0x1, 0x2, 0x4, 0x100, 0x200, 0x400, 0x800, 0x1000, 0x2000, 0x4000]);
    assert_eq!(bits.iter().sum::<u32>(), ALL);
    assert_eq!(ALL, 0x7f07);
}

#[test]
fn a_set_of_one_channel_holds_that_channel_only() {
    for channel in EVERY {
        let set = Channels::of(channel);
        assert_eq!(set.bits(), channel.bit());
        for other in EVERY {
            assert_eq!(set.contains(Channels::of(other)), other == channel);
            assert_eq!(set.intersects(Channels::of(other)), other == channel);
        }
    }
}

#[test]
fn empty_and_all() {
    assert_eq!(Channels::empty().bits(), 0);
    assert!(Channels::empty().is_empty());
    assert_eq!(Channels::all().bits(), 0x7f07);
    assert!(!Channels::all().is_empty());
    for channel in EVERY {
        assert!(Channels::all().contains(Channels::of(channel)));
        assert!(!Channels::empty().contains(Channels::of(channel)));
        assert!(Channels::of(channel).contains(Channels::empty()));
    }
}

#[test]
fn from_bits_accepts_channels_only() {
    assert_eq!(Channels::from_bits(0), Some(Channels::empty()));
    assert_eq!(Channels::from_bits(0x201).map(|set| set.bits()), Some(0x201));
    assert_eq!(Channels::from_bits(0x7f07), Some(Channels::all()));
    assert_eq!(Channels::from_bits(0x8), None);
    assert_eq!(Channels::from_bits(0x80), None);
    assert_eq!(Channels::from_bits(0x8000), None);
    assert_eq!(Channels::from_bits(0x10001), None);
    assert_eq!(Channels::from_bits(u32::MAX), None);
}

#[test]
fn set_operations() {
    let core = Channels::of(Channel::Core);
    let nunchuk = Channels::of(Channel::Nunchuk);
    let ir = Channels::of(Channel::Ir);
    let both = core | nunchuk;
    assert_eq!(both.bits(), 0x201);
    assert_eq!(both, core.union(nunchuk));
    assert_eq!(both, nunchuk | core);
    assert!(both.contains(core));
    assert!(both.contains(nunchuk));
    assert!(both.contains(both));
    assert!(!both.contains(ir));
    assert!(!core.contains(both));
    assert!(both.intersects(core | ir));
    assert!(!both.intersects(ir));
    assert_eq!(both.intersection(core | ir), core);
    assert_eq!(both.intersection(ir), Channels::empty());
    assert_eq!(both.difference(core), nunchuk);
    assert_eq!(both.difference(ir), both);
    assert_eq!(both.difference(both), Channels::empty());
    assert_eq!(Channels::all().difference(both).bits(), 0x7f07 - 0x201);
}
