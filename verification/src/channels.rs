//! The channels of a device, and sets of them as the kernel interface
//! takes them: masks with one bit for each channel.

use vstd::prelude::*;

verus! {

/// The mask that holds the bit of every channel.
pub const ALL: u32 = 0x7f07;

/// A channel that can be opened on a device.
///
/// The kernel interface calls these interfaces.
#[derive(Copy, Clone, Debug, PartialEq, Eq, Hash)]
pub enum Channel {
    /// Primary channel.
    Core,
    /// Accelerometer channel.
    Accelerometer,
    /// IR camera channel.
    Ir,
    /// MotionPlus extension channel.
    MotionPlus,
    /// Nunchuk extension channel.
    Nunchuk,
    /// Classic controller channel.
    ClassicController,
    /// Balance board channel.
    BalanceBoard,
    /// ProController channel.
    ProController,
    /// Drums channel.
    Drums,
    /// Guitar channel.
    Guitar,
}

impl Channel {
    /// The bit that stands for the channel in a mask.
    pub open spec fn mask(self) -> u32 {
        match self {
            Channel::Core => 0x1,
            Channel::Accelerometer => 0x2,
            Channel::Ir => 0x4,
            Channel::MotionPlus => 0x100,
            Channel::Nunchuk => 0x200,
            Channel::ClassicController => 0x400,
            Channel::BalanceBoard => 0x800,
            Channel::ProController => 0x1000,
            Channel::Drums => 0x2000,
            Channel::Guitar => 0x4000,
        }
    }

    /// Returns the bit that stands for the channel in a mask.
    pub fn bit(self) -> (bit: u32)
        ensures
            bit == self.mask(),
    {
        match self {
            Channel::Core => 0x1,
            Channel::Accelerometer => 0x2,
            Channel::Ir => 0x4,
            Channel::MotionPlus => 0x100,
            Channel::Nunchuk => 0x200,
            Channel::ClassicController => 0x400,
            Channel::BalanceBoard => 0x800,
            Channel::ProController => 0x1000,
            Channel::Drums => 0x2000,
            Channel::Guitar => 0x4000,
        }
    }
}

/// Whether a mask is the bit of one channel.
pub open spec fn is_flag(m: u32) -> bool {
    m == 0x1 || m == 0x2 || m == 0x4 || m == 0x100 || m == 0x200 || m == 0x400 || m == 0x800 || m
        == 0x1000 || m == 0x2000 || m == 0x4000
}

/// Whether a mask holds no bit but those of channels.
pub open spec fn known(bits: u32) -> bool {
    bits & !ALL == 0
}

/// The channels whose bits a mask holds.
pub open spec fn channels_of(bits: u32) -> Set<Channel> {
    Set::new(|c: Channel| bits & c.mask() != 0)
}

/// How the bit of one channel fares under the operations on masks: it is in
/// a union, an intersection or a difference exactly where the operation on
/// sets would put it.
proof fn lemma_flag_ops(a: u32, b: u32, m: u32)
    by (bit_vector)
    requires
        m == 0x1 || m == 0x2 || m == 0x4 || m == 0x100 || m == 0x200 || m == 0x400 || m == 0x800
            || m == 0x1000 || m == 0x2000 || m == 0x4000,
    ensures
        (a | b) & m != 0 <==> (a & m != 0 || b & m != 0),
        (a & b) & m != 0 <==> (a & m != 0 && b & m != 0),
        (a & !b) & m != 0 <==> (a & m != 0 && b & m == 0),
        0x7f07u32 & m != 0,
        0u32 & m == 0,
        m & !0x7f07u32 == 0,
{
}

/// Two bits of channels overlap only where they are the same bit.
proof fn lemma_flags_apart(m: u32, n: u32)
    by (bit_vector)
    requires
        m == 0x1 || m == 0x2 || m == 0x4 || m == 0x100 || m == 0x200 || m == 0x400 || m == 0x800
            || m == 0x1000 || m == 0x2000 || m == 0x4000,
        n == 0x1 || n == 0x2 || n == 0x4 || n == 0x100 || n == 0x200 || n == 0x400 || n == 0x800
            || n == 0x1000 || n == 0x2000 || n == 0x4000,
    ensures
        m & n != 0 <==> m == n,
{
}

/// What the operations on masks keep within the bits of channels.
proof fn lemma_known_ops(a: u32, b: u32)
    by (bit_vector)
    ensures
        a & !0x7f07u32 == 0 && b & !0x7f07u32 == 0 ==> (a | b) & !0x7f07u32 == 0,
        a & !0x7f07u32 == 0 ==> (a & b) & !0x7f07u32 == 0,
        a & !0x7f07u32 == 0 ==> (a & !b) & !0x7f07u32 == 0,
        0u32 & !0x7f07u32 == 0,
        0x7f07u32 & !0x7f07u32 == 0,
{
}

/// A mask of channels is told by the ten bits of the channels: one mask
/// holds another, two masks overlap, and two masks are the same, exactly
/// where the ten bits say so.
proof fn lemma_masks_by_flags(a: u32, b: u32)
    by (bit_vector)
    requires
        a & !0x7f07u32 == 0,
        b & !0x7f07u32 == 0,
    ensures
        (a & b == b) <==> ((b & 0x1 != 0 ==> a & 0x1 != 0) && (b & 0x2 != 0 ==> a & 0x2 != 0) && (b
            & 0x4 != 0 ==> a & 0x4 != 0) && (b & 0x100 != 0 ==> a & 0x100 != 0) && (b & 0x200 != 0
            ==> a & 0x200 != 0) && (b & 0x400 != 0 ==> a & 0x400 != 0) && (b & 0x800 != 0 ==> a
            & 0x800 != 0) && (b & 0x1000 != 0 ==> a & 0x1000 != 0) && (b & 0x2000 != 0 ==> a
            & 0x2000 != 0) && (b & 0x4000 != 0 ==> a & 0x4000 != 0)),
        (a & b != 0) <==> ((b & 0x1 != 0 && a & 0x1 != 0) || (b & 0x2 != 0 && a & 0x2 != 0) || (b
            & 0x4 != 0 && a & 0x4 != 0) || (b & 0x100 != 0 && a & 0x100 != 0) || (b & 0x200 != 0
            && a & 0x200 != 0) || (b & 0x400 != 0 && a & 0x400 != 0) || (b & 0x800 != 0 && a
            & 0x800 != 0) || (b & 0x1000 != 0 && a & 0x1000 != 0) || (b & 0x2000 != 0 && a
            & 0x2000 != 0) || (b & 0x4000 != 0 && a & 0x4000 != 0)),
        (a == b) <==> ((b & 0x1 != 0 <==> a & 0x1 != 0) && (b & 0x2 != 0 <==> a & 0x2 != 0) && (b
            & 0x4 != 0 <==> a & 0x4 != 0) && (b & 0x100 != 0 <==> a & 0x100 != 0) && (b & 0x200
            != 0 <==> a & 0x200 != 0) && (b & 0x400 != 0 <==> a & 0x400 != 0) && (b & 0x800 != 0
            <==> a & 0x800 != 0) && (b & 0x1000 != 0 <==> a & 0x1000 != 0) && (b & 0x2000 != 0
            <==> a & 0x2000 != 0) && (b & 0x4000 != 0 <==> a & 0x4000 != 0)),
{
}

/// Every channel's bit is the bit of a channel.
proof fn lemma_channel_flag(c: Channel)
    ensures
        is_flag(c.mask()),
{
}

/// Masks of channels and sets of channels correspond one to one: one mask
/// holds another where its set holds the other's, two masks overlap where
/// their sets do, and two masks with the same set are the same mask.
pub proof fn lemma_masks_are_sets(a: u32, b: u32)
    requires
        known(a),
        known(b),
    ensures
        (a & b == b) <==> channels_of(b).subset_of(channels_of(a)),
        (a & b != 0) <==> !channels_of(a).disjoint(channels_of(b)),
        (a == b) <==> channels_of(a) == channels_of(b),
        (a == 0) <==> channels_of(a) == Set::<Channel>::empty(),
{
    lemma_known_ops(a, b);
    lemma_masks_by_flags(a, b);
    lemma_masks_by_flags(a, 0);
    let sa = channels_of(a);
    let sb = channels_of(b);
    // Each of the ten bits is the membership of one channel.
    assert(sa.contains(Channel::Core) <==> a & 0x1 != 0);
    assert(sa.contains(Channel::Accelerometer) <==> a & 0x2 != 0);
    assert(sa.contains(Channel::Ir) <==> a & 0x4 != 0);
    assert(sa.contains(Channel::MotionPlus) <==> a & 0x100 != 0);
    assert(sa.contains(Channel::Nunchuk) <==> a & 0x200 != 0);
    assert(sa.contains(Channel::ClassicController) <==> a & 0x400 != 0);
    assert(sa.contains(Channel::BalanceBoard) <==> a & 0x800 != 0);
    assert(sa.contains(Channel::ProController) <==> a & 0x1000 != 0);
    assert(sa.contains(Channel::Drums) <==> a & 0x2000 != 0);
    assert(sa.contains(Channel::Guitar) <==> a & 0x4000 != 0);
    assert(sb.contains(Channel::Core) <==> b & 0x1 != 0);
    assert(sb.contains(Channel::Accelerometer) <==> b & 0x2 != 0);
    assert(sb.contains(Channel::Ir) <==> b & 0x4 != 0);
    assert(sb.contains(Channel::MotionPlus) <==> b & 0x100 != 0);
    assert(sb.contains(Channel::Nunchuk) <==> b & 0x200 != 0);
    assert(sb.contains(Channel::ClassicController) <==> b & 0x400 != 0);
    assert(sb.contains(Channel::BalanceBoard) <==> b & 0x800 != 0);
    assert(sb.contains(Channel::ProController) <==> b & 0x1000 != 0);
    assert(sb.contains(Channel::Drums) <==> b & 0x2000 != 0);
    assert(sb.contains(Channel::Guitar) <==> b & 0x4000 != 0);
    if a & b == b {
        assert forall|c: Channel| sb.contains(c) implies sa.contains(c) by {}
    }
    if a & b != 0 {
        let c = if b & 0x1 != 0 && a & 0x1 != 0 {
            Channel::Core
        } else if b & 0x2 != 0 && a & 0x2 != 0 {
            Channel::Accelerometer
        } else if b & 0x4 != 0 && a & 0x4 != 0 {
            Channel::Ir
        } else if b & 0x100 != 0 && a & 0x100 != 0 {
            Channel::MotionPlus
        } else if b & 0x200 != 0 && a & 0x200 != 0 {
            Channel::Nunchuk
        } else if b & 0x400 != 0 && a & 0x400 != 0 {
            Channel::ClassicController
        } else if b & 0x800 != 0 && a & 0x800 != 0 {
            Channel::BalanceBoard
        } else if b & 0x1000 != 0 && a & 0x1000 != 0 {
            Channel::ProController
        } else if b & 0x2000 != 0 && a & 0x2000 != 0 {
            Channel::Drums
        } else {
            Channel::Guitar
        };
        assert(sa.contains(c) && sb.contains(c));
    }
    if a == 0 {
        assert(channels_of(a) =~= Set::<Channel>::empty()) by {
            assert forall|c: Channel| !channels_of(a).contains(c) by {
                lemma_channel_flag(c);
                lemma_flag_ops(a, b, c.mask());
            }
        }
    }
    if channels_of(a) == Set::<Channel>::empty() {
        assert(!sa.contains(Channel::Core));
        assert(!sa.contains(Channel::Accelerometer));
        assert(!sa.contains(Channel::Ir));
        assert(!sa.contains(Channel::MotionPlus));
        assert(!sa.contains(Channel::Nunchuk));
        assert(!sa.contains(Channel::ClassicController));
        assert(!sa.contains(Channel::BalanceBoard));
        assert(!sa.contains(Channel::ProController));
        assert(!sa.contains(Channel::Drums));
        assert(!sa.contains(Channel::Guitar));
    }
}

/// The operations on masks are the operations on sets of channels.
pub proof fn lemma_mask_ops_are_set_ops(a: u32, b: u32)
    ensures
        channels_of(a | b) == channels_of(a).union(channels_of(b)),
        channels_of(a & b) == channels_of(a).intersect(channels_of(b)),
        channels_of(a & !b) == channels_of(a).difference(channels_of(b)),
        channels_of(0) == Set::<Channel>::empty(),
        channels_of(ALL) == Set::<Channel>::full(),
        known(a) && known(b) ==> known(a | b),
        known(a) ==> known(a & b) && known(a & !b),
        known(0) && known(ALL),
{
    lemma_known_ops(a, b);
    assert forall|c: Channel| #[trigger] channels_of(a | b).contains(c) <==> channels_of(a).union(
        channels_of(b),
    ).contains(c) by {
        lemma_channel_flag(c);
        lemma_flag_ops(a, b, c.mask());
    }
    assert forall|c: Channel| #[trigger] channels_of(a & b).contains(c) <==> channels_of(
        a,
    ).intersect(channels_of(b)).contains(c) by {
        lemma_channel_flag(c);
        lemma_flag_ops(a, b, c.mask());
    }
    assert forall|c: Channel| #[trigger] channels_of(a & !b).contains(c) <==> channels_of(
        a,
    ).difference(channels_of(b)).contains(c) by {
        lemma_channel_flag(c);
        lemma_flag_ops(a, b, c.mask());
    }
    assert forall|c: Channel| !(#[trigger] channels_of(0).contains(c)) by {
        lemma_channel_flag(c);
        lemma_flag_ops(a, b, c.mask());
    }
    assert forall|c: Channel| #[trigger] channels_of(ALL).contains(c) by {
        lemma_channel_flag(c);
        lemma_flag_ops(a, b, c.mask());
    }
    assert(channels_of(a | b) =~= channels_of(a).union(channels_of(b)));
    assert(channels_of(a & b) =~= channels_of(a).intersect(channels_of(b)));
    assert(channels_of(a & !b) =~= channels_of(a).difference(channels_of(b)));
    assert(channels_of(0) =~= Set::<Channel>::empty());
    assert(channels_of(ALL) =~= Set::<Channel>::full());
}

/// The mask of one channel holds that channel and no other.
pub proof fn lemma_single_channel(channel: Channel)
    ensures
        channels_of(channel.mask()) == set![channel],
        known(channel.mask()),
{
    lemma_channel_flag(channel);
    lemma_flag_ops(0, 0, channel.mask());
    assert forall|c: Channel| channels_of(channel.mask()).contains(c) <==> c == channel by {
        lemma_channel_flag(c);
        lemma_flags_apart(channel.mask(), c.mask());
    }
    assert(channels_of(channel.mask()) =~= set![channel]);
}

/// Represents a set of the channels that can be opened on a device.
///
/// A set is kept as a mask with one bit for each channel that it holds;
/// its view is the set of those channels.
#[derive(Copy, Clone, Debug, PartialEq, Eq, Hash, Structural)]
pub struct Channels {
    bits: u32,
}

impl View for Channels {
    type V = Set<Channel>;

    open spec fn view(&self) -> Set<Channel> {
        channels_of(self.mask())
    }
}

impl Channels {
    /// The mask that the kernel interface takes for this set.
    pub closed spec fn mask(self) -> u32 {
        self.bits
    }

    /// A set holds channels only: its mask has no other bit.
    #[verifier::type_invariant]
    pub open spec fn wf(self) -> bool {
        known(self.mask())
    }

    /// The set of one channel.
    pub fn of(channel: Channel) -> (set: Channels)
        ensures
            set@ == set![channel],
            set.mask() == channel.mask(),
            set.wf(),
    {
        proof {
            lemma_single_channel(channel);
        }
        Channels { bits: channel.bit() }
    }

    /// The set without a channel.
    pub fn empty() -> (set: Channels)
        ensures
            set@ == Set::<Channel>::empty(),
            set.mask() == 0,
            set.wf(),
    {
        proof {
            lemma_mask_ops_are_set_ops(0, 0);
        }
        Channels { bits: 0 }
    }

    /// The set of all channels.
    pub fn all() -> (set: Channels)
        ensures
            set@ == Set::<Channel>::full(),
            set.mask() == ALL,
            set.wf(),
    {
        proof {
            lemma_mask_ops_are_set_ops(0, 0);
        }
        Channels { bits: ALL }
    }

    /// Returns the mask that the kernel interface takes for this set.
    pub fn bits(&self) -> (bits: u32)
        ensures
            bits == self.mask(),
            known(bits),
            self.wf(),
    {
        proof {
            use_type_invariant(self);
        }
        self.bits
    }

    /// Converts a mask into a set, unless it holds a bit that stands for
    /// no channel.
    pub fn from_bits(bits: u32) -> (set: Option<Channels>)
        ensures
            known(bits) ==> (set matches Some(s) && s.mask() == bits && s@ == channels_of(bits)
                && s.wf()),
            !known(bits) ==> set is None,
    {
        if bits & !ALL == 0 {
            Some(Channels { bits })
        } else {
            None
        }
    }

    /// Tells whether the set holds no channel.
    pub fn is_empty(&self) -> (empty: bool)
        ensures
            empty == (self@ == Set::<Channel>::empty()),
            empty == (self.mask() == 0),
    {
        proof {
            use_type_invariant(self);
            lemma_masks_are_sets(self.bits, self.bits);
        }
        self.bits == 0
    }

    /// Tells whether every channel of `other` is in this set.
    pub fn contains(&self, other: Channels) -> (all_in: bool)
        ensures
            all_in == other@.subset_of(self@),
            all_in == (self.mask() & other.mask() == other.mask()),
    {
        proof {
            use_type_invariant(self);
            use_type_invariant(other);
            lemma_masks_are_sets(self.bits, other.bits);
        }
        self.bits & other.bits == other.bits
    }

    /// Tells whether the two sets share a channel.
    pub fn intersects(&self, other: Channels) -> (shared: bool)
        ensures
            shared == !self@.disjoint(other@),
    {
        proof {
            use_type_invariant(self);
            use_type_invariant(other);
            lemma_masks_are_sets(self.bits, other.bits);
        }
        self.bits & other.bits != 0
    }

    /// The channels that are in either set.
    pub fn union(self, other: Channels) -> (set: Channels)
        ensures
            set@ == self@.union(other@),
            set.mask() == self.mask() | other.mask(),
            set.wf(),
    {
        proof {
            use_type_invariant(self);
            use_type_invariant(other);
            lemma_mask_ops_are_set_ops(self.bits, other.bits);
        }
        Channels { bits: self.bits | other.bits }
    }

    /// The channels that are in both sets.
    pub fn intersection(self, other: Channels) -> (set: Channels)
        ensures
            set@ == self@.intersect(other@),
            set.mask() == self.mask() & other.mask(),
            set.wf(),
    {
        proof {
            use_type_invariant(self);
            use_type_invariant(other);
            lemma_mask_ops_are_set_ops(self.bits, other.bits);
        }
        Channels { bits: self.bits & other.bits }
    }

    /// The channels of this set that are not in `other`.
    pub fn difference(self, other: Channels) -> (set: Channels)
        ensures
            set@ == self@.difference(other@),
            set.mask() == self.mask() & !other.mask(),
            set.wf(),
    {
        proof {
            use_type_invariant(self);
            use_type_invariant(other);
            lemma_mask_ops_are_set_ops(self.bits, other.bits);
        }
        Channels { bits: self.bits & !other.bits }
    }
}

impl vstd::std_specs::ops::BitOrSpecImpl for Channels {
    open spec fn obeys_bitor_spec() -> bool {
        true
    }

    open spec fn bitor_req(self, other: Channels) -> bool {
        true
    }

    closed spec fn bitor_spec(self, other: Channels) -> Channels {
        Channels { bits: self.bits | other.bits }
    }
}

impl core::ops::BitOr for Channels {
    type Output = Channels;

    /// The channels that are in either set.
    fn bitor(self, other: Channels) -> (set: Channels)
        ensures
            set@ == self@.union(other@),
            set.mask() == self.mask() | other.mask(),
            set.wf(),
    {
        self.union(other)
    }
}

} // verus!
