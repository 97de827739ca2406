//! The capability flags of a module's parameter block.

use vstd::prelude::*;

verus! {

/// Bit 0: the module consumes events.
pub const EVENT_CONSUMER: u8 = 0b0000_0001;

/// Bit 1: the module produces events.
pub const EVENT_PRODUCER: u8 = 0b0000_0010;

/// Bits 0 and 1: the module both consumes and produces events.
pub const EVENT_COMBI: u8 = 0b0000_0011;

/// Bit 2 under its CBUS name: the module is in FLiM.
pub const FLIM: u8 = 0b0000_0100;

/// Bit 2 under its VLCB name: the module is in normal mode.
pub const NORMAL_MODE: u8 = 0b0000_0100;

/// Bit 3: the module supports the bootloader protocol.
pub const BOOTLOADER: u8 = 0b0000_1000;

/// Bit 4: the module can consume its own events.
pub const CONSUME_OWN_EVENTS: u8 = 0b0001_0000;

/// Bit 5: the module is in learn mode.
pub const LEARN_MODE: u8 = 0b0010_0000;

/// Bit 6 under its current name: the module is VLCB compatible.
pub const VLCB: u8 = 0b0100_0000;

/// Bit 6 under its deprecated name: the module supports service discovery.
pub const SERVICE_DISCOVERY: u8 = 0b0100_0000;

/// Every bit that has a meaning. Bit 7 is reserved.
pub const ALL_FLAGS: u8 = 0b0111_1111;

/// A set of capability flags: eight bits, each settable on its own.
///
/// Any byte is a flag set. A bit that has no meaning yet is kept as it is,
/// so that a set can be relayed unchanged. Two sets are equal when their
/// bytes are. Bits 2 and 6 each have two names, one per protocol
/// generation; the two names of a bit are the same flag.
#[derive(Debug, Clone, Copy, PartialEq, Eq, Structural)]
pub struct ModuleFlags {
    /// The flags as they stand in the parameter block.
    pub bits: u8,
}

impl View for ModuleFlags {
    type V = u8;

    open spec fn view(&self) -> u8 {
        self.bits
    }
}

impl ModuleFlags {
    /// The set of the flags that are in `self`, in `other` or in both.
    pub open spec fn spec_union(self, other: ModuleFlags) -> ModuleFlags {
        ModuleFlags { bits: self.bits | other.bits }
    }

    /// The set of the flags that are in both `self` and `other`.
    pub open spec fn spec_intersection(self, other: ModuleFlags) -> ModuleFlags {
        ModuleFlags { bits: self.bits & other.bits }
    }

    /// The set of the flags that are in `self` and not in `other`.
    pub open spec fn spec_difference(self, other: ModuleFlags) -> ModuleFlags {
        ModuleFlags { bits: self.bits & !other.bits }
    }

    /// The set of the flags that are in exactly one of `self` and `other`.
    pub open spec fn spec_symmetric_difference(self, other: ModuleFlags) -> ModuleFlags {
        ModuleFlags { bits: self.bits ^ other.bits }
    }

    /// The set of the flags with a meaning that are not in `self`.
    pub open spec fn spec_complement(self) -> ModuleFlags {
        ModuleFlags { bits: !self.bits & ALL_FLAGS }
    }

    /// Whether every flag of `other` is in `self`.
    pub open spec fn spec_contains(self, other: ModuleFlags) -> bool {
        self.bits & other.bits == other.bits
    }

    /// Whether some flag is in both `self` and `other`.
    pub open spec fn spec_intersects(self, other: ModuleFlags) -> bool {
        self.bits & other.bits != 0
    }

    /// The set whose byte is `bits`.
    pub open spec fn spec_from_bits_retain(bits: u8) -> ModuleFlags {
        ModuleFlags { bits }
    }

    /// Whether `bits` sets no bit but those with a meaning.
    pub open spec fn known(bits: u8) -> bool {
        bits & !ALL_FLAGS == 0
    }

    /// The set with no flag: the module does not support events.
    pub fn empty() -> (r: ModuleFlags)
        ensures
            r@ == 0,
    {
        ModuleFlags { bits: 0 }
    }

    /// The set of every flag that has a meaning.
    pub fn all() -> (r: ModuleFlags)
        ensures
            r@ == ALL_FLAGS,
    {
        ModuleFlags { bits: ALL_FLAGS }
    }

    /// The set with no flag, under the name of what it says of the module.
    pub fn events_unsupported() -> (r: ModuleFlags)
        ensures
            r@ == 0,
    {
        ModuleFlags { bits: 0 }
    }

    /// The flag of a consumer of events.
    pub fn event_consumer() -> (r: ModuleFlags)
        ensures
            r@ == EVENT_CONSUMER,
    {
        ModuleFlags { bits: EVENT_CONSUMER }
    }

    /// The flag of a producer of events.
    pub fn event_producer() -> (r: ModuleFlags)
        ensures
            r@ == EVENT_PRODUCER,
    {
        ModuleFlags { bits: EVENT_PRODUCER }
    }

    /// The two flags of a module that consumes and produces events.
    pub fn event_combi() -> (r: ModuleFlags)
        ensures
            r@ == EVENT_COMBI,
    {
        ModuleFlags { bits: EVENT_COMBI }
    }

    /// The flag of bit 2 under its CBUS name.
    pub fn flim() -> (r: ModuleFlags)
        ensures
            r@ == FLIM,
    {
        ModuleFlags { bits: FLIM }
    }

    /// The flag of bit 2 under its VLCB name.
    pub fn normal_mode() -> (r: ModuleFlags)
        ensures
            r@ == NORMAL_MODE,
    {
        ModuleFlags { bits: NORMAL_MODE }
    }

    /// The flag of a module that supports the bootloader protocol.
    pub fn bootloader() -> (r: ModuleFlags)
        ensures
            r@ == BOOTLOADER,
    {
        ModuleFlags { bits: BOOTLOADER }
    }

    /// The flag of a module that can consume its own events.
    pub fn consume_own_events() -> (r: ModuleFlags)
        ensures
            r@ == CONSUME_OWN_EVENTS,
    {
        ModuleFlags { bits: CONSUME_OWN_EVENTS }
    }

    /// The flag of a module in learn mode.
    pub fn learn_mode() -> (r: ModuleFlags)
        ensures
            r@ == LEARN_MODE,
    {
        ModuleFlags { bits: LEARN_MODE }
    }

    /// The flag of bit 6 under its current name.
    pub fn vlcb() -> (r: ModuleFlags)
        ensures
            r@ == VLCB,
    {
        ModuleFlags { bits: VLCB }
    }

    /// The flag of bit 6 under its deprecated name.
    pub fn service_discovery() -> (r: ModuleFlags)
        ensures
            r@ == SERVICE_DISCOVERY,
    {
        ModuleFlags { bits: SERVICE_DISCOVERY }
    }

    /// The byte of the set.
    pub fn bits(&self) -> (b: u8)
        ensures
            b == self@,
    {
        self.bits
    }

    /// The set that `bits` stands for, whatever bits it sets.
    #[verifier::when_used_as_spec(spec_from_bits_retain)]
    pub fn from_bits_retain(bits: u8) -> (r: ModuleFlags)
        ensures
            r == Self::spec_from_bits_retain(bits),
    {
        ModuleFlags { bits }
    }

    /// The set that `bits` stands for, if it sets no bit without a meaning,
    /// which is to say if it leaves the reserved bit 7 clear.
    pub fn from_bits(bits: u8) -> (r: Option<ModuleFlags>)
        ensures
            r == if Self::known(bits) {
                Some(ModuleFlags { bits })
            } else {
                None
            },
            Self::known(bits) <==> bits < 0x80,
    {
        assert((bits & !ALL_FLAGS == 0) <==> bits < 0x80) by (bit_vector);
        if bits & !ALL_FLAGS == 0 {
            Some(ModuleFlags { bits })
        } else {
            None
        }
    }

    /// The set of the bits of `bits` that have a meaning.
    pub fn from_bits_truncate(bits: u8) -> (r: ModuleFlags)
        ensures
            r@ == bits & ALL_FLAGS,
    {
        ModuleFlags { bits: bits & ALL_FLAGS }
    }

    /// Whether the set has no flag.
    pub fn is_empty(&self) -> (b: bool)
        ensures
            b == (self@ == 0),
    {
        self.bits == 0
    }

    /// Whether the set has every flag that has a meaning.
    pub fn is_all(&self) -> (b: bool)
        ensures
            b == self.spec_contains(ModuleFlags { bits: ALL_FLAGS }),
    {
        self.bits & ALL_FLAGS == ALL_FLAGS
    }

    /// Whether every flag of `other` is in `self`.
    #[verifier::when_used_as_spec(spec_contains)]
    pub fn contains(self, other: ModuleFlags) -> (b: bool)
        ensures
            b == self.spec_contains(other),
    {
        self.bits & other.bits == other.bits
    }

    /// Whether some flag is in both `self` and `other`.
    #[verifier::when_used_as_spec(spec_intersects)]
    pub fn intersects(self, other: ModuleFlags) -> (b: bool)
        ensures
            b == self.spec_intersects(other),
    {
        self.bits & other.bits != 0
    }

    /// The flags that are in `self`, in `other` or in both.
    #[verifier::when_used_as_spec(spec_union)]
    pub fn union(self, other: ModuleFlags) -> (r: ModuleFlags)
        ensures
            r == self.spec_union(other),
    {
        ModuleFlags { bits: self.bits | other.bits }
    }

    /// The flags that are in both `self` and `other`.
    #[verifier::when_used_as_spec(spec_intersection)]
    pub fn intersection(self, other: ModuleFlags) -> (r: ModuleFlags)
        ensures
            r == self.spec_intersection(other),
    {
        ModuleFlags { bits: self.bits & other.bits }
    }

    /// The flags that are in `self` and not in `other`.
    #[verifier::when_used_as_spec(spec_difference)]
    pub fn difference(self, other: ModuleFlags) -> (r: ModuleFlags)
        ensures
            r == self.spec_difference(other),
    {
        ModuleFlags { bits: self.bits & !other.bits }
    }

    /// The flags that are in exactly one of `self` and `other`.
    #[verifier::when_used_as_spec(spec_symmetric_difference)]
    pub fn symmetric_difference(self, other: ModuleFlags) -> (r: ModuleFlags)
        ensures
            r == self.spec_symmetric_difference(other),
    {
        ModuleFlags { bits: self.bits ^ other.bits }
    }

    /// The flags with a meaning that are not in `self`.
    #[verifier::when_used_as_spec(spec_complement)]
    pub fn complement(self) -> (r: ModuleFlags)
        ensures
            r == self.spec_complement(),
    {
        ModuleFlags { bits: !self.bits & ALL_FLAGS }
    }

    /// Adds the flags of `other` to the set.
    pub fn insert(&mut self, other: ModuleFlags)
        ensures
            *final(self) == old(self).spec_union(other),
    {
        self.bits = self.bits | other.bits;
    }

    /// Takes the flags of `other` out of the set.
    pub fn remove(&mut self, other: ModuleFlags)
        ensures
            *final(self) == old(self).spec_difference(other),
    {
        self.bits = self.bits & !other.bits;
    }

    /// Turns over, in the set, each flag of `other`.
    pub fn toggle(&mut self, other: ModuleFlags)
        ensures
            *final(self) == old(self).spec_symmetric_difference(other),
    {
        self.bits = self.bits ^ other.bits;
    }

    /// Adds the flags of `other` if `value` holds, and takes them out if not.
    pub fn set(&mut self, other: ModuleFlags, value: bool)
        ensures
            *final(self) == if value {
                old(self).spec_union(other)
            } else {
                old(self).spec_difference(other)
            },
    {
        if value {
            self.insert(other);
        } else {
            self.remove(other);
        }
    }
}

/// A union with itself changes nothing.
pub proof fn lemma_union_idempotent(flags: ModuleFlags)
    ensures
        flags.union(flags) == flags,
{
    let a = flags.bits;
    assert(a | a == a) by (bit_vector);
}

/// What a union has in common with one of its parts is that part, bit for bit.
pub proof fn lemma_union_intersection(a: ModuleFlags, b: ModuleFlags)
    ensures
        a.union(b).intersection(a) == a,
{
    let x = a.bits;
    let y = b.bits;
    assert((x | y) & x == x) by (bit_vector);
}

/// A union contains both of its parts, and whatever contains both parts
/// contains the union.
pub proof fn lemma_union_least_upper_bound(a: ModuleFlags, b: ModuleFlags, c: ModuleFlags)
    ensures
        a.union(b).contains(a),
        a.union(b).contains(b),
        c.contains(a) && c.contains(b) ==> c.contains(a.union(b)),
{
    let x = a.bits;
    let y = b.bits;
    let z = c.bits;
    assert((x | y) & x == x && (x | y) & y == y) by (bit_vector);
    assert(z & x == x && z & y == y ==> z & (x | y) == (x | y)) by (bit_vector);
}

/// A difference has nothing in common with what was taken away, and with
/// it makes up the union.
pub proof fn lemma_difference(a: ModuleFlags, b: ModuleFlags)
    ensures
        !a.difference(b).intersects(b),
        a.difference(b).union(b) == a.union(b),
{
    let x = a.bits;
    let y = b.bits;
    assert((x & !y) & y == 0 && (x & !y) | y == x | y) by (bit_vector);
}

/// Two sets are equal exactly when their bytes are.
pub proof fn lemma_equality_is_bitwise(a: ModuleFlags, b: ModuleFlags)
    ensures
        (a == b) <==> (a@ == b@),
{
}

/// A set goes to its byte and back unchanged, and so does a byte.
pub proof fn lemma_bits_round_trip(flags: ModuleFlags, bits: u8)
    ensures
        ModuleFlags::from_bits_retain(flags@) == flags,
        ModuleFlags::from_bits_retain(bits)@ == bits,
{
}

impl core::ops::BitOr for ModuleFlags {
    type Output = ModuleFlags;

    /// The flags that are in either operand.
    fn bitor(self, rhs: ModuleFlags) -> (r: ModuleFlags) {
        self.union(rhs)
    }
}

impl vstd::std_specs::ops::BitOrSpecImpl for ModuleFlags {
    open spec fn obeys_bitor_spec() -> bool {
        true
    }

    open spec fn bitor_req(self, rhs: ModuleFlags) -> bool {
        true
    }

    open spec fn bitor_spec(self, rhs: ModuleFlags) -> ModuleFlags {
        self.spec_union(rhs)
    }
}

impl core::ops::BitAnd for ModuleFlags {
    type Output = ModuleFlags;

    /// The flags that are in both operands.
    fn bitand(self, rhs: ModuleFlags) -> (r: ModuleFlags) {
        self.intersection(rhs)
    }
}

impl vstd::std_specs::ops::BitAndSpecImpl for ModuleFlags {
    open spec fn obeys_bitand_spec() -> bool {
        true
    }

    open spec fn bitand_req(self, rhs: ModuleFlags) -> bool {
        true
    }

    open spec fn bitand_spec(self, rhs: ModuleFlags) -> ModuleFlags {
        self.spec_intersection(rhs)
    }
}

impl core::ops::BitXor for ModuleFlags {
    type Output = ModuleFlags;

    /// The flags that are in exactly one operand.
    fn bitxor(self, rhs: ModuleFlags) -> (r: ModuleFlags) {
        self.symmetric_difference(rhs)
    }
}

impl vstd::std_specs::ops::BitXorSpecImpl for ModuleFlags {
    open spec fn obeys_bitxor_spec() -> bool {
        true
    }

    open spec fn bitxor_req(self, rhs: ModuleFlags) -> bool {
        true
    }

    open spec fn bitxor_spec(self, rhs: ModuleFlags) -> ModuleFlags {
        self.spec_symmetric_difference(rhs)
    }
}

impl core::ops::Sub for ModuleFlags {
    type Output = ModuleFlags;

    /// The flags of the left operand that are not in the right one.
    fn sub(self, rhs: ModuleFlags) -> (r: ModuleFlags) {
        self.difference(rhs)
    }
}

impl vstd::std_specs::ops::SubSpecImpl for ModuleFlags {
    open spec fn obeys_sub_spec() -> bool {
        true
    }

    open spec fn sub_req(self, rhs: ModuleFlags) -> bool {
        true
    }

    open spec fn sub_spec(self, rhs: ModuleFlags) -> ModuleFlags {
        self.spec_difference(rhs)
    }
}

impl core::ops::Not for ModuleFlags {
    type Output = ModuleFlags;

    /// The flags with a meaning that are not in the operand.
    fn not(self) -> (r: ModuleFlags) {
        self.complement()
    }
}

impl vstd::std_specs::ops::NotSpecImpl for ModuleFlags {
    open spec fn obeys_not_spec() -> bool {
        true
    }

    open spec fn not_req(self) -> bool {
        true
    }

    open spec fn not_spec(self) -> ModuleFlags {
        self.spec_complement()
    }
}

} // verus!
