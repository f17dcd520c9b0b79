//! Mode flags and sets of them.
//!
//! A set of flags is a 32-bit integer in which each flag owns one or more
//! bits. `HasDirection` owns the bits of the three direction flags together,
//! so a set contains it only when it contains all three.

use vstd::prelude::*;
use vstd::string::*;
use vstd::std_specs::ops::BitOrSpecImpl;
use vstd::std_specs::convert::FromSpecImpl;
use crate::data::primitive::{le32, read_u32, u32_bytes, write_u32, lemma_le32_of_bytes};
use crate::data::{Decoded, Encoded, OpenRGBReadable, OpenRGBSymmetric, OpenRGBWritable, has_bytes};
use crate::error::OpenRGBError;
use crate::stream::{ByteSink, ByteSource};
use crate::text::{decimal, decimal_string};

verus! {

/// RGB controller mode flags.
#[derive(Debug, Clone, Copy, PartialEq, Eq, Structural)]
pub enum ModeFlag {
    /// Mode has speed parameter.
    HasSpeed,
    /// Mode has left/right parameter.
    HasDirectionLR,
    /// Mode has up/down parameter.
    HasDirectionUD,
    /// Mode has horiz/vert parameter.
    HasDirectionHV,
    /// Mode has direction parameter.
    HasDirection,
    /// Mode has brightness parameter.
    HasBrightness,
    /// Mode has per-LED colors.
    HasPerLEDColor,
    /// Mode has mode specific colors.
    HasModeSpecificColor,
    /// Mode has random color option.
    HasRandomColor,
    /// Mode can manually be saved.
    ManualSave,
    /// Mode automatically saves.
    AutomaticSave,
}

/// Every bit that some flag owns.
pub const KNOWN_BITS: u32 = 0x3ff;

impl ModeFlag {
    /// The bits that this flag owns.
    pub open spec fn mask(self) -> u32 {
        match self {
            ModeFlag::HasSpeed => 0x001,
            ModeFlag::HasDirectionLR => 0x002,
            ModeFlag::HasDirectionUD => 0x004,
            ModeFlag::HasDirectionHV => 0x008,
            ModeFlag::HasDirection => 0x00e,
            ModeFlag::HasBrightness => 0x010,
            ModeFlag::HasPerLEDColor => 0x020,
            ModeFlag::HasModeSpecificColor => 0x040,
            ModeFlag::HasRandomColor => 0x080,
            ModeFlag::ManualSave => 0x100,
            ModeFlag::AutomaticSave => 0x200,
        }
    }

    /// The bits that this flag owns.
    pub fn bits(self) -> (r: u32)
        ensures
            r == self.mask(),
            known_bits(r),
    {
        let r: u32 = match self {
            ModeFlag::HasSpeed => 0x001,
            ModeFlag::HasDirectionLR => 0x002,
            ModeFlag::HasDirectionUD => 0x004,
            ModeFlag::HasDirectionHV => 0x008,
            ModeFlag::HasDirection => 0x00e,
            ModeFlag::HasBrightness => 0x010,
            ModeFlag::HasPerLEDColor => 0x020,
            ModeFlag::HasModeSpecificColor => 0x040,
            ModeFlag::HasRandomColor => 0x080,
            ModeFlag::ManualSave => 0x100,
            ModeFlag::AutomaticSave => 0x200,
        };
        proof {
            lemma_known_bits_small(r);
        }
        r
    }
}

/// Whether `bits` holds no bit but those that flags own.
pub open spec fn known_bits(bits: u32) -> bool {
    bits & !KNOWN_BITS == 0
}

/// Whether the set `bits` contains `flag`: every bit that the flag owns.
pub open spec fn has_flag(bits: u32, flag: ModeFlag) -> bool {
    bits & flag.mask() == flag.mask()
}

/// The message for an integer with bits that no flag owns.
pub open spec fn invalid_flags_message(bits: u32) -> Seq<char> {
    "Received invalid mode flag set: "@ + decimal(bits as nat) + " (invalid bits)"@
}

/// The integers without foreign bits are those below 1024.
pub proof fn lemma_known_bits_small(bits: u32)
    ensures
        known_bits(bits) <==> bits < 1024,
{
    assert((bits & !0x3ffu32 == 0) <==> bits < 1024) by (bit_vector);
}

/// Joining two sets without foreign bits gives a set without foreign bits.
pub proof fn lemma_union_known(a: u32, b: u32)
    requires
        known_bits(a),
        known_bits(b),
    ensures
        known_bits(a | b),
{
    assert((a & !0x3ffu32 == 0) && (b & !0x3ffu32 == 0) ==> ((a | b) & !0x3ffu32 == 0))
        by (bit_vector);
}

/// The failure to make a set out of an integer with foreign bits.
#[derive(Debug, Clone, Copy, PartialEq, Eq)]
pub struct InvalidBits;

/// A set of mode flags.
#[derive(Debug, Clone, Copy, PartialEq, Eq)]
pub struct FlagSet {
    bits: u32,
}

impl View for FlagSet {
    type V = u32;

    closed spec fn view(&self) -> u32 {
        self.bits
    }
}

impl DeepView for FlagSet {
    type V = u32;

    open spec fn deep_view(&self) -> u32 {
        self@
    }
}

impl FlagSet {
    #[verifier::type_invariant]
    spec fn well_formed(self) -> bool {
        known_bits(self.bits)
    }

    /// The set whose bits are `bits`.
    pub closed spec fn of_bits(bits: u32) -> FlagSet {
        FlagSet { bits }
    }

    /// The set whose bits are `bits`, unless some of them are foreign.
    pub fn new(bits: u32) -> (r: Result<FlagSet, InvalidBits>)
        ensures
            match r {
                Ok(set) => known_bits(bits) && set@ == bits,
                Err(_) => !known_bits(bits),
            },
    {
        if bits & !KNOWN_BITS == 0 {
            let set = FlagSet { bits };
            assert(set.well_formed());
            Ok(set)
        } else {
            Err(InvalidBits)
        }
    }

    /// The set that holds nothing.
    pub fn empty() -> (r: FlagSet)
        ensures
            r@ == 0,
    {
        proof {
            lemma_known_bits_small(0);
        }
        let set = FlagSet { bits: 0 };
        assert(set.well_formed());
        set
    }

    /// The bits of this set.
    pub fn bits(&self) -> (r: u32)
        ensures
            r == self@,
            known_bits(r),
    {
        proof {
            use_type_invariant(self);
        }
        self.bits
    }

    /// Whether this set holds nothing.
    pub fn is_empty(&self) -> (r: bool)
        ensures
            r == (self@ == 0),
    {
        self.bits == 0
    }

    /// Whether this set contains `flag`.
    pub fn contains(&self, flag: ModeFlag) -> (r: bool)
        ensures
            r == has_flag(self@, flag),
    {
        let mask = flag.bits();
        self.bits & mask == mask
    }

    /// This set with everything in `other` added.
    pub fn union(self, other: FlagSet) -> (r: FlagSet)
        ensures
            r@ == self@ | other@,
            r == Self::of_bits(self@ | other@),
    {
        proof {
            use_type_invariant(&self);
            use_type_invariant(&other);
            lemma_union_known(self.bits, other.bits);
        }
        let set = FlagSet { bits: self.bits | other.bits };
        assert(set.well_formed());
        set
    }
}

impl Default for FlagSet {
    fn default() -> (r: FlagSet)
        ensures
            r@ == 0,
    {
        FlagSet::empty()
    }
}

impl From<ModeFlag> for FlagSet {
    fn from(flag: ModeFlag) -> (r: FlagSet)
        ensures
            r@ == flag.mask(),
    {
        let ghost expected = FlagSet::of_bits(flag.mask());
        let set = FlagSet { bits: flag.bits() };
        assert(set.well_formed());
        set
    }
}

impl FromSpecImpl<ModeFlag> for FlagSet {
    open spec fn obeys_from_spec() -> bool {
        true
    }

    open spec fn from_spec(flag: ModeFlag) -> FlagSet {
        FlagSet::of_bits(flag.mask())
    }
}

impl core::ops::BitOr<ModeFlag> for ModeFlag {
    type Output = FlagSet;

    fn bitor(self, rhs: ModeFlag) -> (r: FlagSet)
        ensures
            r@ == self.mask() | rhs.mask(),
    {
        let ghost expected = FlagSet::of_bits(self.mask() | rhs.mask());
        FlagSet::from(self).union(FlagSet::from(rhs))
    }
}

impl BitOrSpecImpl<ModeFlag> for ModeFlag {
    open spec fn obeys_bitor_spec() -> bool {
        true
    }

    open spec fn bitor_req(self, rhs: ModeFlag) -> bool {
        true
    }

    open spec fn bitor_spec(self, rhs: ModeFlag) -> FlagSet {
        FlagSet::of_bits(self.mask() | rhs.mask())
    }
}

impl core::ops::BitOr<ModeFlag> for FlagSet {
    type Output = FlagSet;

    fn bitor(self, rhs: ModeFlag) -> (r: FlagSet)
        ensures
            r@ == self@ | rhs.mask(),
    {
        let ghost expected = FlagSet::of_bits(self@ | rhs.mask());
        self.union(FlagSet::from(rhs))
    }
}

impl BitOrSpecImpl<ModeFlag> for FlagSet {
    open spec fn obeys_bitor_spec() -> bool {
        true
    }

    open spec fn bitor_req(self, rhs: ModeFlag) -> bool {
        true
    }

    open spec fn bitor_spec(self, rhs: ModeFlag) -> FlagSet {
        FlagSet::of_bits(self@ | rhs.mask())
    }
}

/// Builds the message for an integer with bits that no flag owns.
pub fn invalid_flags(bits: u32) -> (s: String)
    ensures
        s@ == invalid_flags_message(bits),
{
    let s = String::from_str("Received invalid mode flag set: ");
    let s = s.concat(decimal_string(bits as u64).as_str());
    s.concat(" (invalid bits)")
}

impl OpenRGBReadable for FlagSet {
    open spec fn decode(data: Seq<u8>, at: int, protocol: u32) -> Decoded<u32> {
        if !has_bytes(data, at, 4) {
            Decoded::Short
        } else if known_bits(le32(data, at)) {
            Decoded::Value { value: le32(data, at), next: at + 4 }
        } else {
            Decoded::Invalid { message: invalid_flags_message(le32(data, at)), next: at + 4 }
        }
    }

    fn read<S: ByteSource>(stream: &mut S, protocol: u32) -> (r: Result<Self, OpenRGBError>) {
        let ghost expected = Self::decode(stream.data(), stream.pos(), protocol);
        match read_u32(stream) {
            Ok(bits) => match FlagSet::new(bits) {
                Ok(set) => Ok(set),
                Err(_) => Err(OpenRGBError::ProtocolError(invalid_flags(bits))),
            },
            Err(e) => Err(e),
        }
    }
}

impl OpenRGBWritable for FlagSet {
    open spec fn wire_size(value: u32, protocol: u32) -> nat {
        4
    }

    open spec fn encode(value: u32, protocol: u32) -> Encoded {
        Encoded::Bytes { bytes: u32_bytes(value) }
    }

    proof fn lemma_encoded_size(value: u32, protocol: u32) {
        assert(Self::encode(value, protocol) matches Encoded::Bytes { bytes } ==> bytes.len()
            == Self::wire_size(value, protocol));
    }

    fn size(&self, protocol: u32) -> (n: usize) {
        let ghost declared = Self::wire_size(self.deep_view(), protocol);
        4
    }

    fn write<W: ByteSink>(&self, stream: &mut W, protocol: u32) -> (r: Result<(), OpenRGBError>) {
        let ghost expected = Self::encode(self.deep_view(), protocol);
        write_u32(stream, self.bits());
        Ok(())
    }
}

impl OpenRGBSymmetric for FlagSet {
    open spec fn round_trips(value: u32, protocol: u32) -> bool {
        known_bits(value)
    }

    proof fn lemma_round_trip(value: u32, protocol: u32, before: Seq<u8>, after: Seq<u8>) {
        lemma_le32_of_bytes(value, before, after);
        assert(Self::round_trips(value, protocol) && Self::decode(
            before + Self::encode(value, protocol)->bytes + after,
            before.len() as int,
            protocol,
        ) is Value);
    }
}

} // verus!
