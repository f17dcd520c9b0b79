//! OpenRGB data types and their wire codec.
//!
//! Every type that travels on the wire states, as a function on bytes, what
//! it decodes from and what it encodes to, for a given protocol version.

use vstd::prelude::*;
use crate::error::OpenRGBError;
use crate::stream::{ByteSink, ByteSource};
use crate::text::{decimal, decimal_string};
use vstd::string::*;

pub mod color;
pub mod color_mode;
pub mod controller;
pub mod device_type;
pub mod direction;
pub mod led;
pub mod mode;
pub mod mode_flag;
pub mod packet;
pub mod primitive;
pub mod string;
pub mod tuple;
pub mod vec;
pub mod zone;
pub mod zone_type;

pub use color::Color;
pub use color_mode::ColorMode;
pub use controller::{Controller, ControllerView};
pub use device_type::DeviceType;
pub use direction::Direction;
pub use led::{LED, LEDView};
pub use mode::{Mode, ModeView};
pub use mode_flag::{FlagSet, InvalidBits, ModeFlag};
pub use packet::PacketId;
pub use string::RawString;
pub use zone::{MatrixView, Zone, ZoneView};
pub use zone_type::ZoneType;

verus! {

/// What the bytes of a stream decode to, starting at a given position.
pub enum Decoded<V> {
    /// A value was read; `next` is the position just past its last byte.
    Value { value: V, next: int },
    /// The bytes violate the protocol; `next` is the position reached when
    /// that was found out.
    Invalid { message: Seq<char>, next: int },
    /// The stream ended before the value was complete.
    Short,
}

/// What a value encodes to.
pub enum Encoded {
    /// The complete encoding.
    Bytes { bytes: Seq<u8> },
    /// The value cannot be encoded; `sent` holds what was written before
    /// that was found out.
    Refused { message: Seq<char>, sent: Seq<u8> },
}

impl<V> Decoded<V> {
    /// The same outcome, with `f` applied to the value that was read.
    pub open spec fn map<W>(self, f: spec_fn(V) -> W) -> Decoded<W> {
        match self {
            Decoded::Value { value, next } => Decoded::Value { value: f(value), next },
            Decoded::Invalid { message, next } => Decoded::Invalid { message, next },
            Decoded::Short => Decoded::Short,
        }
    }
}

impl Encoded {
    /// The encoding of one value followed by that of another: the second is
    /// written only once the first is complete.
    pub open spec fn followed_by(self, tail: Encoded) -> Encoded {
        match self {
            Encoded::Bytes { bytes: head } => match tail {
                Encoded::Bytes { bytes } => Encoded::Bytes { bytes: head + bytes },
                Encoded::Refused { message, sent } => Encoded::Refused {
                    message,
                    sent: head + sent,
                },
            },
            Encoded::Refused { message, sent } => Encoded::Refused { message, sent },
        }
    }
}

/// A size as the machine holds it: the size itself, or the largest integer
/// that the machine has where the size is larger.
pub open spec fn capped(size: nat) -> usize {
    if size <= usize::MAX {
        size as usize
    } else {
        usize::MAX
    }
}

/// Whether `data` holds `count` bytes from position `at` on.
pub open spec fn has_bytes(data: Seq<u8>, at: int, count: int) -> bool {
    0 <= at && at + count <= data.len()
}

/// The message for an integer that names no value of an enumeration: `what`,
/// the integer, and a closing quotation mark.
pub open spec fn unknown_code_message(what: Seq<char>, code: u32) -> Seq<char> {
    what + decimal(code as nat) + "\""@
}

/// Builds the message for an integer that names no value of an enumeration.
pub fn unknown_code(what: &str, code: u32) -> (s: String)
    ensures
        s@ == unknown_code_message(what@, code),
{
    let s = String::from_str(what);
    let s = s.concat(decimal_string(code as u64).as_str());
    s.concat("\"")
}

/// What the message for a string whose bytes are not UTF-8 begins with.
/// The reason that the standard library gives for the failure follows.
pub open spec fn invalid_utf8_message() -> Seq<char> {
    "Failed decoding string as UTF-8: "@
}

/// Whether `actual` is the message that `stated` calls for. Every message
/// is fixed in full but one: a string whose bytes are not UTF-8 is reported
/// with the stated text and, after it, the standard library's reason,
/// which the codec passes on as it comes.
pub open spec fn message_matches(stated: Seq<char>, actual: Seq<char>) -> bool {
    ||| actual == stated
    ||| stated == invalid_utf8_message() && stated.is_prefix_of(actual)
}

/// Whether the result `r` of a read, which left the stream at `pos` out of
/// `len` bytes, is the one that `expected` calls for.
pub open spec fn read_matches<T: DeepView>(
    expected: Decoded<T::V>,
    r: Result<T, OpenRGBError>,
    pos: int,
    len: int,
) -> bool {
    match expected {
        Decoded::Value { value, next } => r matches Ok(v) && v.deep_view() == value && pos == next,
        Decoded::Invalid { message, next } => r matches Err(OpenRGBError::ProtocolError(m))
            && message_matches(message, m@) && pos == next,
        Decoded::Short => r matches Err(OpenRGBError::CommunicationError { .. }) && pos == len,
    }
}

/// Whether the result `r` of a write, which turned the sink's contents from
/// `before` into `after`, is the one that `expected` calls for.
pub open spec fn write_matches(
    expected: Encoded,
    r: Result<(), OpenRGBError>,
    before: Seq<u8>,
    after: Seq<u8>,
) -> bool {
    match expected {
        Encoded::Bytes { bytes } => r is Ok && after == before + bytes,
        Encoded::Refused { message, sent } => r matches Err(OpenRGBError::ProtocolError(m)) && m@
            == message && after == before + sent,
    }
}

/// A value that can be decoded from a stream.
pub trait OpenRGBReadable: Sized + DeepView {
    /// What `data` decodes to from position `at` on.
    spec fn decode(data: Seq<u8>, at: int, protocol: u32) -> Decoded<Self::V>;

    /// Reads one value from `stream`.
    fn read<S: ByteSource>(stream: &mut S, protocol: u32) -> (r: Result<Self, OpenRGBError>)
        ensures
            final(stream).data() == old(stream).data(),
            read_matches(
                Self::decode(old(stream).data(), old(stream).pos(), protocol),
                r,
                final(stream).pos(),
                old(stream).data().len() as int,
            ),
    ;
}

/// A value that can be encoded onto a stream.
pub trait OpenRGBWritable: Sized + DeepView {
    /// The number of bytes that the encoding of `value` is declared to take.
    spec fn wire_size(value: Self::V, protocol: u32) -> nat;

    /// What `value` encodes to.
    spec fn encode(value: Self::V, protocol: u32) -> Encoded;

    /// A complete encoding is as long as declared.
    proof fn lemma_encoded_size(value: Self::V, protocol: u32)
        ensures
            Self::encode(value, protocol) matches Encoded::Bytes { bytes } ==> bytes.len()
                == Self::wire_size(value, protocol),
    ;

    /// The declared size of the encoding of `self`, capped at the largest
    /// integer that the machine has.
    fn size(&self, protocol: u32) -> (n: usize)
        ensures
            n == capped(Self::wire_size(self.deep_view(), protocol)),
    ;

    /// Writes `self` to `stream`.
    fn write<W: ByteSink>(&self, stream: &mut W, protocol: u32) -> (r: Result<(), OpenRGBError>)
        ensures
            write_matches(
                Self::encode(self.deep_view(), protocol),
                r,
                old(stream).written(),
                final(stream).written(),
            ),
    ;
}

/// A value that can be both encoded and decoded.
pub trait OpenRGBSymmetric: OpenRGBReadable + OpenRGBWritable {
    /// The values that decoding gives back unchanged after encoding.
    spec fn round_trips(value: <Self as DeepView>::V, protocol: u32) -> bool;

    /// Wherever the encoding of such a value stands in a stream, decoding
    /// from its first byte yields the value and ends just past its last byte.
    proof fn lemma_round_trip(
        value: <Self as DeepView>::V,
        protocol: u32,
        before: Seq<u8>,
        after: Seq<u8>,
    )
        requires
            Self::round_trips(value, protocol),
        ensures
            Self::encode(value, protocol) matches Encoded::Bytes { bytes } && Self::decode(
                before + bytes + after,
                before.len() as int,
                protocol,
            ) == (Decoded::Value { value, next: (before.len() + bytes.len()) as int }),
    ;
}

} // verus!
