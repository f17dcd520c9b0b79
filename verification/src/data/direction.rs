//! The directions in which a mode can run.

use vstd::prelude::*;
use crate::data::primitive::{le32, read_u32, u32_bytes, write_u32, lemma_le32_of_bytes};
use crate::data::{
    Decoded, Encoded, OpenRGBReadable, OpenRGBSymmetric, OpenRGBWritable, has_bytes,
    unknown_code, unknown_code_message,
};
use crate::error::OpenRGBError;
use crate::stream::{ByteSink, ByteSource};

verus! {

/// Direction for a mode.
#[derive(Debug, Clone, Copy, PartialEq, Eq, Structural)]
pub enum Direction {
    /// Left direction.
    Left,
    /// Right direction.
    Right,
    /// Up direction.
    Up,
    /// Down direction.
    Down,
    /// Horizontal direction.
    Horizontal,
    /// Vertical direction.
    Vertical,
}

impl Direction {
    /// The integer that stands for this value on the wire.
    pub open spec fn code(self) -> u32 {
        match self {
            Direction::Left => 0,
            Direction::Right => 1,
            Direction::Up => 2,
            Direction::Down => 3,
            Direction::Horizontal => 4,
            Direction::Vertical => 5,
        }
    }

    /// The value that `code` stands for, if there is one.
    pub open spec fn from_code(code: u32) -> Option<Direction> {
        if code == 0 {
            Some(Direction::Left)
        } else if code == 1 {
            Some(Direction::Right)
        } else if code == 2 {
            Some(Direction::Up)
        } else if code == 3 {
            Some(Direction::Down)
        } else if code == 4 {
            Some(Direction::Horizontal)
        } else if code == 5 {
            Some(Direction::Vertical)
        } else {
            None
        }
    }

    /// Every value is the one that its own code stands for.
    pub proof fn lemma_code_known(self)
        ensures
            Self::from_code(self.code()) == Some(self),
    {
    }

    /// The value that `n` stands for, if there is one.
    pub fn from_u32(n: u32) -> (r: Option<Direction>)
        ensures
            r == Self::from_code(n),
    {
        if n == 0 {
            Some(Direction::Left)
        } else if n == 1 {
            Some(Direction::Right)
        } else if n == 2 {
            Some(Direction::Up)
        } else if n == 3 {
            Some(Direction::Down)
        } else if n == 4 {
            Some(Direction::Horizontal)
        } else if n == 5 {
            Some(Direction::Vertical)
        } else {
            None
        }
    }

    /// The integer that stands for this value on the wire.
    pub fn wire_code(&self) -> (r: u32)
        ensures
            r == self.code(),
    {
        match self {
            Direction::Left => 0,
            Direction::Right => 1,
            Direction::Up => 2,
            Direction::Down => 3,
            Direction::Horizontal => 4,
            Direction::Vertical => 5,
        }
    }

    /// The integer that stands for this value on the wire. Every value
    /// has one.
    pub fn to_u32(&self) -> (r: Option<u32>)
        ensures
            r == Some(self.code()),
    {
        Some(self.wire_code())
    }
}

impl Default for Direction {
    fn default() -> (r: Direction)
        ensures
            r == Direction::Left,
    {
        Direction::Left
    }
}

impl DeepView for Direction {
    type V = Direction;

    open spec fn deep_view(&self) -> Direction {
        *self
    }
}

impl OpenRGBReadable for Direction {
    open spec fn decode(data: Seq<u8>, at: int, protocol: u32) -> Decoded<Direction> {
        if has_bytes(data, at, 4) {
            match Direction::from_code(le32(data, at)) {
                Some(value) => Decoded::Value { value, next: at + 4 },
                None => Decoded::Invalid {
                    message: unknown_code_message("unknown direction \""@, le32(data, at)),
                    next: at + 4,
                },
            }
        } else {
            Decoded::Short
        }
    }

    fn read<S: ByteSource>(stream: &mut S, protocol: u32) -> (r: Result<Self, OpenRGBError>) {
        let ghost expected = Self::decode(stream.data(), stream.pos(), protocol);
        match read_u32(stream) {
            Ok(code) => match Direction::from_u32(code) {
                Some(value) => Ok(value),
                None => Err(OpenRGBError::ProtocolError(unknown_code("unknown direction \"", code))),
            },
            Err(e) => Err(e),
        }
    }
}

impl OpenRGBWritable for Direction {
    open spec fn wire_size(value: Direction, protocol: u32) -> nat {
        4
    }

    open spec fn encode(value: Direction, protocol: u32) -> Encoded {
        Encoded::Bytes { bytes: u32_bytes(value.code()) }
    }

    proof fn lemma_encoded_size(value: Direction, protocol: u32) {
        assert(Self::encode(value, protocol) matches Encoded::Bytes { bytes } ==> bytes.len()
            == Self::wire_size(value, protocol));
    }

    fn size(&self, protocol: u32) -> (n: usize) {
        let ghost declared = Self::wire_size(self.deep_view(), protocol);
        4
    }

    fn write<W: ByteSink>(&self, stream: &mut W, protocol: u32) -> (r: Result<(), OpenRGBError>) {
        let ghost expected = Self::encode(self.deep_view(), protocol);
        write_u32(stream, self.wire_code());
        Ok(())
    }
}

impl OpenRGBSymmetric for Direction {
    open spec fn round_trips(value: Direction, protocol: u32) -> bool {
        true
    }

    proof fn lemma_round_trip(value: Direction, protocol: u32, before: Seq<u8>, after: Seq<u8>) {
        lemma_le32_of_bytes(value.code(), before, after);
        assert(Self::round_trips(value, protocol) && Self::decode(
            before + Self::encode(value, protocol)->bytes + after,
            before.len() as int,
            protocol,
        ) is Value);
    }
}

} // verus!
