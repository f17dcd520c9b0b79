//! The kinds of zone that a controller can have.

use vstd::prelude::*;
use crate::data::primitive::{le32, read_u32, u32_bytes, write_u32, lemma_le32_of_bytes};
use crate::data::{
    Decoded, Encoded, OpenRGBReadable, OpenRGBSymmetric, OpenRGBWritable, has_bytes,
    unknown_code, unknown_code_message,
};
use crate::error::OpenRGBError;
use crate::stream::{ByteSink, ByteSource};

verus! {

/// RGB controller zone type.
#[derive(Debug, Clone, Copy, PartialEq, Eq, Structural)]
pub enum ZoneType {
    /// Single zone.
    Single,
    /// Linear zone.
    Linear,
    /// Matrix zone.
    Matrix,
}

impl ZoneType {
    /// The integer that stands for this value on the wire.
    pub open spec fn code(self) -> u32 {
        match self {
            ZoneType::Single => 0,
            ZoneType::Linear => 1,
            ZoneType::Matrix => 2,
        }
    }

    /// The value that `code` stands for, if there is one.
    pub open spec fn from_code(code: u32) -> Option<ZoneType> {
        if code == 0 {
            Some(ZoneType::Single)
        } else if code == 1 {
            Some(ZoneType::Linear)
        } else if code == 2 {
            Some(ZoneType::Matrix)
        } else {
            None
        }
    }

    /// Every value is the one that its own code stands for.
    pub proof fn lemma_code_known(self)
        ensures
            Self::from_code(self.code()) == Some(self),
    {
    }

    /// The value that `n` stands for, if there is one.
    pub fn from_u32(n: u32) -> (r: Option<ZoneType>)
        ensures
            r == Self::from_code(n),
    {
        if n == 0 {
            Some(ZoneType::Single)
        } else if n == 1 {
            Some(ZoneType::Linear)
        } else if n == 2 {
            Some(ZoneType::Matrix)
        } else {
            None
        }
    }

    /// The integer that stands for this value on the wire.
    pub fn wire_code(&self) -> (r: u32)
        ensures
            r == self.code(),
    {
        match self {
            ZoneType::Single => 0,
            ZoneType::Linear => 1,
            ZoneType::Matrix => 2,
        }
    }

    /// The integer that stands for this value on the wire. Every value
    /// has one.
    pub fn to_u32(&self) -> (r: Option<u32>)
        ensures
            r == Some(self.code()),
    {
        Some(self.wire_code())
    }
}

impl DeepView for ZoneType {
    type V = ZoneType;

    open spec fn deep_view(&self) -> ZoneType {
        *self
    }
}

impl OpenRGBReadable for ZoneType {
    open spec fn decode(data: Seq<u8>, at: int, protocol: u32) -> Decoded<ZoneType> {
        if has_bytes(data, at, 4) {
            match ZoneType::from_code(le32(data, at)) {
                Some(value) => Decoded::Value { value, next: at + 4 },
                None => Decoded::Invalid {
                    message: unknown_code_message("unknown zone type \""@, le32(data, at)),
                    next: at + 4,
                },
            }
        } else {
            Decoded::Short
        }
    }

    fn read<S: ByteSource>(stream: &mut S, protocol: u32) -> (r: Result<Self, OpenRGBError>) {
        let ghost expected = Self::decode(stream.data(), stream.pos(), protocol);
        match read_u32(stream) {
            Ok(code) => match ZoneType::from_u32(code) {
                Some(value) => Ok(value),
                None => Err(OpenRGBError::ProtocolError(unknown_code("unknown zone type \"", code))),
            },
            Err(e) => Err(e),
        }
    }
}

impl OpenRGBWritable for ZoneType {
    open spec fn wire_size(value: ZoneType, protocol: u32) -> nat {
        4
    }

    open spec fn encode(value: ZoneType, protocol: u32) -> Encoded {
        Encoded::Bytes { bytes: u32_bytes(value.code()) }
    }

    proof fn lemma_encoded_size(value: ZoneType, protocol: u32) {
        assert(Self::encode(value, protocol) matches Encoded::Bytes { bytes } ==> bytes.len()
            == Self::wire_size(value, protocol));
    }

    fn size(&self, protocol: u32) -> (n: usize) {
        let ghost declared = Self::wire_size(self.deep_view(), protocol);
        4
    }

    fn write<W: ByteSink>(&self, stream: &mut W, protocol: u32) -> (r: Result<(), OpenRGBError>) {
        let ghost expected = Self::encode(self.deep_view(), protocol);
        write_u32(stream, self.wire_code());
        Ok(())
    }
}

impl OpenRGBSymmetric for ZoneType {
    open spec fn round_trips(value: ZoneType, protocol: u32) -> bool {
        true
    }

    proof fn lemma_round_trip(value: ZoneType, protocol: u32, before: Seq<u8>, after: Seq<u8>) {
        lemma_le32_of_bytes(value.code(), before, after);
        assert(Self::round_trips(value, protocol) && Self::decode(
            before + Self::encode(value, protocol)->bytes + after,
            before.len() as int,
            protocol,
        ) is Value);
    }
}

} // verus!
