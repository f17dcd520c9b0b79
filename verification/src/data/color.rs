//! Colors: three channels and one byte of padding on the wire.

use vstd::prelude::*;
use crate::data::{Decoded, Encoded, OpenRGBReadable, OpenRGBSymmetric, OpenRGBWritable, has_bytes};
use crate::error::OpenRGBError;
use crate::stream::{ByteSink, ByteSource};

verus! {

/// RGB controller color: eight bits for each of red, green and blue.
#[derive(Debug, Clone, Copy, PartialEq, Eq, Structural, Hash)]
pub struct Color {
    /// Red.
    pub r: u8,
    /// Green.
    pub g: u8,
    /// Blue.
    pub b: u8,
}

impl Default for Color {
    fn default() -> (c: Color)
        ensures
            c == (Color { r: 0, g: 0, b: 0 }),
    {
        Color { r: 0, g: 0, b: 0 }
    }
}

impl DeepView for Color {
    type V = Color;

    open spec fn deep_view(&self) -> Color {
        *self
    }
}

/// The four bytes of a color: red, green, blue and a zero.
pub open spec fn color_bytes(color: Color) -> Seq<u8> {
    seq![color.r, color.g, color.b, 0u8]
}

impl OpenRGBReadable for Color {
    open spec fn decode(data: Seq<u8>, at: int, protocol: u32) -> Decoded<Color> {
        if has_bytes(data, at, 4) {
            Decoded::Value {
                value: Color { r: data[at], g: data[at + 1], b: data[at + 2] },
                next: at + 4,
            }
        } else {
            Decoded::Short
        }
    }

    fn read<S: ByteSource>(stream: &mut S, protocol: u32) -> (r: Result<Self, OpenRGBError>) {
        let ghost expected = Self::decode(stream.data(), stream.pos(), protocol);
        match stream.read_exact(4) {
            Ok(bytes) => Ok(Color { r: bytes[0], g: bytes[1], b: bytes[2] }),
            Err(e) => Err(e),
        }
    }
}

impl OpenRGBWritable for Color {
    open spec fn wire_size(value: Color, protocol: u32) -> nat {
        4
    }

    open spec fn encode(value: Color, protocol: u32) -> Encoded {
        Encoded::Bytes { bytes: color_bytes(value) }
    }

    proof fn lemma_encoded_size(value: Color, protocol: u32) {
        assert(Self::encode(value, protocol) matches Encoded::Bytes { bytes } ==> bytes.len()
            == Self::wire_size(value, protocol));
    }

    fn size(&self, protocol: u32) -> (n: usize) {
        let ghost declared = Self::wire_size(self.deep_view(), protocol);
        4
    }

    fn write<W: ByteSink>(&self, stream: &mut W, protocol: u32) -> (r: Result<(), OpenRGBError>) {
        let ghost expected = Self::encode(self.deep_view(), protocol);
        let mut bytes: Vec<u8> = Vec::new();
        bytes.push(self.r);
        bytes.push(self.g);
        bytes.push(self.b);
        bytes.push(0u8);
        assert(bytes@ =~= color_bytes(*self));
        stream.write_all(bytes.as_slice());
        Ok(())
    }
}

impl OpenRGBSymmetric for Color {
    open spec fn round_trips(value: Color, protocol: u32) -> bool {
        true
    }

    proof fn lemma_round_trip(value: Color, protocol: u32, before: Seq<u8>, after: Seq<u8>) {
        let data = before + color_bytes(value) + after;
        let at = before.len() as int;
        assert(data[at] == color_bytes(value)[0]);
        assert(data[at + 1] == color_bytes(value)[1]);
        assert(data[at + 2] == color_bytes(value)[2]);
        assert(Self::round_trips(value, protocol) && Self::decode(
            before + Self::encode(value, protocol)->bytes + after,
            before.len() as int,
            protocol,
        ) is Value);
    }
}

} // verus!
