//! Fixed-width integers and the empty value. Integers are little-endian.

use vstd::prelude::*;
use vstd::string::*;
use crate::data::{
    Decoded, Encoded, OpenRGBReadable, OpenRGBSymmetric, OpenRGBWritable, has_bytes, read_matches,
};
use crate::error::OpenRGBError;
use crate::stream::{ByteSink, ByteSource};
use crate::text::{decimal, decimal_string};

verus! {

/// The two bytes of `x`, least significant first.
pub open spec fn u16_bytes(x: u16) -> Seq<u8> {
    seq![(x % 256) as u8, (x / 256) as u8]
}

/// The four bytes of `x`, least significant first.
pub open spec fn u32_bytes(x: u32) -> Seq<u8> {
    seq![(x % 256) as u8, (x / 256 % 256) as u8, (x / 65536 % 256) as u8, (x / 16777216) as u8]
}

/// The unsigned integer with the same 32 bits as `x` in two's complement.
pub open spec fn i32_bits(x: i32) -> u32 {
    if x >= 0 {
        x as u32
    } else {
        (x + 0x1_0000_0000) as u32
    }
}

/// The signed integer with the same 32 bits as `x` in two's complement.
pub open spec fn bits_i32(x: u32) -> i32 {
    if x < 0x8000_0000 {
        x as i32
    } else {
        (x - 0x1_0000_0000) as i32
    }
}

/// The four bytes of `x` in two's complement, least significant first.
pub open spec fn i32_bytes(x: i32) -> Seq<u8> {
    u32_bytes(i32_bits(x))
}

/// The integer that the two bytes of `data` from `at` on stand for.
pub open spec fn le16(data: Seq<u8>, at: int) -> u16 {
    (data[at] as int + 256 * (data[at + 1] as int)) as u16
}

/// The integer that the four bytes of `data` from `at` on stand for.
pub open spec fn le32(data: Seq<u8>, at: int) -> u32 {
    (data[at] as int + 256 * (data[at + 1] as int) + 65536 * (data[at + 2] as int) + 16777216 * (
    data[at + 3] as int)) as u32
}

/// What `data` decodes to as a 16-bit integer, from `at` on.
pub open spec fn decode_u16(data: Seq<u8>, at: int) -> Decoded<u16> {
    if has_bytes(data, at, 2) {
        Decoded::Value { value: le16(data, at), next: at + 2 }
    } else {
        Decoded::Short
    }
}

/// What `data` decodes to as a 32-bit integer, from `at` on.
pub open spec fn decode_u32(data: Seq<u8>, at: int) -> Decoded<u32> {
    if has_bytes(data, at, 4) {
        Decoded::Value { value: le32(data, at), next: at + 4 }
    } else {
        Decoded::Short
    }
}

/// What a size encodes to: four bytes, where it fits them.
pub open spec fn encode_size(size: usize) -> Encoded {
    if size <= u32::MAX {
        Encoded::Bytes { bytes: u32_bytes(size as u32) }
    } else {
        Encoded::Refused { message: size_too_large_message(size as nat), sent: Seq::empty() }
    }
}

/// The message for a size that does not fit the four bytes of its field.
pub open spec fn size_too_large_message(size: nat) -> Seq<char> {
    "Data size is too large to encode: "@ + decimal(size)
        + " (out of range integral type conversion attempted)"@
}

/// Reads two bytes as a little-endian integer.
pub fn read_u16<S: ByteSource>(stream: &mut S) -> (r: Result<u16, OpenRGBError>)
    ensures
        final(stream).data() == old(stream).data(),
        read_matches(
            decode_u16(old(stream).data(), old(stream).pos()),
            r,
            final(stream).pos(),
            old(stream).data().len() as int,
        ),
{
    match stream.read_exact(2) {
        Ok(bytes) => {
            let lo: u16 = bytes[0] as u16;
            let hi: u16 = bytes[1] as u16;
            Ok(lo + 256 * hi)
        },
        Err(e) => Err(e),
    }
}

/// Reads four bytes as a little-endian integer.
pub fn read_u32<S: ByteSource>(stream: &mut S) -> (r: Result<u32, OpenRGBError>)
    ensures
        final(stream).data() == old(stream).data(),
        read_matches(
            decode_u32(old(stream).data(), old(stream).pos()),
            r,
            final(stream).pos(),
            old(stream).data().len() as int,
        ),
{
    match stream.read_exact(4) {
        Ok(bytes) => {
            let b0: u32 = bytes[0] as u32;
            let b1: u32 = bytes[1] as u32;
            let b2: u32 = bytes[2] as u32;
            let b3: u32 = bytes[3] as u32;
            Ok(b0 + 256 * b1 + 65536 * b2 + 16777216 * b3)
        },
        Err(e) => Err(e),
    }
}

/// Writes `x` as two little-endian bytes.
pub fn write_u16<W: ByteSink>(stream: &mut W, x: u16)
    ensures
        final(stream).written() == old(stream).written() + u16_bytes(x),
{
    let mut bytes: Vec<u8> = Vec::new();
    bytes.push((x % 256) as u8);
    bytes.push((x / 256) as u8);
    assert(bytes@ =~= u16_bytes(x));
    stream.write_all(bytes.as_slice());
}

/// Writes `x` as four little-endian bytes.
pub fn write_u32<W: ByteSink>(stream: &mut W, x: u32)
    ensures
        final(stream).written() == old(stream).written() + u32_bytes(x),
{
    let mut bytes: Vec<u8> = Vec::new();
    bytes.push((x % 256) as u8);
    bytes.push((x / 256 % 256) as u8);
    bytes.push((x / 65536 % 256) as u8);
    bytes.push((x / 16777216) as u8);
    assert(bytes@ =~= u32_bytes(x));
    stream.write_all(bytes.as_slice());
}

/// The bytes of `words`, one word after the other.
pub open spec fn words_bytes(words: Seq<u32>) -> Seq<u8>
    decreases words.len(),
{
    if words.len() == 0 {
        Seq::empty()
    } else {
        words_bytes(words.drop_last()) + u32_bytes(words.last())
    }
}

/// Writes each of `words` as four little-endian bytes.
pub fn write_words<W: ByteSink>(stream: &mut W, words: &Vec<u32>)
    ensures
        final(stream).written() == old(stream).written() + words_bytes(words@),
{
    let mut i: usize = 0;
    assert(words@.take(0) =~= Seq::empty());
    assert(stream.written() =~= old(stream).written() + Seq::<u8>::empty());
    while i < words.len()
        invariant
            i <= words.len(),
            stream.written() == old(stream).written() + words_bytes(words@.take(i as int)),
        decreases words.len() - i,
    {
        let ghost head = words_bytes(words@.take(i as int));
        write_u32(stream, words[i]);
        i += 1;
        assert(words@.take(i as int).drop_last() =~= words@.take(i - 1));
        assert(stream.written() =~= old(stream).written() + (head + u32_bytes(words@[i - 1])));
    }
    assert(words@.take(i as int) =~= words@);
}

/// The unsigned integer with the same 32 bits as `x`.
pub fn i32_to_bits(x: i32) -> (bits: u32)
    ensures
        bits == i32_bits(x),
{
    if x >= 0 {
        x as u32
    } else {
        let wide: i64 = x as i64 + 0x1_0000_0000;
        wide as u32
    }
}

/// Words take four bytes each.
pub proof fn lemma_words_len(words: Seq<u32>)
    ensures
        words_bytes(words).len() == 4 * words.len(),
    decreases words.len(),
{
    if words.len() > 0 {
        lemma_words_len(words.drop_last());
    }
}

/// Wherever the bytes of some words stand in a stream, each word decodes
/// from its own four bytes.
pub proof fn lemma_words_at(words: Seq<u32>, before: Seq<u8>, after: Seq<u8>, i: int)
    requires
        0 <= i < words.len(),
    ensures
        le32(before + words_bytes(words) + after, before.len() + 4 * i) == words[i],
        has_bytes(before + words_bytes(words) + after, before.len() + 4 * i, 4),
    decreases words.len(),
{
    let front = words.drop_last();
    let data = before + words_bytes(words) + after;
    lemma_words_len(front);
    if i == words.len() - 1 {
        lemma_le32_of_bytes(words.last(), before + words_bytes(front), after);
        assert(data =~= (before + words_bytes(front)) + u32_bytes(words.last()) + after);
    } else {
        lemma_words_at(front, before, u32_bytes(words.last()) + after, i);
        assert(data =~= before + words_bytes(front) + (u32_bytes(words.last()) + after));
    }
}

/// Decoding the bytes of a 16-bit integer gives the integer back.
pub proof fn lemma_le16_of_bytes(x: u16, before: Seq<u8>, after: Seq<u8>)
    ensures
        le16(before + u16_bytes(x) + after, before.len() as int) == x,
        has_bytes(before + u16_bytes(x) + after, before.len() as int, 2),
{
    let data = before + u16_bytes(x) + after;
    let at = before.len() as int;
    assert(data[at] == u16_bytes(x)[0]);
    assert(data[at + 1] == u16_bytes(x)[1]);
}

/// Decoding the bytes of a 32-bit integer gives the integer back.
pub proof fn lemma_le32_of_bytes(x: u32, before: Seq<u8>, after: Seq<u8>)
    ensures
        le32(before + u32_bytes(x) + after, before.len() as int) == x,
        has_bytes(before + u32_bytes(x) + after, before.len() as int, 4),
{
    let data = before + u32_bytes(x) + after;
    let at = before.len() as int;
    assert(data[at] == u32_bytes(x)[0]);
    assert(data[at + 1] == u32_bytes(x)[1]);
    assert(data[at + 2] == u32_bytes(x)[2]);
    assert(data[at + 3] == u32_bytes(x)[3]);
}

impl OpenRGBReadable for () {
    open spec fn decode(data: Seq<u8>, at: int, protocol: u32) -> Decoded<()> {
        Decoded::Value { value: (), next: at }
    }

    fn read<S: ByteSource>(stream: &mut S, protocol: u32) -> (r: Result<Self, OpenRGBError>) {
        let ghost expected = Self::decode(stream.data(), stream.pos(), protocol);
        Ok(())
    }
}

impl OpenRGBWritable for () {
    open spec fn wire_size(value: (), protocol: u32) -> nat {
        0
    }

    open spec fn encode(value: (), protocol: u32) -> Encoded {
        Encoded::Bytes { bytes: Seq::empty() }
    }

    proof fn lemma_encoded_size(value: (), protocol: u32) {
        assert(Self::encode(value, protocol) matches Encoded::Bytes { bytes } ==> bytes.len()
            == Self::wire_size(value, protocol));
    }

    fn size(&self, protocol: u32) -> (n: usize) {
        let ghost declared = Self::wire_size(self.deep_view(), protocol);
        0
    }

    fn write<W: ByteSink>(&self, stream: &mut W, protocol: u32) -> (r: Result<(), OpenRGBError>) {
        let ghost expected = Self::encode(self.deep_view(), protocol);
        assert(stream.written() =~= stream.written() + Seq::<u8>::empty());
        Ok(())
    }
}

impl OpenRGBSymmetric for () {
    open spec fn round_trips(value: (), protocol: u32) -> bool {
        true
    }

    proof fn lemma_round_trip(value: (), protocol: u32, before: Seq<u8>, after: Seq<u8>) {
        assert(Self::round_trips(value, protocol) && Self::decode(
            before + Self::encode(value, protocol)->bytes + after,
            before.len() as int,
            protocol,
        ) is Value);
    }
}

impl OpenRGBReadable for u8 {
    open spec fn decode(data: Seq<u8>, at: int, protocol: u32) -> Decoded<u8> {
        if has_bytes(data, at, 1) {
            Decoded::Value { value: data[at], next: at + 1 }
        } else {
            Decoded::Short
        }
    }

    fn read<S: ByteSource>(stream: &mut S, protocol: u32) -> (r: Result<Self, OpenRGBError>) {
        let ghost expected = Self::decode(stream.data(), stream.pos(), protocol);
        match stream.read_exact(1) {
            Ok(bytes) => Ok(bytes[0]),
            Err(e) => Err(e),
        }
    }
}

impl OpenRGBWritable for u8 {
    open spec fn wire_size(value: u8, protocol: u32) -> nat {
        1
    }

    open spec fn encode(value: u8, protocol: u32) -> Encoded {
        Encoded::Bytes { bytes: seq![value] }
    }

    proof fn lemma_encoded_size(value: u8, protocol: u32) {
        assert(Self::encode(value, protocol) matches Encoded::Bytes { bytes } ==> bytes.len()
            == Self::wire_size(value, protocol));
    }

    fn size(&self, protocol: u32) -> (n: usize) {
        let ghost declared = Self::wire_size(self.deep_view(), protocol);
        1
    }

    fn write<W: ByteSink>(&self, stream: &mut W, protocol: u32) -> (r: Result<(), OpenRGBError>) {
        let ghost expected = Self::encode(self.deep_view(), protocol);
        let mut bytes: Vec<u8> = Vec::new();
        bytes.push(*self);
        assert(bytes@ =~= seq![*self]);
        stream.write_all(bytes.as_slice());
        Ok(())
    }
}

impl OpenRGBSymmetric for u8 {
    open spec fn round_trips(value: u8, protocol: u32) -> bool {
        true
    }

    proof fn lemma_round_trip(value: u8, protocol: u32, before: Seq<u8>, after: Seq<u8>) {
        let data = before + seq![value] + after;
        assert(data[before.len() as int] == seq![value][0]);
        assert(Self::round_trips(value, protocol) && Self::decode(
            before + Self::encode(value, protocol)->bytes + after,
            before.len() as int,
            protocol,
        ) is Value);
    }
}

impl OpenRGBReadable for u16 {
    open spec fn decode(data: Seq<u8>, at: int, protocol: u32) -> Decoded<u16> {
        decode_u16(data, at)
    }

    fn read<S: ByteSource>(stream: &mut S, protocol: u32) -> (r: Result<Self, OpenRGBError>) {
        let ghost expected = Self::decode(stream.data(), stream.pos(), protocol);
        read_u16(stream)
    }
}

impl OpenRGBWritable for u16 {
    open spec fn wire_size(value: u16, protocol: u32) -> nat {
        2
    }

    open spec fn encode(value: u16, protocol: u32) -> Encoded {
        Encoded::Bytes { bytes: u16_bytes(value) }
    }

    proof fn lemma_encoded_size(value: u16, protocol: u32) {
        assert(Self::encode(value, protocol) matches Encoded::Bytes { bytes } ==> bytes.len()
            == Self::wire_size(value, protocol));
    }

    fn size(&self, protocol: u32) -> (n: usize) {
        let ghost declared = Self::wire_size(self.deep_view(), protocol);
        2
    }

    fn write<W: ByteSink>(&self, stream: &mut W, protocol: u32) -> (r: Result<(), OpenRGBError>) {
        let ghost expected = Self::encode(self.deep_view(), protocol);
        write_u16(stream, *self);
        Ok(())
    }
}

impl OpenRGBSymmetric for u16 {
    open spec fn round_trips(value: u16, protocol: u32) -> bool {
        true
    }

    proof fn lemma_round_trip(value: u16, protocol: u32, before: Seq<u8>, after: Seq<u8>) {
        lemma_le16_of_bytes(value, before, after);
        assert(Self::round_trips(value, protocol) && Self::decode(
            before + Self::encode(value, protocol)->bytes + after,
            before.len() as int,
            protocol,
        ) is Value);
    }
}

impl OpenRGBReadable for u32 {
    open spec fn decode(data: Seq<u8>, at: int, protocol: u32) -> Decoded<u32> {
        decode_u32(data, at)
    }

    fn read<S: ByteSource>(stream: &mut S, protocol: u32) -> (r: Result<Self, OpenRGBError>) {
        let ghost expected = Self::decode(stream.data(), stream.pos(), protocol);
        read_u32(stream)
    }
}

impl OpenRGBWritable for u32 {
    open spec fn wire_size(value: u32, protocol: u32) -> nat {
        4
    }

    open spec fn encode(value: u32, protocol: u32) -> Encoded {
        Encoded::Bytes { bytes: u32_bytes(value) }
    }

    proof fn lemma_encoded_size(value: u32, protocol: u32) {
        assert(Self::encode(value, protocol) matches Encoded::Bytes { bytes } ==> bytes.len()
            == Self::wire_size(value, protocol));
    }

    fn size(&self, protocol: u32) -> (n: usize) {
        let ghost declared = Self::wire_size(self.deep_view(), protocol);
        4
    }

    fn write<W: ByteSink>(&self, stream: &mut W, protocol: u32) -> (r: Result<(), OpenRGBError>) {
        let ghost expected = Self::encode(self.deep_view(), protocol);
        write_u32(stream, *self);
        Ok(())
    }
}

impl OpenRGBSymmetric for u32 {
    open spec fn round_trips(value: u32, protocol: u32) -> bool {
        true
    }

    proof fn lemma_round_trip(value: u32, protocol: u32, before: Seq<u8>, after: Seq<u8>) {
        lemma_le32_of_bytes(value, before, after);
        assert(Self::round_trips(value, protocol) && Self::decode(
            before + Self::encode(value, protocol)->bytes + after,
            before.len() as int,
            protocol,
        ) is Value);
    }
}

impl OpenRGBReadable for i32 {
    open spec fn decode(data: Seq<u8>, at: int, protocol: u32) -> Decoded<i32> {
        if has_bytes(data, at, 4) {
            Decoded::Value { value: bits_i32(le32(data, at)), next: at + 4 }
        } else {
            Decoded::Short
        }
    }

    fn read<S: ByteSource>(stream: &mut S, protocol: u32) -> (r: Result<Self, OpenRGBError>) {
        let ghost expected = Self::decode(stream.data(), stream.pos(), protocol);
        match read_u32(stream) {
            Ok(bits) => {
                if bits < 0x8000_0000 {
                    Ok(bits as i32)
                } else {
                    let wide: i64 = bits as i64 - 0x1_0000_0000;
                    Ok(wide as i32)
                }
            },
            Err(e) => Err(e),
        }
    }
}

impl OpenRGBWritable for i32 {
    open spec fn wire_size(value: i32, protocol: u32) -> nat {
        4
    }

    open spec fn encode(value: i32, protocol: u32) -> Encoded {
        Encoded::Bytes { bytes: i32_bytes(value) }
    }

    proof fn lemma_encoded_size(value: i32, protocol: u32) {
        assert(Self::encode(value, protocol) matches Encoded::Bytes { bytes } ==> bytes.len()
            == Self::wire_size(value, protocol));
    }

    fn size(&self, protocol: u32) -> (n: usize) {
        let ghost declared = Self::wire_size(self.deep_view(), protocol);
        4
    }

    fn write<W: ByteSink>(&self, stream: &mut W, protocol: u32) -> (r: Result<(), OpenRGBError>) {
        let ghost expected = Self::encode(self.deep_view(), protocol);
        write_u32(stream, i32_to_bits(*self));
        Ok(())
    }
}

impl OpenRGBSymmetric for i32 {
    open spec fn round_trips(value: i32, protocol: u32) -> bool {
        true
    }

    proof fn lemma_round_trip(value: i32, protocol: u32, before: Seq<u8>, after: Seq<u8>) {
        lemma_le32_of_bytes(i32_bits(value), before, after);
        assert(Self::round_trips(value, protocol) && Self::decode(
            before + Self::encode(value, protocol)->bytes + after,
            before.len() as int,
            protocol,
        ) is Value);
    }
}

/// Builds the message for a size that does not fit its field.
pub fn size_too_large(size: usize) -> (s: String)
    ensures
        s@ == size_too_large_message(size as nat),
{
    let s = String::from_str("Data size is too large to encode: ");
    let s = s.concat(decimal_string(size as u64).as_str());
    s.concat(" (out of range integral type conversion attempted)")
}

impl OpenRGBReadable for usize {
    open spec fn decode(data: Seq<u8>, at: int, protocol: u32) -> Decoded<usize> {
        if has_bytes(data, at, 4) {
            Decoded::Value { value: le32(data, at) as usize, next: at + 4 }
        } else {
            Decoded::Short
        }
    }

    fn read<S: ByteSource>(stream: &mut S, protocol: u32) -> (r: Result<Self, OpenRGBError>) {
        let ghost expected = Self::decode(stream.data(), stream.pos(), protocol);
        match read_u32(stream) {
            Ok(x) => Ok(x as usize),
            Err(e) => Err(e),
        }
    }
}

impl OpenRGBWritable for usize {
    open spec fn wire_size(value: usize, protocol: u32) -> nat {
        4
    }

    open spec fn encode(value: usize, protocol: u32) -> Encoded {
        encode_size(value)
    }

    proof fn lemma_encoded_size(value: usize, protocol: u32) {
        assert(Self::encode(value, protocol) matches Encoded::Bytes { bytes } ==> bytes.len()
            == Self::wire_size(value, protocol));
    }

    fn size(&self, protocol: u32) -> (n: usize) {
        let ghost declared = Self::wire_size(self.deep_view(), protocol);
        4
    }

    fn write<W: ByteSink>(&self, stream: &mut W, protocol: u32) -> (r: Result<(), OpenRGBError>) {
        let ghost expected = Self::encode(self.deep_view(), protocol);
        if *self > 0xffff_ffff {
            assert(stream.written() =~= stream.written() + Seq::<u8>::empty());
            Err(OpenRGBError::ProtocolError(size_too_large(*self)))
        } else {
            write_u32(stream, *self as u32);
            Ok(())
        }
    }
}

impl OpenRGBSymmetric for usize {
    open spec fn round_trips(value: usize, protocol: u32) -> bool {
        value <= u32::MAX
    }

    proof fn lemma_round_trip(value: usize, protocol: u32, before: Seq<u8>, after: Seq<u8>) {
        lemma_le32_of_bytes(value as u32, before, after);
        assert(Self::round_trips(value, protocol) && Self::decode(
            before + Self::encode(value, protocol)->bytes + after,
            before.len() as int,
            protocol,
        ) is Value);
    }
}

} // verus!
