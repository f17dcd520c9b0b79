//! Ordered sequences: a two-byte element count, then each element in order.

use vstd::prelude::*;
use vstd::string::*;
use crate::data::primitive::{le16, le32, lemma_le16_of_bytes, read_u16, u16_bytes, write_u16};
use crate::data::{
    Decoded, Encoded, OpenRGBReadable, OpenRGBSymmetric, OpenRGBWritable, capped, has_bytes,
    read_matches,
};
use crate::error::OpenRGBError;
use crate::stream::{ByteSink, ByteSource};

verus! {

/// What `data` decodes to as `count` values of `T` in a row, from `at` on.
pub open spec fn decode_items<T: OpenRGBReadable>(
    data: Seq<u8>,
    at: int,
    count: nat,
    protocol: u32,
) -> Decoded<Seq<T::V>>
    decreases count,
{
    if count == 0 {
        Decoded::Value { value: Seq::empty(), next: at }
    } else {
        match decode_items::<T>(data, at, (count - 1) as nat, protocol) {
            Decoded::Value { value: items, next } => match T::decode(data, next, protocol) {
                Decoded::Value { value, next: end } => Decoded::Value {
                    value: items.push(value),
                    next: end,
                },
                Decoded::Invalid { message, next: end } => Decoded::Invalid { message, next: end },
                Decoded::Short => Decoded::Short,
            },
            Decoded::Invalid { message, next } => Decoded::Invalid { message, next },
            Decoded::Short => Decoded::Short,
        }
    }
}

/// The declared size of the encodings of `items`, one after the other.
pub open spec fn size_items<T: OpenRGBWritable>(items: Seq<T::V>, protocol: u32) -> nat
    decreases items.len(),
{
    if items.len() == 0 {
        0
    } else {
        size_items::<T>(items.drop_last(), protocol) + T::wire_size(items.last(), protocol)
    }
}

/// What `items` encode to, one after the other.
pub open spec fn encode_items<T: OpenRGBWritable>(items: Seq<T::V>, protocol: u32) -> Encoded
    decreases items.len(),
{
    if items.len() == 0 {
        Encoded::Bytes { bytes: Seq::empty() }
    } else {
        encode_items::<T>(items.drop_last(), protocol).followed_by(
            T::encode(items.last(), protocol),
        )
    }
}

/// The message for a sequence whose element count does not fit two bytes.
pub open spec fn vec_too_large_message() -> Seq<char> {
    "Vec is too large to encode: out of range integral type conversion attempted"@
}

/// Once a prefix of the values fails to decode, so does every longer run.
pub proof fn lemma_decode_items_stuck<T: OpenRGBReadable>(
    data: Seq<u8>,
    at: int,
    done: nat,
    count: nat,
    protocol: u32,
)
    requires
        done <= count,
        !(decode_items::<T>(data, at, done, protocol) is Value),
    ensures
        decode_items::<T>(data, at, count, protocol) == decode_items::<T>(data, at, done, protocol),
    decreases count,
{
    if done < count {
        lemma_decode_items_stuck::<T>(data, at, done, (count - 1) as nat, protocol);
    }
}

/// A run of values that decodes has as many values as were asked for.
pub proof fn lemma_decode_items_len<T: OpenRGBReadable>(
    data: Seq<u8>,
    at: int,
    count: nat,
    protocol: u32,
)
    ensures
        decode_items::<T>(data, at, count, protocol) matches Decoded::Value { value, next }
            ==> value.len() == count,
    decreases count,
{
    if count > 0 {
        lemma_decode_items_len::<T>(data, at, (count - 1) as nat, protocol);
    }
}

/// A run of 32-bit integers decodes, where the stream is long enough, to
/// the integers that stand at every fourth byte.
pub proof fn lemma_decode_words(data: Seq<u8>, at: int, count: nat, protocol: u32)
    requires
        0 <= at <= data.len(),
    ensures
        decode_items::<u32>(data, at, count, protocol) == (if has_bytes(data, at, 4 * count as int) {
            Decoded::Value {
                value: Seq::new(count, |k: int| le32(data, at + 4 * k)),
                next: at + 4 * count,
            }
        } else {
            Decoded::Short
        }),
    decreases count,
{
    if count == 0 {
        assert(Seq::new(count, |k: int| le32(data, at + 4 * k)) =~= Seq::<u32>::empty());
    } else {
        let front = (count - 1) as nat;
        lemma_decode_words(data, at, front, protocol);
        if has_bytes(data, at, 4 * count as int) {
            assert(Seq::new(front, |k: int| le32(data, at + 4 * k)).push(
                le32(data, at + 4 * front),
            ) =~= Seq::new(count, |k: int| le32(data, at + 4 * k)));
        }
    }
}

/// Once a prefix of the values is refused, so is the whole, with the same
/// message and the same bytes written.
pub proof fn lemma_encode_items_stuck<T: OpenRGBWritable>(
    items: Seq<T::V>,
    done: int,
    protocol: u32,
)
    requires
        0 <= done <= items.len(),
        encode_items::<T>(items.take(done), protocol) is Refused,
    ensures
        encode_items::<T>(items, protocol) == encode_items::<T>(items.take(done), protocol),
    decreases items.len(),
{
    if done < items.len() {
        assert(items.drop_last().take(done) =~= items.take(done));
        lemma_encode_items_stuck::<T>(items.drop_last(), done, protocol);
    } else {
        assert(items.take(done) =~= items);
    }
}

/// A complete encoding of the items is as long as declared.
pub proof fn lemma_encode_items_size<T: OpenRGBWritable>(items: Seq<T::V>, protocol: u32)
    ensures
        encode_items::<T>(items, protocol) matches Encoded::Bytes { bytes } ==> bytes.len()
            == size_items::<T>(items, protocol),
    decreases items.len(),
{
    if items.len() > 0 {
        lemma_encode_items_size::<T>(items.drop_last(), protocol);
        T::lemma_encoded_size(items.last(), protocol);
    }
}

/// Items that each round-trip do so in a row.
pub proof fn lemma_items_round_trip<T: OpenRGBSymmetric>(
    items: Seq<T::V>,
    protocol: u32,
    before: Seq<u8>,
    after: Seq<u8>,
)
    requires
        forall|i: int| 0 <= i < items.len() ==> T::round_trips(#[trigger] items[i], protocol),
    ensures
        encode_items::<T>(items, protocol) matches Encoded::Bytes { bytes } && decode_items::<T>(
            before + bytes + after,
            before.len() as int,
            items.len(),
            protocol,
        ) == (Decoded::Value { value: items, next: (before.len() + bytes.len()) as int }),
    decreases items.len(),
{
    if items.len() == 0 {
        assert(items =~= Seq::empty());
    } else {
        let front = items.drop_last();
        let last = items.last();
        T::lemma_round_trip(last, protocol, Seq::empty(), Seq::empty());
        let tail = T::encode(last, protocol)->bytes;
        lemma_items_round_trip::<T>(front, protocol, before, tail + after);
        let head = encode_items::<T>(front, protocol)->bytes;
        T::lemma_round_trip(last, protocol, before + head, after);
        let data = before + (head + tail) + after;
        assert(data =~= before + head + (tail + after));
        assert(data =~= (before + head) + tail + after);
        assert(front.push(last) =~= items);
    }
}

/// Reads `count` values of `T` in a row.
pub fn read_items<T: OpenRGBReadable, S: ByteSource>(
    stream: &mut S,
    count: u64,
    protocol: u32,
) -> (r: Result<Vec<T>, OpenRGBError>)
    ensures
        final(stream).data() == old(stream).data(),
        read_matches(
            decode_items::<T>(old(stream).data(), old(stream).pos(), count as nat, protocol),
            r,
            final(stream).pos(),
            old(stream).data().len() as int,
        ),
{
    let ghost data = stream.data();
    let ghost at = stream.pos();
    let mut items: Vec<T> = if count <= 0xffff {
        Vec::with_capacity(count as usize)
    } else {
        Vec::new()
    };
    let mut i: u64 = 0;
    assert(items.deep_view() =~= Seq::empty());
    while i < count
        invariant
            i <= count,
            stream.data() == data,
            data == old(stream).data(),
            at == old(stream).pos(),
            decode_items::<T>(data, at, i as nat, protocol) == (Decoded::Value {
                value: items.deep_view(),
                next: stream.pos(),
            }),
        decreases count - i,
    {
        let ghost front = items.deep_view();
        match T::read(stream, protocol) {
            Ok(item) => {
                let ghost value = item.deep_view();
                items.push(item);
                assert(items.deep_view() =~= front.push(value));
            },
            Err(e) => {
                proof {
                    lemma_decode_items_stuck::<T>(data, at, (i + 1) as nat, count as nat, protocol);
                }
                return Err(e);
            },
        }
        i += 1;
    }
    Ok(items)
}

impl<T: OpenRGBReadable> OpenRGBReadable for Vec<T> {
    open spec fn decode(data: Seq<u8>, at: int, protocol: u32) -> Decoded<Seq<T::V>> {
        if has_bytes(data, at, 2) {
            decode_items::<T>(data, at + 2, le16(data, at) as nat, protocol)
        } else {
            Decoded::Short
        }
    }

    fn read<S: ByteSource>(stream: &mut S, protocol: u32) -> (r: Result<Self, OpenRGBError>) {
        let ghost expected = Self::decode(stream.data(), stream.pos(), protocol);
        match read_u16(stream) {
            Ok(count) => read_items::<T, S>(stream, count as u64, protocol),
            Err(e) => Err(e),
        }
    }
}

impl<T: OpenRGBWritable> OpenRGBWritable for Vec<T> {
    open spec fn wire_size(value: Seq<T::V>, protocol: u32) -> nat {
        2 + size_items::<T>(value, protocol)
    }

    open spec fn encode(value: Seq<T::V>, protocol: u32) -> Encoded {
        if value.len() > 65535 {
            Encoded::Refused { message: vec_too_large_message(), sent: Seq::empty() }
        } else {
            (Encoded::Bytes { bytes: u16_bytes(value.len() as u16) }).followed_by(
                encode_items::<T>(value, protocol),
            )
        }
    }

    proof fn lemma_encoded_size(value: Seq<T::V>, protocol: u32) {
        lemma_encode_items_size::<T>(value, protocol);
        assert(Self::encode(value, protocol) matches Encoded::Bytes { bytes } ==> bytes.len()
            == Self::wire_size(value, protocol));
    }

    fn size(&self, protocol: u32) -> (n: usize) {
        let ghost declared = Self::wire_size(self.deep_view(), protocol);
        let ghost items = self.deep_view();
        let mut total: usize = 2;
        let mut i: usize = 0;
        assert(items.take(0) =~= Seq::empty());
        while i < self.len()
            invariant
                i <= self.len(),
                items == self.deep_view(),
                total == capped(2 + size_items::<T>(items.take(i as int), protocol)),
            decreases self.len() - i,
        {
            assert(items.take(i + 1).drop_last() =~= items.take(i as int));
            total = total.saturating_add(self[i].size(protocol));
            i += 1;
        }
        assert(items.take(i as int) =~= items);
        total
    }

    fn write<W: ByteSink>(&self, stream: &mut W, protocol: u32) -> (r: Result<(), OpenRGBError>) {
        let ghost expected = Self::encode(self.deep_view(), protocol);
        let ghost items = self.deep_view();
        if self.len() > 65535 {
            assert(stream.written() =~= stream.written() + Seq::<u8>::empty());
            return Err(
                OpenRGBError::ProtocolError(
                    String::from_str(
                        "Vec is too large to encode: out of range integral type conversion attempted",
                    ),
                ),
            );
        }
        write_u16(stream, self.len() as u16);
        let ghost start = stream.written();
        let mut i: usize = 0;
        assert(items.take(0) =~= Seq::empty());
        assert(start =~= start + Seq::<u8>::empty());
        while i < self.len()
            invariant
                i <= self.len(),
                self.len() <= 65535,
                items == self.deep_view(),
                start == old(stream).written() + u16_bytes(self.len() as u16),
                encode_items::<T>(items.take(i as int), protocol) matches Encoded::Bytes { bytes }
                    && stream.written() == start + bytes,
            decreases self.len() - i,
        {
            let ghost head = encode_items::<T>(items.take(i as int), protocol)->bytes;
            proof {
                assert(items.take(i + 1).drop_last() =~= items.take(i as int));
            }
            match self[i].write(stream, protocol) {
                Ok(()) => {
                    let ghost bytes = T::encode(items[i as int], protocol)->bytes;
                    assert(stream.written() =~= start + (head + bytes));
                },
                Err(e) => {
                    proof {
                        let sent = T::encode(items[i as int], protocol)->sent;
                        assert(stream.written() =~= start + (head + sent));
                        lemma_encode_items_stuck::<T>(items, i + 1, protocol);
                        assert(stream.written() =~= old(stream).written() + (u16_bytes(
                            self.len() as u16,
                        ) + (head + sent)));
                    }
                    return Err(e);
                },
            }
            i += 1;
        }
        assert(items.take(i as int) =~= items);
        proof {
            let bytes = encode_items::<T>(items, protocol)->bytes;
            assert(stream.written() =~= old(stream).written() + (u16_bytes(self.len() as u16)
                + bytes));
        }
        Ok(())
    }
}

impl<T: OpenRGBSymmetric> OpenRGBSymmetric for Vec<T> {
    open spec fn round_trips(value: Seq<T::V>, protocol: u32) -> bool {
        &&& value.len() <= 65535
        &&& forall|i: int| 0 <= i < value.len() ==> T::round_trips(#[trigger] value[i], protocol)
    }

    proof fn lemma_round_trip(value: Seq<T::V>, protocol: u32, before: Seq<u8>, after: Seq<u8>) {
        let count = u16_bytes(value.len() as u16);
        lemma_items_round_trip::<T>(value, protocol, before + count, after);
        let bytes = encode_items::<T>(value, protocol)->bytes;
        lemma_le16_of_bytes(value.len() as u16, before, bytes + after);
        let data = before + (count + bytes) + after;
        assert(data =~= before + count + (bytes + after));
        assert(data =~= (before + count) + bytes + after);
        assert(Self::round_trips(value, protocol) && Self::decode(
            before + Self::encode(value, protocol)->bytes + after,
            before.len() as int,
            protocol,
        ) is Value);
    }
}

} // verus!
