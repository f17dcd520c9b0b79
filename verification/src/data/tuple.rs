//! Tuples of two to four components, each encoded in declared order with
//! nothing between them.

use vstd::prelude::*;
use crate::data::{Decoded, Encoded, OpenRGBReadable, OpenRGBSymmetric, OpenRGBWritable};
use crate::error::OpenRGBError;
use crate::stream::{ByteSink, ByteSource};

verus! {

impl<A: OpenRGBReadable, B: OpenRGBReadable> OpenRGBReadable for (A, B) {
    open spec fn decode(data: Seq<u8>, at: int, protocol: u32) -> Decoded<(A::V, B::V)> {
        match A::decode(data, at, protocol) {
            Decoded::Value { value: a, next } => B::decode(data, next, protocol).map(
                |b: B::V| (a, b),
            ),
            Decoded::Invalid { message, next } => Decoded::Invalid { message, next },
            Decoded::Short => Decoded::Short,
        }
    }

    fn read<S: ByteSource>(stream: &mut S, protocol: u32) -> (r: Result<Self, OpenRGBError>) {
        let ghost expected = Self::decode(stream.data(), stream.pos(), protocol);
        let a = match A::read(stream, protocol) {
            Ok(a) => a,
            Err(e) => {
                return Err(e);
            },
        };
        let b = match B::read(stream, protocol) {
            Ok(b) => b,
            Err(e) => {
                return Err(e);
            },
        };
        Ok((a, b))
    }
}

impl<A: OpenRGBWritable, B: OpenRGBWritable> OpenRGBWritable for (A, B) {
    open spec fn wire_size(value: (A::V, B::V), protocol: u32) -> nat {
        A::wire_size(value.0, protocol) + B::wire_size(value.1, protocol)
    }

    open spec fn encode(value: (A::V, B::V), protocol: u32) -> Encoded {
        A::encode(value.0, protocol).followed_by(B::encode(value.1, protocol))
    }

    proof fn lemma_encoded_size(value: (A::V, B::V), protocol: u32) {
        A::lemma_encoded_size(value.0, protocol);
        B::lemma_encoded_size(value.1, protocol);
        assert(Self::encode(value, protocol) matches Encoded::Bytes { bytes } ==> bytes.len()
            == Self::wire_size(value, protocol));
    }

    fn size(&self, protocol: u32) -> (n: usize) {
        let ghost declared = Self::wire_size(self.deep_view(), protocol);
        self.0.size(protocol).saturating_add(self.1.size(protocol))
    }

    fn write<W: ByteSink>(&self, stream: &mut W, protocol: u32) -> (r: Result<(), OpenRGBError>) {
        let ghost expected = Self::encode(self.deep_view(), protocol);
        match self.0.write(stream, protocol) {
            Ok(()) => {},
            Err(e) => {
                return Err(e);
            },
        }
        let ghost head = A::encode(self.0.deep_view(), protocol)->bytes;
        match self.1.write(stream, protocol) {
            Ok(()) => {
                let ghost bytes = B::encode(self.1.deep_view(), protocol)->bytes;
                assert(stream.written() =~= old(stream).written() + (head + bytes));
                Ok(())
            },
            Err(e) => {
                let ghost sent = B::encode(self.1.deep_view(), protocol)->sent;
                assert(stream.written() =~= old(stream).written() + (head + sent));
                Err(e)
            },
        }
    }
}

impl<A: OpenRGBSymmetric, B: OpenRGBSymmetric> OpenRGBSymmetric for (A, B) {
    open spec fn round_trips(value: (A::V, B::V), protocol: u32) -> bool {
        A::round_trips(value.0, protocol) && B::round_trips(value.1, protocol)
    }

    proof fn lemma_round_trip(value: (A::V, B::V), protocol: u32, before: Seq<u8>, after: Seq<u8>) {
        B::lemma_round_trip(value.1, protocol, Seq::empty(), Seq::empty());
        let tail = B::encode(value.1, protocol)->bytes;
        A::lemma_round_trip(value.0, protocol, before, tail + after);
        let head = A::encode(value.0, protocol)->bytes;
        B::lemma_round_trip(value.1, protocol, before + head, after);
        let data = before + (head + tail) + after;
        assert(data =~= before + head + (tail + after));
        assert(data =~= (before + head) + tail + after);
        assert(Self::round_trips(value, protocol) && Self::decode(
            before + Self::encode(value, protocol)->bytes + after,
            before.len() as int,
            protocol,
        ) is Value);
    }
}

impl<A: OpenRGBReadable, B: OpenRGBReadable, C: OpenRGBReadable> OpenRGBReadable for (A, B, C) {
    open spec fn decode(data: Seq<u8>, at: int, protocol: u32) -> Decoded<(A::V, B::V, C::V)> {
        match <(A, B)>::decode(data, at, protocol) {
            Decoded::Value { value: ab, next } => C::decode(data, next, protocol).map(
                |c: C::V| (ab.0, ab.1, c),
            ),
            Decoded::Invalid { message, next } => Decoded::Invalid { message, next },
            Decoded::Short => Decoded::Short,
        }
    }

    fn read<S: ByteSource>(stream: &mut S, protocol: u32) -> (r: Result<Self, OpenRGBError>) {
        let ghost expected = Self::decode(stream.data(), stream.pos(), protocol);
        let ab = match <(A, B)>::read(stream, protocol) {
            Ok(ab) => ab,
            Err(e) => {
                return Err(e);
            },
        };
        let c = match C::read(stream, protocol) {
            Ok(c) => c,
            Err(e) => {
                return Err(e);
            },
        };
        Ok((ab.0, ab.1, c))
    }
}

impl<A: OpenRGBWritable, B: OpenRGBWritable, C: OpenRGBWritable> OpenRGBWritable for (A, B, C) {
    open spec fn wire_size(value: (A::V, B::V, C::V), protocol: u32) -> nat {
        A::wire_size(value.0, protocol) + B::wire_size(value.1, protocol) + C::wire_size(
            value.2,
            protocol,
        )
    }

    open spec fn encode(value: (A::V, B::V, C::V), protocol: u32) -> Encoded {
        A::encode(value.0, protocol).followed_by(B::encode(value.1, protocol)).followed_by(
            C::encode(value.2, protocol),
        )
    }

    proof fn lemma_encoded_size(value: (A::V, B::V, C::V), protocol: u32) {
        A::lemma_encoded_size(value.0, protocol);
        B::lemma_encoded_size(value.1, protocol);
        C::lemma_encoded_size(value.2, protocol);
        assert(Self::encode(value, protocol) matches Encoded::Bytes { bytes } ==> bytes.len()
            == Self::wire_size(value, protocol));
    }

    fn size(&self, protocol: u32) -> (n: usize) {
        let ghost declared = Self::wire_size(self.deep_view(), protocol);
        self.0.size(protocol).saturating_add(self.1.size(protocol)).saturating_add(
            self.2.size(protocol),
        )
    }

    fn write<W: ByteSink>(&self, stream: &mut W, protocol: u32) -> (r: Result<(), OpenRGBError>) {
        let ghost expected = Self::encode(self.deep_view(), protocol);
        match self.0.write(stream, protocol) {
            Ok(()) => {},
            Err(e) => {
                return Err(e);
            },
        }
        let ghost a = A::encode(self.0.deep_view(), protocol)->bytes;
        match self.1.write(stream, protocol) {
            Ok(()) => {},
            Err(e) => {
                let ghost sent = B::encode(self.1.deep_view(), protocol)->sent;
                assert(stream.written() =~= old(stream).written() + (a + sent));
                return Err(e);
            },
        }
        let ghost b = B::encode(self.1.deep_view(), protocol)->bytes;
        match self.2.write(stream, protocol) {
            Ok(()) => {
                let ghost bytes = C::encode(self.2.deep_view(), protocol)->bytes;
                assert(stream.written() =~= old(stream).written() + (a + b + bytes));
                Ok(())
            },
            Err(e) => {
                let ghost sent = C::encode(self.2.deep_view(), protocol)->sent;
                assert(stream.written() =~= old(stream).written() + (a + b + sent));
                Err(e)
            },
        }
    }
}

impl<A: OpenRGBSymmetric, B: OpenRGBSymmetric, C: OpenRGBSymmetric> OpenRGBSymmetric for (A, B, C) {
    open spec fn round_trips(value: (A::V, B::V, C::V), protocol: u32) -> bool {
        A::round_trips(value.0, protocol) && B::round_trips(value.1, protocol) && C::round_trips(
            value.2,
            protocol,
        )
    }

    proof fn lemma_round_trip(
        value: (A::V, B::V, C::V),
        protocol: u32,
        before: Seq<u8>,
        after: Seq<u8>,
    ) {
        C::lemma_round_trip(value.2, protocol, Seq::empty(), Seq::empty());
        let tail = C::encode(value.2, protocol)->bytes;
        <(A, B)>::lemma_round_trip((value.0, value.1), protocol, before, tail + after);
        let head = <(A, B)>::encode((value.0, value.1), protocol)->bytes;
        C::lemma_round_trip(value.2, protocol, before + head, after);
        let data = before + (head + tail) + after;
        assert(data =~= before + head + (tail + after));
        assert(data =~= (before + head) + tail + after);
        assert(Self::round_trips(value, protocol) && Self::decode(
            before + Self::encode(value, protocol)->bytes + after,
            before.len() as int,
            protocol,
        ) is Value);
    }
}

impl<
    A: OpenRGBReadable,
    B: OpenRGBReadable,
    C: OpenRGBReadable,
    D: OpenRGBReadable,
> OpenRGBReadable for (A, B, C, D) {
    open spec fn decode(data: Seq<u8>, at: int, protocol: u32) -> Decoded<
        (A::V, B::V, C::V, D::V),
    > {
        match <(A, B, C)>::decode(data, at, protocol) {
            Decoded::Value { value: abc, next } => D::decode(data, next, protocol).map(
                |d: D::V| (abc.0, abc.1, abc.2, d),
            ),
            Decoded::Invalid { message, next } => Decoded::Invalid { message, next },
            Decoded::Short => Decoded::Short,
        }
    }

    fn read<S: ByteSource>(stream: &mut S, protocol: u32) -> (r: Result<Self, OpenRGBError>) {
        let ghost expected = Self::decode(stream.data(), stream.pos(), protocol);
        let abc = match <(A, B, C)>::read(stream, protocol) {
            Ok(abc) => abc,
            Err(e) => {
                return Err(e);
            },
        };
        let d = match D::read(stream, protocol) {
            Ok(d) => d,
            Err(e) => {
                return Err(e);
            },
        };
        Ok((abc.0, abc.1, abc.2, d))
    }
}

impl<
    A: OpenRGBWritable,
    B: OpenRGBWritable,
    C: OpenRGBWritable,
    D: OpenRGBWritable,
> OpenRGBWritable for (A, B, C, D) {
    open spec fn wire_size(value: (A::V, B::V, C::V, D::V), protocol: u32) -> nat {
        A::wire_size(value.0, protocol) + B::wire_size(value.1, protocol) + C::wire_size(
            value.2,
            protocol,
        ) + D::wire_size(value.3, protocol)
    }

    open spec fn encode(value: (A::V, B::V, C::V, D::V), protocol: u32) -> Encoded {
        A::encode(value.0, protocol).followed_by(B::encode(value.1, protocol)).followed_by(
            C::encode(value.2, protocol),
        ).followed_by(D::encode(value.3, protocol))
    }

    proof fn lemma_encoded_size(value: (A::V, B::V, C::V, D::V), protocol: u32) {
        A::lemma_encoded_size(value.0, protocol);
        B::lemma_encoded_size(value.1, protocol);
        C::lemma_encoded_size(value.2, protocol);
        D::lemma_encoded_size(value.3, protocol);
        assert(Self::encode(value, protocol) matches Encoded::Bytes { bytes } ==> bytes.len()
            == Self::wire_size(value, protocol));
    }

    fn size(&self, protocol: u32) -> (n: usize) {
        let ghost declared = Self::wire_size(self.deep_view(), protocol);
        self.0.size(protocol).saturating_add(self.1.size(protocol)).saturating_add(
            self.2.size(protocol),
        ).saturating_add(self.3.size(protocol))
    }

    fn write<W: ByteSink>(&self, stream: &mut W, protocol: u32) -> (r: Result<(), OpenRGBError>) {
        let ghost expected = Self::encode(self.deep_view(), protocol);
        match self.0.write(stream, protocol) {
            Ok(()) => {},
            Err(e) => {
                return Err(e);
            },
        }
        let ghost a = A::encode(self.0.deep_view(), protocol)->bytes;
        match self.1.write(stream, protocol) {
            Ok(()) => {},
            Err(e) => {
                let ghost sent = B::encode(self.1.deep_view(), protocol)->sent;
                assert(stream.written() =~= old(stream).written() + (a + sent));
                return Err(e);
            },
        }
        let ghost b = B::encode(self.1.deep_view(), protocol)->bytes;
        match self.2.write(stream, protocol) {
            Ok(()) => {},
            Err(e) => {
                let ghost sent = C::encode(self.2.deep_view(), protocol)->sent;
                assert(stream.written() =~= old(stream).written() + (a + b + sent));
                return Err(e);
            },
        }
        let ghost c = C::encode(self.2.deep_view(), protocol)->bytes;
        match self.3.write(stream, protocol) {
            Ok(()) => {
                let ghost bytes = D::encode(self.3.deep_view(), protocol)->bytes;
                assert(stream.written() =~= old(stream).written() + (a + b + c + bytes));
                Ok(())
            },
            Err(e) => {
                let ghost sent = D::encode(self.3.deep_view(), protocol)->sent;
                assert(stream.written() =~= old(stream).written() + (a + b + c + sent));
                Err(e)
            },
        }
    }
}

impl<
    A: OpenRGBSymmetric,
    B: OpenRGBSymmetric,
    C: OpenRGBSymmetric,
    D: OpenRGBSymmetric,
> OpenRGBSymmetric for (A, B, C, D) {
    open spec fn round_trips(value: (A::V, B::V, C::V, D::V), protocol: u32) -> bool {
        A::round_trips(value.0, protocol) && B::round_trips(value.1, protocol) && C::round_trips(
            value.2,
            protocol,
        ) && D::round_trips(value.3, protocol)
    }

    proof fn lemma_round_trip(
        value: (A::V, B::V, C::V, D::V),
        protocol: u32,
        before: Seq<u8>,
        after: Seq<u8>,
    ) {
        D::lemma_round_trip(value.3, protocol, Seq::empty(), Seq::empty());
        let tail = D::encode(value.3, protocol)->bytes;
        <(A, B, C)>::lemma_round_trip((value.0, value.1, value.2), protocol, before, tail + after);
        let head = <(A, B, C)>::encode((value.0, value.1, value.2), protocol)->bytes;
        D::lemma_round_trip(value.3, protocol, before + head, after);
        let data = before + (head + tail) + after;
        assert(data =~= before + head + (tail + after));
        assert(data =~= (before + head) + tail + after);
        assert(Self::round_trips(value, protocol) && Self::decode(
            before + Self::encode(value, protocol)->bytes + after,
            before.len() as int,
            protocol,
        ) is Value);
    }
}

} // verus!
