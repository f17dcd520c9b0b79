//! Byte streams held in memory.

use vstd::prelude::*;
use crate::data::{OpenRGBReadable, OpenRGBWritable, PacketId};
use crate::error::OpenRGBError;
use crate::protocol::{OpenRGBReadableStream, OpenRGBStream, OpenRGBWritableStream};

verus! {

/// A source of bytes that are consumed front to back.
pub trait ByteSource: Sized {
    /// Every byte of the stream, consumed or not.
    spec fn data(&self) -> Seq<u8>;

    /// How many bytes have been consumed.
    spec fn pos(&self) -> int;

    /// Consumes exactly `count` bytes. When fewer are left, consumes them
    /// all and reports a communication failure.
    fn read_exact(&mut self, count: usize) -> (r: Result<Vec<u8>, OpenRGBError>)
        ensures
            final(self).data() == old(self).data(),
            0 <= old(self).pos(),
            match r {
                Ok(bytes) => {
                    &&& old(self).pos() + count <= old(self).data().len()
                    &&& bytes@ == old(self).data().subrange(old(self).pos(), old(self).pos() + count)
                    &&& final(self).pos() == old(self).pos() + count
                },
                Err(e) => {
                    &&& old(self).pos() + count > old(self).data().len()
                    &&& e is CommunicationError
                    &&& final(self).pos() == old(self).data().len()
                },
            },
    ;
}

/// A sink that keeps every byte written to it, in order.
pub trait ByteSink: Sized {
    /// Every byte written so far.
    spec fn written(&self) -> Seq<u8>;

    /// Appends `bytes`.
    fn write_all(&mut self, bytes: &[u8])
        ensures
            final(self).written() == old(self).written() + bytes@,
    ;
}

impl ByteSink for Vec<u8> {
    open spec fn written(&self) -> Seq<u8> {
        self@
    }

    fn write_all(&mut self, bytes: &[u8]) {
        let ghost before = self.written();
        let mut i: usize = 0;
        while i < bytes.len()
            invariant
                0 <= i <= bytes.len(),
                self@ == old(self)@ + bytes@.subrange(0, i as int),
            decreases bytes.len() - i,
        {
            self.push(bytes[i]);
            i += 1;
            assert(self@ =~= old(self)@ + bytes@.subrange(0, i as int));
        }
        assert(bytes@.subrange(0, i as int) =~= bytes@);
    }
}

/// A byte buffer read front to back.
pub struct ByteReader {
    bytes: Vec<u8>,
    at: usize,
}

impl ByteReader {
    /// The position of a reader lies within its bytes.
    #[verifier::type_invariant]
    spec fn within(self) -> bool {
        self.at <= self.bytes@.len()
    }

    /// A reader positioned at the first byte of `bytes`.
    pub fn new(bytes: Vec<u8>) -> (r: ByteReader)
        ensures
            r.data() == bytes@,
            r.pos() == 0,
    {
        let reader = ByteReader { bytes, at: 0 };
        assert(reader.within());
        reader
    }

    /// How many bytes are left to read.
    pub fn remaining(&self) -> (n: usize)
        ensures
            n == self.data().len() - self.pos(),
    {
        proof {
            use_type_invariant(self);
        }
        self.bytes.len() - self.at
    }
}

impl ByteSource for ByteReader {
    closed spec fn data(&self) -> Seq<u8> {
        self.bytes@
    }

    closed spec fn pos(&self) -> int {
        self.at as int
    }

    fn read_exact(&mut self, count: usize) -> (r: Result<Vec<u8>, OpenRGBError>) {
        assert(self.within() ==> self.pos() <= self.data().len());
        let len = self.bytes.len();
        if self.at > len || count > len - self.at {
            self.at = len;
            return Err(OpenRGBError::truncated());
        }
        let mut out: Vec<u8> = Vec::new();
        let start: usize = self.at;
        let mut i: usize = 0;
        while i < count
            invariant
                0 <= i <= count,
                start + count <= self.bytes.len(),
                out@ == self.bytes@.subrange(start as int, start + i),
            decreases count - i,
        {
            out.push(self.bytes[start + i]);
            i += 1;
            assert(out@ =~= self.bytes@.subrange(start as int, start + i));
        }
        self.at = start + count;
        Ok(out)
    }
}

/// One side of a conversation, held in memory: the bytes that the other
/// side sends, which are read front to back, and the bytes sent to it.
pub struct Exchange {
    incoming: ByteReader,
    outgoing: Vec<u8>,
}

impl Exchange {
    /// A conversation in which the other side sends `incoming` and nothing
    /// has been sent to it yet.
    pub fn new(incoming: Vec<u8>) -> (r: Exchange)
        ensures
            r.data() == incoming@,
            r.pos() == 0,
            r.written() == Seq::<u8>::empty(),
    {
        Exchange { incoming: ByteReader::new(incoming), outgoing: Vec::new() }
    }

    /// How many incoming bytes are left to read.
    pub fn remaining(&self) -> (n: usize)
        ensures
            n == self.data().len() - self.pos(),
    {
        self.incoming.remaining()
    }

    /// The bytes sent so far.
    pub fn sent(&self) -> (bytes: &Vec<u8>)
        ensures
            bytes@ == self.written(),
    {
        &self.outgoing
    }
}

impl OpenRGBReadableStream for Exchange {
}

impl OpenRGBWritableStream for Exchange {
}

impl OpenRGBStream for Exchange {
    fn send<I: OpenRGBWritable>(
        &mut self,
        protocol: u32,
        device_id: u32,
        packet_id: PacketId,
        data: I,
    ) -> (r: Result<(), OpenRGBError>) {
        let ghost (before, data_before, at) = (self.written(), self.data(), self.pos());
        self.outgoing.write_packet(protocol, device_id, packet_id, data)
    }

    fn receive<O: OpenRGBReadable>(
        &mut self,
        protocol: u32,
        expected_device_id: u32,
        expected_packet_id: PacketId,
    ) -> (r: Result<O, OpenRGBError>) {
        let ghost (before, data_before, at) = (self.written(), self.data(), self.pos());
        self.incoming.read_packet(protocol, expected_device_id, expected_packet_id)
    }
}

impl ByteSource for Exchange {
    closed spec fn data(&self) -> Seq<u8> {
        self.incoming.data()
    }

    closed spec fn pos(&self) -> int {
        self.incoming.pos()
    }

    fn read_exact(&mut self, count: usize) -> (r: Result<Vec<u8>, OpenRGBError>) {
        let ghost (data, at) = (self.data(), self.pos());
        self.incoming.read_exact(count)
    }
}

impl ByteSink for Exchange {
    closed spec fn written(&self) -> Seq<u8> {
        self.outgoing@
    }

    fn write_all(&mut self, bytes: &[u8]) {
        let ghost before = self.written();
        self.outgoing.write_all(bytes);
    }
}

} // verus!
