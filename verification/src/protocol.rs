//! Packets: a header of sixteen bytes, then the payload.
//!
//! The header is the four magic bytes `ORGB`, the device id, the packet id
//! and the payload's length in bytes, each of the last three a 32-bit
//! little-endian integer.
//!
//! A reader of packets reads the header, holds it against what it expects,
//! and then decodes the payload from what follows; the length that the
//! header declares is handed to the caller and is not held against what the
//! payload's decoder consumes. A caller that takes a reply off a connection
//! goes by that length: [`next_step`] has it receive the header first and,
//! only once the header has been accepted, exactly the bytes that the header
//! declares. A payload whose decoder asks for more than was declared then
//! fails as a stream that ended early; one whose decoder asks for less
//! leaves the rest undecoded.

use vstd::prelude::*;
use vstd::string::*;
use crate::data::packet::PacketId;
use crate::data::primitive::{
    encode_size, le32, read_u32, size_too_large_message, u32_bytes, write_u32,
};
use crate::data::{
    Decoded, Encoded, OpenRGBReadable, OpenRGBWritable, has_bytes, read_matches, unknown_code,
    unknown_code_message, write_matches,
};
use crate::error::OpenRGBError;
use crate::stream::{ByteReader, ByteSink, ByteSource};
use crate::text::{decimal, decimal_string};

verus! {

/// The bytes that every packet starts with: `ORGB`.
pub open spec fn magic() -> Seq<u8> {
    seq![79u8, 82u8, 71u8, 66u8]
}

/// The length of a packet's header in bytes.
pub const HEADER_LEN: usize = 16;

/// The message for a byte that is not the magic byte expected in its place.
pub open spec fn magic_message(byte: u8) -> Seq<char> {
    unknown_code_message("expected OpenRGB magic value, got \""@, byte as u32)
}

/// The message for a packet that names another device than expected.
pub open spec fn device_id_message(expected: u32, actual: u32) -> Seq<char> {
    "expected device ID "@ + decimal(expected as nat) + ", got "@ + decimal(actual as nat)
}

/// The message for a packet of another kind than expected.
pub open spec fn packet_id_message(expected: PacketId, actual: PacketId) -> Seq<char> {
    "expected packet ID "@ + expected.name_text() + ", got "@ + actual.name_text()
}

/// What `data` decodes to as the magic bytes `expected`, from `at` on. The
/// bytes are held against the magic one at a time: the first that differs
/// is an error, and nothing after it is consumed.
pub open spec fn decode_magic(data: Seq<u8>, at: int, expected: Seq<u8>) -> Decoded<()>
    decreases expected.len(),
{
    if expected.len() == 0 {
        Decoded::Value { value: (), next: at }
    } else if !has_bytes(data, at, 1) {
        Decoded::Short
    } else if data[at] != expected[0] {
        Decoded::Invalid { message: magic_message(data[at]), next: at + 1 }
    } else {
        decode_magic(data, at + 1, expected.drop_first())
    }
}

/// What `data` decodes to as the three integers that follow the magic in
/// a header, the first of them at `at`: the payload's length, unless the
/// device id or the packet id is not the expected one.
pub open spec fn decode_header_fields(
    data: Seq<u8>,
    at: int,
    expected_device_id: u32,
    expected_packet_id: PacketId,
) -> Decoded<usize> {
    if !has_bytes(data, at, 4) {
        Decoded::Short
    } else if le32(data, at) != expected_device_id {
        Decoded::Invalid {
            message: device_id_message(expected_device_id, le32(data, at)),
            next: at + 4,
        }
    } else if !has_bytes(data, at + 4, 4) {
        Decoded::Short
    } else {
        match PacketId::from_code(le32(data, at + 4)) {
            None => Decoded::Invalid {
                message: unknown_code_message("unknown packed ID \""@, le32(data, at + 4)),
                next: at + 8,
            },
            Some(packet_id) => {
                if packet_id != expected_packet_id {
                    Decoded::Invalid {
                        message: packet_id_message(expected_packet_id, packet_id),
                        next: at + 8,
                    }
                } else if !has_bytes(data, at + 8, 4) {
                    Decoded::Short
                } else {
                    Decoded::Value { value: le32(data, at + 8) as usize, next: at + 12 }
                }
            },
        }
    }
}

/// What `data` decodes to as a header, from `at` on: the length of the
/// payload that the header declares.
pub open spec fn decode_header(
    data: Seq<u8>,
    at: int,
    expected_device_id: u32,
    expected_packet_id: PacketId,
) -> Decoded<usize> {
    match decode_magic(data, at, magic()) {
        Decoded::Value { value, next } => decode_header_fields(
            data,
            next,
            expected_device_id,
            expected_packet_id,
        ),
        Decoded::Invalid { message, next } => Decoded::Invalid { message, next },
        Decoded::Short => Decoded::Short,
    }
}

/// What `data` decodes to as a packet, from `at` on: the payload, once the
/// header is found to be the expected one.
pub open spec fn decode_packet<O: OpenRGBReadable>(
    data: Seq<u8>,
    at: int,
    protocol: u32,
    expected_device_id: u32,
    expected_packet_id: PacketId,
) -> Decoded<O::V> {
    match decode_header(data, at, expected_device_id, expected_packet_id) {
        Decoded::Value { value, next } => O::decode(data, next, protocol),
        Decoded::Invalid { message, next } => Decoded::Invalid { message, next },
        Decoded::Short => Decoded::Short,
    }
}

/// The first twelve bytes of a header: the magic, the device id and the
/// packet id.
pub open spec fn header_prefix(device_id: u32, packet_id: PacketId) -> Seq<u8> {
    magic() + u32_bytes(device_id) + u32_bytes(packet_id.code())
}

/// What a header encodes to. A length beyond 32 bits is refused, after the
/// first twelve bytes have been written.
pub open spec fn encode_header(device_id: u32, packet_id: PacketId, data_len: usize) -> Encoded {
    (Encoded::Bytes { bytes: header_prefix(device_id, packet_id) }).followed_by(
        encode_size(data_len),
    )
}

/// The sixteen bytes of a header that declares a payload of `len` bytes.
pub open spec fn header_bytes(device_id: u32, packet_id: PacketId, len: u32) -> Seq<u8> {
    header_prefix(device_id, packet_id) + u32_bytes(len)
}

/// What a packet with payload `value` encodes to: the header, which declares
/// the length of the payload's encoding, and the payload. A payload that
/// cannot be encoded, or whose encoding is longer than 32 bits can say, is
/// refused. A packet is written whole or not at all.
pub open spec fn encode_packet<I: OpenRGBWritable>(
    protocol: u32,
    device_id: u32,
    packet_id: PacketId,
    value: I::V,
) -> Encoded {
    match I::encode(value, protocol) {
        Encoded::Bytes { bytes: payload } => {
            if payload.len() <= u32::MAX {
                Encoded::Bytes {
                    bytes: header_bytes(device_id, packet_id, payload.len() as u32) + payload,
                }
            } else {
                Encoded::Refused {
                    message: size_too_large_message(payload.len()),
                    sent: Seq::empty(),
                }
            }
        },
        Encoded::Refused { message, sent } => Encoded::Refused { message, sent: Seq::empty() },
    }
}

/// The length of the payload that a header declares, whatever else the
/// header holds; nothing, where `header` is shorter than a header.
pub fn declared_length(header: &[u8]) -> (r: Option<usize>)
    ensures
        r == (if has_bytes(header@, 0, 16) {
            Some(le32(header@, 12) as usize)
        } else {
            None
        }),
{
    if header.len() < HEADER_LEN {
        return None;
    }
    let b0: u32 = header[12] as u32;
    let b1: u32 = header[13] as u32;
    let b2: u32 = header[14] as u32;
    let b3: u32 = header[15] as u32;
    Some((b0 + 256 * b1 + 65536 * b2 + 16777216 * b3) as usize)
}

/// What a caller that moves the bytes of an exchange does next, once the
/// operation has been run on the bytes received so far.
#[derive(Debug)]
pub enum Step<T> {
    /// Receive `count` more bytes, and run the operation again on all the
    /// bytes received.
    Receive { count: usize },
    /// The exchange is over, with this result.
    Finish { result: Result<T, OpenRGBError> },
}

/// The step that follows a run of an operation on `received`, which ended
/// with `outcome`.
///
/// A run that ended for want of bytes is followed by more bytes: the
/// header, where nothing has been received, and the payload that the header
/// declares, where the header alone has been received and declares one.
/// Every other run ends the exchange with its outcome: a result, a header
/// that was not accepted, or a payload that ended before its value was
/// complete.
pub open spec fn step_after<T>(received: Seq<u8>, outcome: Result<T, OpenRGBError>) -> Step<T> {
    if outcome matches Err(OpenRGBError::CommunicationError { .. }) {
        if received.len() == 0 {
            Step::Receive { count: HEADER_LEN }
        } else if received.len() == HEADER_LEN && le32(received, 12) > 0 {
            Step::Receive { count: le32(received, 12) as usize }
        } else {
            Step::Finish { result: outcome }
        }
    } else {
        Step::Finish { result: outcome }
    }
}

/// Decides what follows a run of an operation on `received`, which ended
/// with `outcome`.
pub fn next_step<T>(received: &[u8], outcome: Result<T, OpenRGBError>) -> (step: Step<T>)
    ensures
        step == step_after(received@, outcome),
{
    match outcome {
        Err(OpenRGBError::CommunicationError { source }) => {
            let outcome = Err(OpenRGBError::CommunicationError { source });
            if received.len() == 0 {
                Step::Receive { count: HEADER_LEN }
            } else if received.len() == HEADER_LEN {
                match declared_length(received) {
                    Some(count) => {
                        if count > 0 {
                            Step::Receive { count }
                        } else {
                            Step::Finish { result: outcome }
                        }
                    },
                    None => Step::Finish { result: outcome },
                }
            } else {
                Step::Finish { result: outcome }
            }
        },
        other => Step::Finish { result: other },
    }
}

/// The magic byte at `index`.
fn magic_byte(index: usize) -> (byte: u8)
    requires
        index < 4,
    ensures
        byte == magic()[index as int],
{
    if index == 0 {
        79
    } else if index == 1 {
        82
    } else if index == 2 {
        71
    } else {
        66
    }
}

/// Builds the message for a packet that names another device than expected.
fn device_id_mismatch(expected: u32, actual: u32) -> (s: String)
    ensures
        s@ == device_id_message(expected, actual),
{
    let s = String::from_str("expected device ID ");
    let s = s.concat(decimal_string(expected as u64).as_str());
    let s = s.concat(", got ");
    s.concat(decimal_string(actual as u64).as_str())
}

/// Builds the message for a packet of another kind than expected.
fn packet_id_mismatch(expected: PacketId, actual: PacketId) -> (s: String)
    ensures
        s@ == packet_id_message(expected, actual),
{
    let s = String::from_str("expected packet ID ");
    let s = s.concat(expected.name());
    let s = s.concat(", got ");
    s.concat(actual.name())
}

/// Writes a header that declares a payload of `data_len` bytes.
fn put_header<W: ByteSink>(
    stream: &mut W,
    protocol: u32,
    device_id: u32,
    packet_id: PacketId,
    data_len: usize,
) -> (r: Result<(), OpenRGBError>)
    ensures
        write_matches(
            encode_header(device_id, packet_id, data_len),
            r,
            old(stream).written(),
            final(stream).written(),
        ),
{
    let mut start: Vec<u8> = Vec::new();
    start.push(79u8);
    start.push(82u8);
    start.push(71u8);
    start.push(66u8);
    assert(start@ =~= magic());
    stream.write_all(start.as_slice());
    write_u32(stream, device_id);
    write_u32(stream, packet_id.wire_code());
    let ghost prefix = header_prefix(device_id, packet_id);
    assert(stream.written() =~= old(stream).written() + prefix);
    let r = data_len.write(stream, protocol);
    proof {
        match encode_size(data_len) {
            Encoded::Bytes { bytes } => {
                assert(stream.written() =~= old(stream).written() + (prefix + bytes));
            },
            Encoded::Refused { message, sent } => {
                assert(stream.written() =~= old(stream).written() + (prefix + sent));
            },
        }
    }
    r
}

/// A stream that values and packets can be read from.
pub trait OpenRGBReadableStream: ByteSource {
    /// Reads one value.
    fn read_value<T: OpenRGBReadable>(&mut self, protocol: u32) -> (r: Result<T, OpenRGBError>)
        ensures
            final(self).data() == old(self).data(),
            read_matches(
                T::decode(old(self).data(), old(self).pos(), protocol),
                r,
                final(self).pos(),
                old(self).data().len() as int,
            ),
    {
        T::read(self, protocol)
    }

    /// Reads a header and holds it against the device id and packet id
    /// that are expected. Returns the length of the payload that the
    /// header declares.
    fn read_header(
        &mut self,
        protocol: u32,
        expected_device_id: u32,
        expected_packet_id: PacketId,
    ) -> (r: Result<usize, OpenRGBError>)
        ensures
            final(self).data() == old(self).data(),
            read_matches(
                decode_header(
                    old(self).data(),
                    old(self).pos(),
                    expected_device_id,
                    expected_packet_id,
                ),
                r,
                final(self).pos(),
                old(self).data().len() as int,
            ),
    {
        let ghost data = self.data();
        let ghost at = self.pos();
        let mut i: usize = 0;
        assert(magic().skip(0) =~= magic());
        while i < 4
            invariant
                i <= 4,
                self.data() == data,
                data == old(self).data(),
                at == old(self).pos(),
                self.pos() == at + i,
                decode_magic(data, at, magic()) == decode_magic(data, at + i, magic().skip(i as int)),
            decreases 4 - i,
        {
            proof {
                assert(magic().skip(i as int).drop_first() =~= magic().skip(i + 1));
            }
            let bytes = self.read_exact(1)?;
            let byte = bytes[0];
            if byte != magic_byte(i) {
                return Err(
                    OpenRGBError::ProtocolError(
                        unknown_code("expected OpenRGB magic value, got \"", byte as u32),
                    ),
                );
            }
            i += 1;
        }
        let device_id = read_u32(self)?;
        if device_id != expected_device_id {
            return Err(
                OpenRGBError::ProtocolError(device_id_mismatch(expected_device_id, device_id)),
            );
        }
        let packet_id = PacketId::read(self, protocol)?;
        if packet_id != expected_packet_id {
            return Err(
                OpenRGBError::ProtocolError(packet_id_mismatch(expected_packet_id, packet_id)),
            );
        }
        let len = read_u32(self)?;
        Ok(len as usize)
    }

    /// Reads a packet: its header, which must be the expected one, then its
    /// payload.
    fn read_packet<O: OpenRGBReadable>(
        &mut self,
        protocol: u32,
        expected_device_id: u32,
        expected_packet_id: PacketId,
    ) -> (r: Result<O, OpenRGBError>)
        ensures
            final(self).data() == old(self).data(),
            read_matches(
                decode_packet::<O>(
                    old(self).data(),
                    old(self).pos(),
                    protocol,
                    expected_device_id,
                    expected_packet_id,
                ),
                r,
                final(self).pos(),
                old(self).data().len() as int,
            ),
    {
        self.read_header(protocol, expected_device_id, expected_packet_id)?;
        self.read_value(protocol)
    }
}

/// A stream that values and packets can be written to.
pub trait OpenRGBWritableStream: ByteSink {
    /// Writes one value.
    fn write_value<T: OpenRGBWritable>(&mut self, value: T, protocol: u32) -> (r: Result<
        (),
        OpenRGBError,
    >)
        ensures
            write_matches(
                T::encode(value.deep_view(), protocol),
                r,
                old(self).written(),
                final(self).written(),
            ),
    {
        value.write(self, protocol)
    }

    /// Writes a header that declares a payload of `data_len` bytes.
    fn write_header(&mut self, protocol: u32, device_id: u32, packet_id: PacketId, data_len: usize)
        -> (r: Result<(), OpenRGBError>)
        ensures
            write_matches(
                encode_header(device_id, packet_id, data_len),
                r,
                old(self).written(),
                final(self).written(),
            ),
    {
        put_header(self, protocol, device_id, packet_id, data_len)
    }

    /// Writes a packet: the header, which declares the length of the
    /// encoding of `data`, then that encoding. The packet is put together
    /// first, so that the stream gets all of it or, where it cannot be
    /// encoded, nothing.
    fn write_packet<I: OpenRGBWritable>(
        &mut self,
        protocol: u32,
        device_id: u32,
        packet_id: PacketId,
        data: I,
    ) -> (r: Result<(), OpenRGBError>)
        ensures
            write_matches(
                encode_packet::<I>(protocol, device_id, packet_id, data.deep_view()),
                r,
                old(self).written(),
                final(self).written(),
            ),
    {
        assert(self.written() =~= self.written() + Seq::<u8>::empty());
        let mut payload: Vec<u8> = Vec::new();
        data.write(&mut payload, protocol)?;
        assert(payload@ =~= I::encode(data.deep_view(), protocol)->bytes);
        let mut packet: Vec<u8> = Vec::new();
        put_header(&mut packet, protocol, device_id, packet_id, payload.len())?;
        packet.write_all(payload.as_slice());
        assert(packet@ =~= header_bytes(device_id, packet_id, payload.len() as u32) + payload@);
        self.write_all(packet.as_slice());
        Ok(())
    }
}

/// A stream that packets can be exchanged over. Its two directions are
/// independent: writing consumes nothing, and reading writes nothing.
pub trait OpenRGBStream: OpenRGBReadableStream + OpenRGBWritableStream {
    /// Writes a packet as `write_packet` does, and leaves what is to be
    /// read as it is.
    fn send<I: OpenRGBWritable>(
        &mut self,
        protocol: u32,
        device_id: u32,
        packet_id: PacketId,
        data: I,
    ) -> (r: Result<(), OpenRGBError>)
        ensures
            write_matches(
                encode_packet::<I>(protocol, device_id, packet_id, data.deep_view()),
                r,
                old(self).written(),
                final(self).written(),
            ),
            final(self).data() == old(self).data(),
            final(self).pos() == old(self).pos(),
    ;

    /// Reads a packet as `read_packet` does, and leaves what was written
    /// as it is.
    fn receive<O: OpenRGBReadable>(
        &mut self,
        protocol: u32,
        expected_device_id: u32,
        expected_packet_id: PacketId,
    ) -> (r: Result<O, OpenRGBError>)
        ensures
            final(self).data() == old(self).data(),
            final(self).written() == old(self).written(),
            read_matches(
                decode_packet::<O>(
                    old(self).data(),
                    old(self).pos(),
                    protocol,
                    expected_device_id,
                    expected_packet_id,
                ),
                r,
                final(self).pos(),
                old(self).data().len() as int,
            ),
    ;

    /// Writes a packet, then reads the reply, which must carry the same
    /// device id and packet id. Nothing is read where the packet cannot be
    /// written.
    fn request<I: OpenRGBWritable, O: OpenRGBReadable>(
        &mut self,
        protocol: u32,
        device_id: u32,
        packet_id: PacketId,
        data: I,
    ) -> (r: Result<O, OpenRGBError>)
        ensures
            final(self).data() == old(self).data(),
            match encode_packet::<I>(protocol, device_id, packet_id, data.deep_view()) {
                Encoded::Bytes { bytes } => {
                    &&& final(self).written() == old(self).written() + bytes
                    &&& read_matches(
                        decode_packet::<O>(
                            old(self).data(),
                            old(self).pos(),
                            protocol,
                            device_id,
                            packet_id,
                        ),
                        r,
                        final(self).pos(),
                        old(self).data().len() as int,
                    )
                },
                Encoded::Refused { message, sent } => {
                    &&& r matches Err(OpenRGBError::ProtocolError(m)) && m@ == message
                    &&& final(self).written() == old(self).written()
                    &&& final(self).pos() == old(self).pos()
                },
            },
    {
        self.send(protocol, device_id, packet_id, data)?;
        self.receive(protocol, device_id, packet_id)
    }
}

impl OpenRGBReadableStream for ByteReader {
}

impl OpenRGBWritableStream for Vec<u8> {
}

} // verus!
