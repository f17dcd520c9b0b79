//! What holds of the codec as a whole.
//!
//! Each law relates several of the library's functions and is proved from
//! their definitions.

use vstd::prelude::*;
use crate::client::{negotiated, DEFAULT_PROTOCOL};
use crate::data::mode::{Mode, fields_as_flagged, lemma_decoded_fields_as_flagged};
use crate::data::mode_flag::{
    FlagSet, ModeFlag, has_flag, invalid_flags_message, known_bits, lemma_known_bits_small,
};
use crate::data::primitive::{
    le16, le32, lemma_le16_of_bytes, lemma_le32_of_bytes, u16_bytes, u32_bytes,
};
use crate::data::string::{
    length_field, raw_string_bytes, string_bytes, string_fits, string_too_large_message,
};
use vstd::utf8::*;
use crate::data::vec::{lemma_decode_words, vec_too_large_message};
use crate::data::zone::decode_matrix;
use crate::data::{
    Decoded, Encoded, OpenRGBReadable, OpenRGBSymmetric, OpenRGBWritable, PacketId, has_bytes,
};
use crate::protocol::{
    decode_header, decode_magic, decode_packet, device_id_message, encode_packet, header_bytes,
    magic, magic_message, packet_id_message,
};

verus! {

/// Decoding what a value encodes to gives the value back, and consumes
/// exactly its encoding.
///
/// This holds of every value that `round_trips` admits. For integers, colors
/// and enumerations that is every value; for the other types it is the
/// values that an encoding can describe: a size within 32 bits, a string
/// short enough for its length field, a flag set without foreign bits, a
/// sequence of at most 65535 elements, a mode whose optional fields are
/// those that its flags call for.
pub proof fn round_trip_law<T: OpenRGBSymmetric>(value: T::V, protocol: u32)
    requires
        T::round_trips(value, protocol),
    ensures
        T::encode(value, protocol) matches Encoded::Bytes { bytes } && T::decode(
            bytes,
            0,
            protocol,
        ) == (Decoded::Value { value, next: bytes.len() as int }),
{
    T::lemma_round_trip(value, protocol, Seq::empty(), Seq::empty());
    let bytes = T::encode(value, protocol)->bytes;
    assert(Seq::<u8>::empty() + bytes + Seq::<u8>::empty() =~= bytes);
}

/// The encoding of a value says how long it is: a value decodes the same
/// whatever follows it in the stream.
pub proof fn self_delimiting_law<T: OpenRGBSymmetric>(value: T::V, protocol: u32, after: Seq<u8>)
    requires
        T::round_trips(value, protocol),
    ensures
        T::encode(value, protocol) matches Encoded::Bytes { bytes } && T::decode(
            bytes + after,
            0,
            protocol,
        ) == (Decoded::Value { value, next: bytes.len() as int }),
{
    T::lemma_round_trip(value, protocol, Seq::empty(), after);
    let bytes = T::encode(value, protocol)->bytes;
    assert(Seq::<u8>::empty() + bytes + after =~= bytes + after);
}

/// A sequence of at most 65535 elements, each of which round-trips, comes
/// back from its encoding with the same elements in the same order.
pub proof fn sequence_round_trip_law<T: OpenRGBSymmetric>(items: Seq<T::V>, protocol: u32)
    requires
        items.len() <= 65535,
        forall|i: int| 0 <= i < items.len() ==> T::round_trips(#[trigger] items[i], protocol),
    ensures
        Vec::<T>::encode(items, protocol) matches Encoded::Bytes { bytes } && Vec::<T>::decode(
            bytes,
            0,
            protocol,
        ) matches Decoded::Value { value, next } && value.len() == items.len() && (forall|i: int|
            0 <= i < items.len() ==> value[i] == items[i]) && next == bytes.len(),
{
    round_trip_law::<Vec<T>>(items, protocol);
}

/// A sequence of more than 65535 elements is refused, and nothing of it is
/// written: it is never cut short.
pub proof fn sequence_limit_law<T: OpenRGBWritable>(items: Seq<T::V>, protocol: u32)
    requires
        items.len() > 65535,
    ensures
        Vec::<T>::encode(items, protocol) == (Encoded::Refused {
            message: vec_too_large_message(),
            sent: Seq::empty(),
        }),
{
}

/// A text whose bytes and terminator are more than 65535 is refused, and
/// nothing of it is written: its length is never wrapped into the field.
pub proof fn string_limit_law(text: Seq<char>, protocol: u32)
    requires
        !string_fits(text),
    ensures
        String::encode(text, protocol) == (Encoded::Refused {
            message: string_too_large_message(encode_utf8(text).len()),
            sent: Seq::empty(),
        }),
{
}

/// A text that fits its length field is written with a length that is the
/// number of its bytes and one more, and comes back from its encoding.
pub proof fn string_length_law(text: Seq<char>, protocol: u32)
    requires
        string_fits(text),
    ensures
        String::encode(text, protocol) matches Encoded::Bytes { bytes } && bytes.len()
            == encode_utf8(text).len() + 3 && le16(bytes, 0) == encode_utf8(text).len() + 1
            && String::decode(bytes, 0, protocol) == (Decoded::Value {
            value: text,
            next: bytes.len() as int,
        }),
{
    round_trip_law::<String>(text, protocol);
    let field = length_field(encode_utf8(text).len());
    lemma_le16_of_bytes(field, Seq::empty(), raw_string_bytes(text));
    assert(Seq::<u8>::empty() + u16_bytes(field) + raw_string_bytes(text) =~= string_bytes(text));
}

/// An integer decodes to a flag set exactly when it has no bit that no
/// flag owns, that is when it is below 1024. The set then has the bits of
/// the integer, so that it contains a flag exactly when the integer has
/// every bit of that flag.
pub proof fn flag_set_law(bits: u32, protocol: u32)
    ensures
        known_bits(bits) <==> bits < 1024,
        known_bits(bits) ==> FlagSet::decode(u32_bytes(bits), 0, protocol) == (Decoded::Value {
            value: bits,
            next: 4,
        }),
        !known_bits(bits) ==> FlagSet::decode(u32_bytes(bits), 0, protocol) == (Decoded::<
            u32,
        >::Invalid { message: invalid_flags_message(bits), next: 4 }),
        forall|flag: ModeFlag| has_flag(bits, flag) <==> bits & flag.mask() == flag.mask(),
{
    lemma_known_bits_small(bits);
    lemma_le32_of_bytes(bits, Seq::empty(), Seq::empty());
    assert(Seq::<u8>::empty() + u32_bytes(bits) + Seq::<u8>::empty() =~= u32_bytes(bits));
}

/// A decoded mode has exactly the optional fields that its flags, its
/// colors and the protocol version call for. Before protocol 3, whose
/// block has no brightness fields, it has no brightness whatever its flags
/// say, and its other fields go by the flags as they do from protocol 3 on.
pub proof fn mode_presence_law(data: Seq<u8>, at: int, protocol: u32)
    ensures
        Mode::decode(data, at, protocol) matches Decoded::Value { value, next } ==> {
            &&& fields_as_flagged(value, protocol)
            &&& protocol < 3 ==> value.brightness_min is None && value.brightness_max is None
                && value.brightness is None
            &&& value.speed is Some <==> has_flag(value.flags, ModeFlag::HasSpeed)
            &&& value.direction is Some <==> has_flag(value.flags, ModeFlag::HasDirection)
            &&& protocol >= 3 ==> (value.brightness is Some <==> has_flag(
                value.flags,
                ModeFlag::HasBrightness,
            ))
        },
{
    lemma_decoded_fields_as_flagged(data, at, protocol);
}

/// The version that client and server agree on is the lower of the
/// client's highest and the server's.
pub proof fn negotiation_law(server: u32)
    ensures
        negotiated(server) <= server,
        negotiated(server) <= DEFAULT_PROTOCOL,
        negotiated(server) == server || negotiated(server) == DEFAULT_PROTOCOL,
{
}

/// A header whose byte `index` is the first that differs from the magic
/// fails with an error that names that byte, and nothing after the byte is
/// consumed.
pub proof fn wrong_magic_law(
    data: Seq<u8>,
    at: int,
    index: int,
    expected_device_id: u32,
    expected_packet_id: PacketId,
)
    requires
        0 <= index < 4,
        has_bytes(data, at, index + 1),
        forall|j: int| 0 <= j < index ==> data[at + j] == magic()[j],
        data[at + index] != magic()[index],
    ensures
        decode_header(data, at, expected_device_id, expected_packet_id) == (Decoded::<
            usize,
        >::Invalid { message: magic_message(data[at + index]), next: at + index + 1 }),
{
    let m0 = magic();
    let m1 = m0.drop_first();
    let m2 = m1.drop_first();
    let m3 = m2.drop_first();
    assert(m1[0] == m0[1] && m2[0] == m0[2] && m3[0] == m0[3]);
    assert(data[at + 0] == data[at]);
    reveal_with_fuel(decode_magic, 5);
}

/// A header with the magic in place and a device id other than the
/// expected one fails with an error that names both.
pub proof fn wrong_device_id_law(
    data: Seq<u8>,
    at: int,
    expected_device_id: u32,
    expected_packet_id: PacketId,
)
    requires
        has_bytes(data, at, 8),
        forall|j: int| 0 <= j < 4 ==> data[at + j] == magic()[j],
        le32(data, at + 4) != expected_device_id,
    ensures
        decode_header(data, at, expected_device_id, expected_packet_id) == (Decoded::<
            usize,
        >::Invalid {
            message: device_id_message(expected_device_id, le32(data, at + 4)),
            next: at + 8,
        }),
{
    lemma_magic_in_place(data, at);
}

/// A header with the magic and the device id in place and a packet id
/// other than the expected one fails with an error that names both.
pub proof fn wrong_packet_id_law(
    data: Seq<u8>,
    at: int,
    expected_packet_id: PacketId,
    actual_packet_id: PacketId,
)
    requires
        has_bytes(data, at, 12),
        forall|j: int| 0 <= j < 4 ==> data[at + j] == magic()[j],
        PacketId::from_code(le32(data, at + 8)) == Some(actual_packet_id),
        actual_packet_id != expected_packet_id,
    ensures
        decode_header(data, at, le32(data, at + 4), expected_packet_id) == (Decoded::<
            usize,
        >::Invalid {
            message: packet_id_message(expected_packet_id, actual_packet_id),
            next: at + 12,
        }),
{
    lemma_magic_in_place(data, at);
}

/// The magic bytes, where they stand in a stream, decode.
proof fn lemma_magic_in_place(data: Seq<u8>, at: int)
    requires
        has_bytes(data, at, 4),
        forall|j: int| 0 <= j < 4 ==> data[at + j] == magic()[j],
    ensures
        decode_magic(data, at, magic()) == (Decoded::Value { value: (), next: at + 4 }),
{
    let m0 = magic();
    let m1 = m0.drop_first();
    let m2 = m1.drop_first();
    let m3 = m2.drop_first();
    assert(m1[0] == m0[1] && m2[0] == m0[2] && m3[0] == m0[3]);
    assert(m3.drop_first().len() == 0);
    assert(data[at + 0] == data[at]);
    reveal_with_fuel(decode_magic, 5);
}

/// The length that a packet's header declares is the size that the codec
/// declares for the payload, and the length of the payload that follows.
pub proof fn payload_length_law<I: OpenRGBWritable>(
    protocol: u32,
    device_id: u32,
    packet_id: PacketId,
    value: I::V,
)
    ensures
        encode_packet::<I>(protocol, device_id, packet_id, value) matches Encoded::Bytes { bytes }
            ==> {
            &&& I::encode(value, protocol) matches Encoded::Bytes { bytes: payload }
            &&& payload.len() == I::wire_size(value, protocol)
            &&& I::wire_size(value, protocol) <= u32::MAX
            &&& bytes == header_bytes(
                device_id,
                packet_id,
                I::wire_size(value, protocol) as u32,
            ) + payload
        },
{
    I::lemma_encoded_size(value, protocol);
}

/// Nothing can be read from a stream that holds nothing: an operation that
/// waits for a reply, run before any byte has arrived, ends for want of
/// bytes whatever reply it waits for.
pub proof fn reply_due_law<O: OpenRGBReadable>(
    protocol: u32,
    expected_device_id: u32,
    expected_packet_id: PacketId,
)
    ensures
        decode_packet::<O>(Seq::empty(), 0, protocol, expected_device_id, expected_packet_id)
            is Short,
{
    reveal_with_fuel(decode_magic, 2);
}

/// A header that is not accepted fails the packet whatever follows it, with
/// the header's own error and at the header's own place: the payload has no
/// say, and need not have arrived.
pub proof fn header_first_law<O: OpenRGBReadable>(
    data: Seq<u8>,
    at: int,
    protocol: u32,
    expected_device_id: u32,
    expected_packet_id: PacketId,
)
    ensures
        decode_header(data, at, expected_device_id, expected_packet_id) matches Decoded::Invalid {
            message,
            next,
        } ==> decode_packet::<O>(data, at, protocol, expected_device_id, expected_packet_id) == (
        Decoded::<O::V>::Invalid { message, next }),
{
}

/// A header that is accepted takes sixteen bytes, and the length that it
/// declares is the integer in the last four of them.
pub proof fn declared_length_law(
    data: Seq<u8>,
    at: int,
    expected_device_id: u32,
    expected_packet_id: PacketId,
)
    ensures
        decode_header(data, at, expected_device_id, expected_packet_id) matches Decoded::Value {
            value,
            next,
        } ==> next == at + 16 && has_bytes(data, at, 16) && value == le32(data, at + 12) as usize,
{
    let m0 = magic();
    let m1 = m0.drop_first();
    let m2 = m1.drop_first();
    let m3 = m2.drop_first();
    assert(m3.drop_first().len() == 0);
    reveal_with_fuel(decode_magic, 5);
}

/// A packet that was written reads back: its header is accepted by a
/// reader that expects the same device id and packet id, and its payload
/// decodes to the value that was written.
pub proof fn packet_round_trip_law<T: OpenRGBSymmetric>(
    protocol: u32,
    device_id: u32,
    packet_id: PacketId,
    value: T::V,
)
    requires
        T::round_trips(value, protocol),
        T::wire_size(value, protocol) <= u32::MAX,
    ensures
        encode_packet::<T>(protocol, device_id, packet_id, value) matches Encoded::Bytes { bytes }
            && decode_packet::<T>(bytes, 0, protocol, device_id, packet_id) == (Decoded::Value {
            value,
            next: bytes.len() as int,
        }),
{
    T::lemma_encoded_size(value, protocol);
    let size = T::wire_size(value, protocol) as u32;
    let m = magic();
    let d = u32_bytes(device_id);
    let k = u32_bytes(packet_id.code());
    let l = u32_bytes(size);
    T::lemma_round_trip(value, protocol, m + d + k + l, Seq::empty());
    let payload = T::encode(value, protocol)->bytes;
    let bytes = m + d + k + l + payload;
    assert(encode_packet::<T>(protocol, device_id, packet_id, value)->bytes =~= bytes);
    assert(bytes =~= (m + d + k + l) + payload + Seq::<u8>::empty());
    assert forall|j: int| 0 <= j < 4 implies bytes[0 + j] == magic()[j] by {}
    lemma_magic_in_place(bytes, 0);
    lemma_le32_of_bytes(device_id, m, k + l + payload);
    assert(bytes =~= m + d + (k + l + payload));
    lemma_le32_of_bytes(packet_id.code(), m + d, l + payload);
    assert(bytes =~= (m + d) + k + (l + payload));
    lemma_le32_of_bytes(size, m + d + k, payload);
    packet_id.lemma_code_known();
}

/// The matrix of a zone is absent exactly when the matrix section declares
/// its own length as zero. A matrix that is present has the height and the
/// width that the section gives and `height * width` cells, and the cell in
/// row `i` and column `j` is the integer number `i * width + j` of those
/// that follow the width: the cells are laid out row by row.
pub proof fn zone_matrix_law(data: Seq<u8>, at: int, protocol: u32)
    requires
        0 <= at <= data.len(),
    ensures
        decode_matrix(data, at, protocol) matches Decoded::Value { value, next } ==> {
            &&& value is None <==> le16(data, at) == 0
            &&& value matches Some(matrix) ==> {
                &&& matrix.height == le32(data, at + 2)
                &&& matrix.width == le32(data, at + 6)
                &&& matrix.cells.len() == matrix.height * matrix.width
                &&& next == at + 10 + 4 * matrix.cells.len()
                &&& forall|i: int, j: int|
                    0 <= i < matrix.height && 0 <= j < matrix.width ==> #[trigger] matrix.cell(i, j)
                        == le32(data, at + 10 + 4 * (i * matrix.width + j))
            }
        },
{
    if has_bytes(data, at, 2) && le16(data, at) != 0 && has_bytes(data, at + 2, 8) {
        let height = le32(data, at + 2) as nat;
        let width = le32(data, at + 6) as nat;
        lemma_decode_words(data, at + 10, height * width, protocol);
        if decode_matrix(data, at, protocol) is Value {
            let matrix = decode_matrix(data, at, protocol)->value->0;
            assert forall|i: int, j: int|
                0 <= i < matrix.height && 0 <= j < matrix.width implies #[trigger] matrix.cell(i, j)
                == le32(data, at + 10 + 4 * (i * matrix.width + j)) by {
                assert(0 <= i * matrix.width + j < matrix.height * matrix.width)
                    by (nonlinear_arith)
                    requires
                        0 <= i < matrix.height,
                        0 <= j < matrix.width,
                ;
            }
        }
    }
}

} // verus!
