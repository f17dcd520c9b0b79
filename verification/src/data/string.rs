//! Text on the wire.
//!
//! A string is a two-byte length, the UTF-8 bytes of the text and one zero
//! byte; the length counts the text's bytes and the terminator. A text of
//! 65535 bytes or more has no such length: it is refused, and nothing of it
//! is written.

use vstd::prelude::*;
use vstd::string::*;
use vstd::utf8::*;
use crate::data::primitive::{le16, read_u16, u16_bytes, write_u16, lemma_le16_of_bytes};
use crate::data::{
    Decoded, Encoded, OpenRGBReadable, OpenRGBSymmetric, OpenRGBWritable, has_bytes,
    invalid_utf8_message,
};
use crate::error::OpenRGBError;
use crate::stream::{ByteSink, ByteSource};
use crate::text::{decimal, decimal_string};

verus! {

/// `std::string::FromUtf8Error`, of which nothing is known here but that
/// `String::from_utf8` returns it for bytes that are not UTF-8.
#[verifier::external_type_specification]
#[verifier::external_body]
pub struct ExFromUtf8Error(std::string::FromUtf8Error);

/// `String::from_utf8`: succeeds exactly on well-formed UTF-8, and the
/// string it returns is the text that those bytes spell.
#[verifier::external_body]
fn string_from_utf8(bytes: Vec<u8>) -> (r: Result<String, std::string::FromUtf8Error>)
    ensures
        match r {
            Ok(s) => valid_utf8(bytes@) && s@ == decode_utf8(bytes@),
            Err(_) => !valid_utf8(bytes@),
        },
{
    String::from_utf8(bytes)
}

/// `ToString::to_string` on a `FromUtf8Error`: the reason, in words, why
/// bytes are not UTF-8. Nothing is claimed of the text.
#[verifier::external_body]
fn utf8_error_text(error: &std::string::FromUtf8Error) -> String {
    error.to_string()
}

/// The most bytes that a text can have for its length to fit the field.
pub const MAX_TEXT_BYTES: usize = 65534;

/// Whether the length of `text` fits the length field: its bytes and the
/// terminator are at most 65535.
pub open spec fn string_fits(text: Seq<char>) -> bool {
    encode_utf8(text).len() + 1 <= 65535
}

/// The length field of a text of `count` bytes: the bytes and the
/// terminator, for a text that fits.
pub open spec fn length_field(count: nat) -> u16
    recommends
        count + 1 <= 65535,
{
    (count + 1) as u16
}

/// The message for a text of `count` bytes, which is too long for the
/// length field.
pub open spec fn string_too_large_message(count: nat) -> Seq<char> {
    "String is too large to encode: "@ + decimal(count) + " bytes"@
}

/// Builds the message for a text that is too long for the length field.
pub fn string_too_large(count: usize) -> (s: String)
    ensures
        s@ == string_too_large_message(count as nat),
{
    let s = String::from_str("String is too large to encode: ");
    let s = s.concat(decimal_string(count as u64).as_str());
    s.concat(" bytes")
}

/// The bytes of `text` followed by the zero terminator.
pub open spec fn raw_string_bytes(text: Seq<char>) -> Seq<u8> {
    encode_utf8(text) + seq![0u8]
}

/// The encoding of a text that fits: length field, bytes, terminator.
pub open spec fn string_bytes(text: Seq<char>) -> Seq<u8> {
    u16_bytes(length_field(encode_utf8(text).len())) + raw_string_bytes(text)
}

/// The bytes that a string of declared length `len`, whose length field
/// stands at `at`, takes its text from: all but the last of the `len` bytes
/// that follow the field.
pub open spec fn string_text_bytes(data: Seq<u8>, at: int, len: int) -> Seq<u8> {
    if len == 0 {
        Seq::empty()
    } else {
        data.subrange(at + 2, at + 2 + len - 1)
    }
}

impl OpenRGBReadable for String {
    open spec fn decode(data: Seq<u8>, at: int, protocol: u32) -> Decoded<Seq<char>> {
        if !has_bytes(data, at, 2) {
            Decoded::Short
        } else {
            let len = le16(data, at) as int;
            if !has_bytes(data, at + 2, len) {
                Decoded::Short
            } else if valid_utf8(string_text_bytes(data, at, len)) {
                Decoded::Value {
                    value: decode_utf8(string_text_bytes(data, at, len)),
                    next: at + 2 + len,
                }
            } else {
                Decoded::Invalid { message: invalid_utf8_message(), next: at + 2 + len }
            }
        }
    }

    fn read<S: ByteSource>(stream: &mut S, protocol: u32) -> (r: Result<Self, OpenRGBError>) {
        let ghost expected = Self::decode(stream.data(), stream.pos(), protocol);
        let ghost at = stream.pos();
        let len = match read_u16(stream) {
            Ok(len) => len,
            Err(e) => {
                return Err(e);
            },
        };
        let mut buf = match stream.read_exact(len as usize) {
            Ok(buf) => buf,
            Err(e) => {
                return Err(e);
            },
        };
        buf.pop();
        assert(buf@ =~= string_text_bytes(stream.data(), at, len as int));
        match string_from_utf8(buf) {
            Ok(s) => Ok(s),
            Err(error) => {
                let reason = utf8_error_text(&error);
                let message = String::from_str("Failed decoding string as UTF-8: ").concat(
                    reason.as_str(),
                );
                assert(message@.subrange(0, invalid_utf8_message().len() as int)
                    =~= invalid_utf8_message());
                Err(OpenRGBError::ProtocolError(message))
            },
        }
    }
}

/// Writes the length field for a text of `count` bytes.
fn write_length_field<W: ByteSink>(stream: &mut W, count: usize)
    requires
        count <= MAX_TEXT_BYTES,
    ensures
        final(stream).written() == old(stream).written() + u16_bytes(length_field(count as nat)),
{
    write_u16(stream, (count + 1) as u16);
}

/// Writes the bytes of `text` and the terminator.
fn write_raw<W: ByteSink>(stream: &mut W, text: &str)
    ensures
        final(stream).written() == old(stream).written() + raw_string_bytes(text@),
{
    stream.write_all(text.as_bytes());
    let mut end: Vec<u8> = Vec::new();
    end.push(0u8);
    assert(end@ =~= seq![0u8]);
    stream.write_all(end.as_slice());
    assert(stream.written() =~= old(stream).written() + raw_string_bytes(text@));
}

impl OpenRGBWritable for String {
    open spec fn wire_size(value: Seq<char>, protocol: u32) -> nat {
        encode_utf8(value).len() + 3
    }

    open spec fn encode(value: Seq<char>, protocol: u32) -> Encoded {
        if string_fits(value) {
            Encoded::Bytes { bytes: string_bytes(value) }
        } else {
            Encoded::Refused {
                message: string_too_large_message(encode_utf8(value).len()),
                sent: Seq::empty(),
            }
        }
    }

    proof fn lemma_encoded_size(value: Seq<char>, protocol: u32) {
        assert(Self::encode(value, protocol) matches Encoded::Bytes { bytes } ==> bytes.len()
            == Self::wire_size(value, protocol));
    }

    fn size(&self, protocol: u32) -> (n: usize) {
        let ghost declared = Self::wire_size(self.deep_view(), protocol);
        self.as_str().as_bytes().len().saturating_add(3)
    }

    fn write<W: ByteSink>(&self, stream: &mut W, protocol: u32) -> (r: Result<(), OpenRGBError>) {
        let ghost expected = Self::encode(self.deep_view(), protocol);
        let count = self.as_str().as_bytes().len();
        if count > MAX_TEXT_BYTES {
            assert(stream.written() =~= stream.written() + Seq::<u8>::empty());
            return Err(OpenRGBError::ProtocolError(string_too_large(count)));
        }
        write_length_field(stream, count);
        write_raw(stream, self.as_str());
        assert(stream.written() =~= old(stream).written() + string_bytes(self@));
        Ok(())
    }
}

impl OpenRGBSymmetric for String {
    open spec fn round_trips(value: Seq<char>, protocol: u32) -> bool {
        string_fits(value)
    }

    proof fn lemma_round_trip(value: Seq<char>, protocol: u32, before: Seq<u8>, after: Seq<u8>) {
        let text = encode_utf8(value);
        let field = length_field(text.len());
        let rest = raw_string_bytes(value) + after;
        let data = before + string_bytes(value) + after;
        let at = before.len() as int;
        assert(data =~= before + u16_bytes(field) + rest);
        lemma_le16_of_bytes(field, before, rest);
        assert(string_text_bytes(data, at, field as int) =~= text);
        encode_utf8_valid_utf8(value);
        encode_utf8_decode_utf8(value);
        assert(Self::round_trips(value, protocol) && Self::decode(
            before + Self::encode(value, protocol)->bytes + after,
            before.len() as int,
            protocol,
        ) is Value);
    }
}

/// Text that is written without a length before it: the bytes and the
/// terminator only. Used for the client's name.
#[derive(Debug, Clone, PartialEq, Eq)]
pub struct RawString(pub String);

impl DeepView for RawString {
    type V = Seq<char>;

    open spec fn deep_view(&self) -> Seq<char> {
        self.0@
    }
}

impl OpenRGBWritable for RawString {
    open spec fn wire_size(value: Seq<char>, protocol: u32) -> nat {
        encode_utf8(value).len() + 1
    }

    open spec fn encode(value: Seq<char>, protocol: u32) -> Encoded {
        Encoded::Bytes { bytes: raw_string_bytes(value) }
    }

    proof fn lemma_encoded_size(value: Seq<char>, protocol: u32) {
        assert(Self::encode(value, protocol) matches Encoded::Bytes { bytes } ==> bytes.len()
            == Self::wire_size(value, protocol));
    }

    fn size(&self, protocol: u32) -> (n: usize) {
        let ghost declared = Self::wire_size(self.deep_view(), protocol);
        self.0.as_str().as_bytes().len().saturating_add(1)
    }

    fn write<W: ByteSink>(&self, stream: &mut W, protocol: u32) -> (r: Result<(), OpenRGBError>) {
        let ghost expected = Self::encode(self.deep_view(), protocol);
        write_raw(stream, self.0.as_str());
        Ok(())
    }
}

} // verus!
