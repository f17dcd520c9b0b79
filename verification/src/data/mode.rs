//! Modes, in both directions.
//!
//! On the wire a mode is its name, a block of 32-bit fields and its colors.
//! The block holds, in this order:
//!
//! | field            | offset, protocol < 3 | offset, protocol >= 3 |
//! |------------------|----------------------|-----------------------|
//! | `value`          | 0                    | 0                     |
//! | `flags`          | 4                    | 4                     |
//! | `speed_min`      | 8                    | 8                     |
//! | `speed_max`      | 12                   | 12                    |
//! | `brightness_min` | absent               | 16                    |
//! | `brightness_max` | absent               | 20                    |
//! | `colors_min`     | 16                   | 24                    |
//! | `colors_max`     | 20                   | 28                    |
//! | `speed`          | 24                   | 32                    |
//! | `brightness`     | absent               | 36                    |
//! | `direction`      | 28                   | 40                    |
//! | `color_mode`     | 32                   | 44                    |
//!
//! The two directions are not symmetric. Decoding keeps a field only when
//! the mode's flags, or its colors, say that the mode has it. Encoding
//! writes every field of the block, and a default where the mode has none.

use vstd::prelude::*;
use crate::data::color::Color;
use crate::data::color_mode::ColorMode;
use crate::data::direction::Direction;
use crate::data::mode_flag::{FlagSet, ModeFlag, has_flag, invalid_flags_message, known_bits};
use crate::data::primitive::{
    bits_i32, i32_bits, i32_to_bits, le32, lemma_words_at, lemma_words_len, read_u32, words_bytes,
    write_words,
};
use crate::data::string::string_bytes;
use crate::data::{
    Decoded, Encoded, OpenRGBReadable, OpenRGBSymmetric, OpenRGBWritable, has_bytes, unknown_code,
    unknown_code_message,
};
use crate::error::OpenRGBError;
use crate::stream::{ByteSink, ByteSource};

verus! {

/// RGB controller mode.
#[derive(Debug, Clone, PartialEq, Eq)]
pub struct Mode {
    /// Mode name.
    pub name: String,
    /// Mode value.
    pub value: i32,
    /// Mode flags set.
    pub flags: FlagSet,
    /// Mode minimum speed (if mode has [`ModeFlag::HasSpeed`] flag).
    pub speed_min: Option<u32>,
    /// Mode maximum speed (if mode has [`ModeFlag::HasSpeed`] flag).
    pub speed_max: Option<u32>,
    /// Mode speed (if mode has [`ModeFlag::HasSpeed`] flag).
    pub speed: Option<u32>,
    /// Mode minimum brightness (if mode has [`ModeFlag::HasBrightness`] flag).
    pub brightness_min: Option<u32>,
    /// Mode maximum brightness (if mode has [`ModeFlag::HasBrightness`] flag).
    pub brightness_max: Option<u32>,
    /// Mode brightness (if mode has [`ModeFlag::HasBrightness`] flag).
    pub brightness: Option<u32>,
    /// Mode color mode.
    pub color_mode: Option<ColorMode>,
    /// Mode colors.
    pub colors: Vec<Color>,
    /// Mode minimum colors (if mode has a non-empty color list).
    pub colors_min: Option<u32>,
    /// Mode maximum colors (if mode has a non-empty color list).
    pub colors_max: Option<u32>,
    /// Mode direction (if mode has [`ModeFlag::HasDirection`] flag).
    pub direction: Option<Direction>,
}

/// What a [`Mode`] holds.
pub struct ModeView {
    pub name: Seq<char>,
    pub value: i32,
    pub flags: u32,
    pub speed_min: Option<u32>,
    pub speed_max: Option<u32>,
    pub speed: Option<u32>,
    pub brightness_min: Option<u32>,
    pub brightness_max: Option<u32>,
    pub brightness: Option<u32>,
    pub color_mode: Option<ColorMode>,
    pub colors: Seq<Color>,
    pub colors_min: Option<u32>,
    pub colors_max: Option<u32>,
    pub direction: Option<Direction>,
}

impl DeepView for Mode {
    type V = ModeView;

    open spec fn deep_view(&self) -> ModeView {
        ModeView {
            name: self.name@,
            value: self.value,
            flags: self.flags@,
            speed_min: self.speed_min,
            speed_max: self.speed_max,
            speed: self.speed,
            brightness_min: self.brightness_min,
            brightness_max: self.brightness_max,
            brightness: self.brightness,
            color_mode: self.color_mode,
            colors: self.colors.deep_view(),
            colors_min: self.colors_min,
            colors_max: self.colors_max,
            direction: self.direction,
        }
    }
}

/// Whether the block holds the brightness fields.
pub open spec fn has_brightness_fields(protocol: u32) -> bool {
    protocol >= 3
}

/// The offset of `colors_min` in the block.
pub open spec fn colors_offset(protocol: u32) -> int {
    if has_brightness_fields(protocol) {
        24
    } else {
        16
    }
}

/// The offset of `direction` in the block.
pub open spec fn direction_offset(protocol: u32) -> int {
    if has_brightness_fields(protocol) {
        40
    } else {
        28
    }
}

/// The length of the block in bytes.
pub open spec fn block_len(protocol: u32) -> int {
    direction_offset(protocol) + 8
}

/// The mode that a block at `base` stands for, once its name, its color
/// mode and its colors are known: the read path's rules of presence.
pub open spec fn mode_of_block(
    data: Seq<u8>,
    base: int,
    protocol: u32,
    name: Seq<char>,
    color_mode: ColorMode,
    colors: Seq<Color>,
) -> ModeView {
    let flags = le32(data, base + 4);
    let has_speed = has_flag(flags, ModeFlag::HasSpeed);
    let has_brightness = has_flag(flags, ModeFlag::HasBrightness) && has_brightness_fields(
        protocol,
    );
    let has_colors = colors.len() > 0;
    let has_direction = has_flag(flags, ModeFlag::HasDirection);
    ModeView {
        name,
        value: bits_i32(le32(data, base)),
        flags,
        speed_min: if has_speed {
            Some(le32(data, base + 8))
        } else {
            None
        },
        speed_max: if has_speed {
            Some(le32(data, base + 12))
        } else {
            None
        },
        speed: if has_speed {
            Some(le32(data, base + colors_offset(protocol) + 8))
        } else {
            None
        },
        brightness_min: if has_brightness {
            Some(le32(data, base + 16))
        } else {
            None
        },
        brightness_max: if has_brightness {
            Some(le32(data, base + 20))
        } else {
            None
        },
        brightness: if has_brightness {
            Some(le32(data, base + 36))
        } else {
            None
        },
        color_mode: Some(color_mode),
        colors,
        colors_min: if has_colors {
            Some(le32(data, base + colors_offset(protocol)))
        } else {
            None
        },
        colors_max: if has_colors {
            Some(le32(data, base + colors_offset(protocol) + 4))
        } else {
            None
        },
        direction: if has_direction {
            Direction::from_code(le32(data, base + direction_offset(protocol)))
        } else {
            None
        },
    }
}

/// What `data` decodes to as the block at `base` and the colors after it,
/// for a mode named `name`.
///
/// Foreign flag bits are found as soon as the flags are read, an unknown
/// color mode as soon as the block is, and an unknown direction, which
/// counts only for a mode with a direction, once the colors are.
pub open spec fn decode_after_name(data: Seq<u8>, base: int, protocol: u32, name: Seq<char>)
    -> Decoded<ModeView> {
    let flags = le32(data, base + 4);
    let direction_at = base + direction_offset(protocol);
    if !has_bytes(data, base, 8) {
        Decoded::Short
    } else if !known_bits(flags) {
        Decoded::Invalid { message: invalid_flags_message(flags), next: base + 8 }
    } else if !has_bytes(data, base, block_len(protocol)) {
        Decoded::Short
    } else {
        match ColorMode::from_code(le32(data, direction_at + 4)) {
            None => Decoded::Invalid {
                message: unknown_code_message(
                    "unknown color mode \""@,
                    le32(data, direction_at + 4),
                ),
                next: direction_at + 8,
            },
            Some(color_mode) => match Vec::<Color>::decode(data, direction_at + 8, protocol) {
                Decoded::Value { value: colors, next } => {
                    if has_flag(flags, ModeFlag::HasDirection) && Direction::from_code(
                        le32(data, direction_at),
                    ) is None {
                        Decoded::Invalid {
                            message: unknown_code_message(
                                "unknown direction \""@,
                                le32(data, direction_at),
                            ),
                            next,
                        }
                    } else {
                        Decoded::Value {
                            value: mode_of_block(data, base, protocol, name, color_mode, colors),
                            next,
                        }
                    }
                },
                Decoded::Invalid { message, next } => Decoded::Invalid { message, next },
                Decoded::Short => Decoded::Short,
            },
        }
    }
}

impl OpenRGBReadable for Mode {
    open spec fn decode(data: Seq<u8>, at: int, protocol: u32) -> Decoded<ModeView> {
        match String::decode(data, at, protocol) {
            Decoded::Value { value: name, next } => decode_after_name(data, next, protocol, name),
            Decoded::Invalid { message, next } => Decoded::Invalid { message, next },
            Decoded::Short => Decoded::Short,
        }
    }

    fn read<S: ByteSource>(stream: &mut S, protocol: u32) -> (r: Result<Self, OpenRGBError>) {
        let ghost expected = Self::decode(stream.data(), stream.pos(), protocol);
        let name = String::read(stream, protocol)?;
        let value = i32::read(stream, protocol)?;
        let flags = FlagSet::read(stream, protocol)?;
        let speed_min = read_u32(stream)?;
        let speed_max = read_u32(stream)?;
        let brightness_min = if protocol >= 3 {
            Some(read_u32(stream)?)
        } else {
            None
        };
        let brightness_max = if protocol >= 3 {
            Some(read_u32(stream)?)
        } else {
            None
        };
        let colors_min = read_u32(stream)?;
        let colors_max = read_u32(stream)?;
        let speed = read_u32(stream)?;
        let brightness = if protocol >= 3 {
            Some(read_u32(stream)?)
        } else {
            None
        };
        let direction = read_u32(stream)?;
        let color_mode = ColorMode::read(stream, protocol)?;
        let colors = Vec::<Color>::read(stream, protocol)?;
        let has_speed = flags.contains(ModeFlag::HasSpeed);
        let has_brightness = flags.contains(ModeFlag::HasBrightness);
        let has_colors = colors.len() > 0;
        let direction = if flags.contains(ModeFlag::HasDirection) {
            match Direction::from_u32(direction) {
                Some(direction) => Some(direction),
                None => {
                    return Err(
                        OpenRGBError::ProtocolError(unknown_code("unknown direction \"", direction)),
                    );
                },
            }
        } else {
            None
        };
        Ok(
            Mode {
                name,
                value,
                flags,
                speed_min: if has_speed {
                    Some(speed_min)
                } else {
                    None
                },
                speed_max: if has_speed {
                    Some(speed_max)
                } else {
                    None
                },
                brightness_min: if has_brightness {
                    brightness_min
                } else {
                    None
                },
                brightness_max: if has_brightness {
                    brightness_max
                } else {
                    None
                },
                colors_min: if has_colors {
                    Some(colors_min)
                } else {
                    None
                },
                colors_max: if has_colors {
                    Some(colors_max)
                } else {
                    None
                },
                speed: if has_speed {
                    Some(speed)
                } else {
                    None
                },
                brightness: if has_brightness {
                    brightness
                } else {
                    None
                },
                direction,
                color_mode: Some(color_mode),
                colors,
            },
        )
    }
}

/// The field's value, or zero where the mode has none.
pub open spec fn or_zero(field: Option<u32>) -> u32 {
    match field {
        Some(value) => value,
        None => 0,
    }
}

/// The code of the mode's direction, or that of `Left` where it has none.
pub open spec fn direction_word(direction: Option<Direction>) -> u32 {
    match direction {
        Some(direction) => direction.code(),
        None => Direction::Left.code(),
    }
}

/// The code of the mode's color mode, or that of `NoColor` where it has
/// none.
pub open spec fn color_mode_word(color_mode: Option<ColorMode>) -> u32 {
    match color_mode {
        Some(color_mode) => color_mode.code(),
        None => ColorMode::NoColor.code(),
    }
}

/// The words of the block that is written for `mode`: the write path's
/// table. No flag is consulted; only the protocol version decides whether
/// the brightness fields are there.
pub open spec fn mode_words(mode: ModeView, protocol: u32) -> Seq<u32> {
    if has_brightness_fields(protocol) {
        seq![
            i32_bits(mode.value),
            mode.flags,
            or_zero(mode.speed_min),
            or_zero(mode.speed_max),
            or_zero(mode.brightness_min),
            or_zero(mode.brightness_max),
            or_zero(mode.colors_min),
            or_zero(mode.colors_max),
            or_zero(mode.speed),
            or_zero(mode.brightness),
            direction_word(mode.direction),
            color_mode_word(mode.color_mode),
        ]
    } else {
        seq![
            i32_bits(mode.value),
            mode.flags,
            or_zero(mode.speed_min),
            or_zero(mode.speed_max),
            or_zero(mode.colors_min),
            or_zero(mode.colors_max),
            or_zero(mode.speed),
            direction_word(mode.direction),
            color_mode_word(mode.color_mode),
        ]
    }
}

/// The bytes of the block that is written for `mode`.
pub open spec fn mode_block_bytes(mode: ModeView, protocol: u32) -> Seq<u8> {
    words_bytes(mode_words(mode, protocol))
}

fn word_or_zero(field: Option<u32>) -> (word: u32)
    ensures
        word == or_zero(field),
{
    match field {
        Some(value) => value,
        None => 0,
    }
}

fn word_of_direction(direction: Option<Direction>) -> (word: u32)
    ensures
        word == direction_word(direction),
{
    let direction = match direction {
        Some(direction) => direction,
        None => Direction::default(),
    };
    direction.wire_code()
}

fn word_of_color_mode(color_mode: Option<ColorMode>) -> (word: u32)
    ensures
        word == color_mode_word(color_mode),
{
    let color_mode = match color_mode {
        Some(color_mode) => color_mode,
        None => ColorMode::default(),
    };
    color_mode.wire_code()
}

impl Mode {
    /// The words of the block that is written for this mode.
    fn words(&self, protocol: u32) -> (words: Vec<u32>)
        ensures
            words@ == mode_words(self.deep_view(), protocol),
    {
        let mut words: Vec<u32> = Vec::new();
        words.push(i32_to_bits(self.value));
        words.push(self.flags.bits());
        words.push(word_or_zero(self.speed_min));
        words.push(word_or_zero(self.speed_max));
        if protocol >= 3 {
            words.push(word_or_zero(self.brightness_min));
            words.push(word_or_zero(self.brightness_max));
        }
        words.push(word_or_zero(self.colors_min));
        words.push(word_or_zero(self.colors_max));
        words.push(word_or_zero(self.speed));
        if protocol >= 3 {
            words.push(word_or_zero(self.brightness));
        }
        words.push(word_of_direction(self.direction));
        words.push(word_of_color_mode(self.color_mode));
        assert(words@ =~= mode_words(self.deep_view(), protocol));
        words
    }
}

impl OpenRGBWritable for Mode {
    open spec fn wire_size(value: ModeView, protocol: u32) -> nat {
        String::wire_size(value.name, protocol) + block_len(protocol) as nat + Vec::<
            Color,
        >::wire_size(value.colors, protocol)
    }

    open spec fn encode(value: ModeView, protocol: u32) -> Encoded {
        String::encode(value.name, protocol).followed_by(
            Encoded::Bytes { bytes: mode_block_bytes(value, protocol) },
        ).followed_by(Vec::<Color>::encode(value.colors, protocol))
    }

    proof fn lemma_encoded_size(value: ModeView, protocol: u32) {
        String::lemma_encoded_size(value.name, protocol);
        lemma_words_len(mode_words(value, protocol));
        Vec::<Color>::lemma_encoded_size(value.colors, protocol);
        assert(Self::encode(value, protocol) matches Encoded::Bytes { bytes } ==> bytes.len()
            == Self::wire_size(value, protocol));
    }

    fn size(&self, protocol: u32) -> (n: usize) {
        let ghost declared = Self::wire_size(self.deep_view(), protocol);
        let mut size: usize = 0;
        size = size.saturating_add(self.name.size(protocol));
        size = size.saturating_add(self.value.size(protocol));
        size = size.saturating_add(self.flags.size(protocol));
        size = size.saturating_add(word_or_zero(self.speed_min).size(protocol));
        size = size.saturating_add(word_or_zero(self.speed_max).size(protocol));
        if protocol >= 3 {
            size = size.saturating_add(word_or_zero(self.brightness_min).size(protocol));
            size = size.saturating_add(word_or_zero(self.brightness_max).size(protocol));
        }
        size = size.saturating_add(word_or_zero(self.colors_min).size(protocol));
        size = size.saturating_add(word_or_zero(self.colors_max).size(protocol));
        size = size.saturating_add(word_or_zero(self.speed).size(protocol));
        if protocol >= 3 {
            size = size.saturating_add(word_or_zero(self.brightness).size(protocol));
        }
        size = size.saturating_add(word_of_direction(self.direction).size(protocol));
        size = size.saturating_add(word_of_color_mode(self.color_mode).size(protocol));
        size = size.saturating_add(self.colors.size(protocol));
        size
    }

    fn write<W: ByteSink>(&self, stream: &mut W, protocol: u32) -> (r: Result<(), OpenRGBError>) {
        let ghost expected = Self::encode(self.deep_view(), protocol);
        let ghost mode = self.deep_view();
        self.name.write(stream, protocol)?;
        let ghost head = string_bytes(mode.name) + mode_block_bytes(mode, protocol);
        let words = self.words(protocol);
        write_words(stream, &words);
        assert(stream.written() =~= old(stream).written() + head);
        let r = self.colors.write(stream, protocol);
        proof {
            match Vec::<Color>::encode(mode.colors, protocol) {
                Encoded::Bytes { bytes } => {
                    assert(stream.written() =~= old(stream).written() + (head + bytes));
                },
                Encoded::Refused { message, sent } => {
                    assert(stream.written() =~= old(stream).written() + (head + sent));
                },
            }
        }
        r
    }
}

/// Whether `mode` has exactly the optional fields that its flags, its
/// colors and the protocol version call for: the speed fields with
/// `HasSpeed`, the brightness fields with `HasBrightness` from protocol 3
/// on, the color bounds with a non-empty color list, the direction with
/// `HasDirection`, and a color mode always.
pub open spec fn fields_as_flagged(mode: ModeView, protocol: u32) -> bool {
    let has_speed = has_flag(mode.flags, ModeFlag::HasSpeed);
    let has_brightness = has_flag(mode.flags, ModeFlag::HasBrightness) && has_brightness_fields(
        protocol,
    );
    let has_colors = mode.colors.len() > 0;
    let has_direction = has_flag(mode.flags, ModeFlag::HasDirection);
    &&& known_bits(mode.flags)
    &&& mode.speed_min is Some <==> has_speed
    &&& mode.speed_max is Some <==> has_speed
    &&& mode.speed is Some <==> has_speed
    &&& mode.brightness_min is Some <==> has_brightness
    &&& mode.brightness_max is Some <==> has_brightness
    &&& mode.brightness is Some <==> has_brightness
    &&& mode.colors_min is Some <==> has_colors
    &&& mode.colors_max is Some <==> has_colors
    &&& mode.direction is Some <==> has_direction
    &&& mode.color_mode is Some
}

/// Every mode that decoding yields has its optional fields as flagged.
pub proof fn lemma_decoded_fields_as_flagged(data: Seq<u8>, at: int, protocol: u32)
    ensures
        Mode::decode(data, at, protocol) matches Decoded::Value { value, next }
            ==> fields_as_flagged(value, protocol),
{
}

/// Concatenating five pieces of a stream is associative.
proof fn lemma_five_pieces(a: Seq<u8>, b: Seq<u8>, c: Seq<u8>, d: Seq<u8>, e: Seq<u8>)
    ensures
        a + (b + c + d) + e == a + b + (c + d + e),
        a + (b + c + d) + e == (a + b + c) + d + e,
        a + (b + c + d) + e == (a + b) + c + (d + e),
{
    assert(a + (b + c + d) + e =~= a + b + (c + d + e));
    assert(a + (b + c + d) + e =~= (a + b + c) + d + e);
    assert(a + (b + c + d) + e =~= (a + b) + c + (d + e));
}

/// A block that holds the words written for a mode with its fields as
/// flagged stands for that mode.
proof fn lemma_block_of_words(value: ModeView, protocol: u32, data: Seq<u8>, base: int)
    requires
        fields_as_flagged(value, protocol),
        forall|i: int|
            0 <= i < mode_words(value, protocol).len() ==> le32(data, base + 4 * i)
                == #[trigger] mode_words(value, protocol)[i],
    ensures
        le32(data, base + 4) == value.flags,
        ColorMode::from_code(le32(data, base + direction_offset(protocol) + 4))
            == value.color_mode,
        has_flag(value.flags, ModeFlag::HasDirection) ==> Direction::from_code(
            le32(data, base + direction_offset(protocol)),
        ) is Some,
        mode_of_block(data, base, protocol, value.name, value.color_mode->0, value.colors)
            == value,
{
    let words = mode_words(value, protocol);
    value.color_mode->0.lemma_code_known();
    if value.direction is Some {
        value.direction->0.lemma_code_known();
    }
    assert(le32(data, base + 4 * 0) == words[0]);
    assert(le32(data, base + 4 * 1) == words[1]);
    assert(le32(data, base + 4 * 2) == words[2]);
    assert(le32(data, base + 4 * 3) == words[3]);
    assert(le32(data, base + 4 * 4) == words[4]);
    assert(le32(data, base + 4 * 5) == words[5]);
    assert(le32(data, base + 4 * 6) == words[6]);
    assert(le32(data, base + 4 * 7) == words[7]);
    assert(le32(data, base + 4 * 8) == words[8]);
    if has_brightness_fields(protocol) {
        assert(le32(data, base + 4 * 9) == words[9]);
        assert(le32(data, base + 4 * 10) == words[10]);
        assert(le32(data, base + 4 * 11) == words[11]);
    }
}

/// The words written for a mode decode, each from its own place, wherever
/// the block stands in a stream.
proof fn lemma_words_in_place(words: Seq<u32>, before: Seq<u8>, after: Seq<u8>)
    ensures
        forall|i: int|
            0 <= i < words.len() ==> le32(
                before + words_bytes(words) + after,
                before.len() + 4 * i,
            ) == #[trigger] words[i],
        has_bytes(before + words_bytes(words) + after, before.len() as int, 4 * words.len() as int),
{
    lemma_words_len(words);
    assert forall|i: int| 0 <= i < words.len() implies le32(
        before + words_bytes(words) + after,
        before.len() + 4 * i,
    ) == #[trigger] words[i] by {
        lemma_words_at(words, before, after, i);
    }
}

/// A stream whose name, block and colors decode to the parts of `value`
/// decodes to `value`.
proof fn lemma_mode_of_parts(
    value: ModeView,
    protocol: u32,
    data: Seq<u8>,
    at: int,
    base: int,
    next: int,
)
    requires
        fields_as_flagged(value, protocol),
        String::decode(data, at, protocol) == (Decoded::Value { value: value.name, next: base }),
        has_bytes(data, base, block_len(protocol)),
        le32(data, base + 4) == value.flags,
        ColorMode::from_code(le32(data, base + direction_offset(protocol) + 4))
            == value.color_mode,
        has_flag(value.flags, ModeFlag::HasDirection) ==> Direction::from_code(
            le32(data, base + direction_offset(protocol)),
        ) is Some,
        mode_of_block(data, base, protocol, value.name, value.color_mode->0, value.colors)
            == value,
        Vec::<Color>::decode(data, base + block_len(protocol), protocol) == (Decoded::Value {
            value: value.colors,
            next,
        }),
    ensures
        Mode::decode(data, at, protocol) == (Decoded::Value { value, next }),
{
}

impl OpenRGBSymmetric for Mode {
    open spec fn round_trips(value: ModeView, protocol: u32) -> bool {
        &&& String::round_trips(value.name, protocol)
        &&& Vec::<Color>::round_trips(value.colors, protocol)
        &&& fields_as_flagged(value, protocol)
    }

    #[verifier::rlimit(30)]
    proof fn lemma_round_trip(value: ModeView, protocol: u32, before: Seq<u8>, after: Seq<u8>) {
        let name_bytes = string_bytes(value.name);
        let words = mode_words(value, protocol);
        let block = words_bytes(words);
        Vec::<Color>::lemma_round_trip(value.colors, protocol, before + name_bytes + block, after);
        let colors_bytes = Vec::<Color>::encode(value.colors, protocol)->bytes;
        let data = before + (name_bytes + block + colors_bytes) + after;
        lemma_five_pieces(before, name_bytes, block, colors_bytes, after);
        String::lemma_round_trip(value.name, protocol, before, block + colors_bytes + after);
        let base = (before.len() + name_bytes.len()) as int;
        lemma_words_len(words);
        assert(block.len() == block_len(protocol));
        assert((before + name_bytes + block).len() == base + block_len(protocol));
        lemma_words_in_place(words, before + name_bytes, colors_bytes + after);
        lemma_block_of_words(value, protocol, data, base);
        lemma_mode_of_parts(
            value,
            protocol,
            data,
            before.len() as int,
            base,
            (before.len() + name_bytes.len() + block.len() + colors_bytes.len()) as int,
        );
        assert(Self::round_trips(value, protocol) && Self::decode(
            before + Self::encode(value, protocol)->bytes + after,
            before.len() as int,
            protocol,
        ) is Value);
    }
}

} // verus!
