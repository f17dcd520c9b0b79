//! The kinds of device that a controller can be.

use vstd::prelude::*;
use crate::data::primitive::{le32, read_u32, u32_bytes, write_u32, lemma_le32_of_bytes};
use crate::data::{Decoded, Encoded, OpenRGBReadable, OpenRGBSymmetric, OpenRGBWritable, has_bytes};
use crate::error::OpenRGBError;
use crate::stream::{ByteSink, ByteSource};

verus! {

/// RGB controller device type.
///
/// A code that names none of these decodes to [`DeviceType::Unknown`].
#[derive(Debug, Clone, Copy, PartialEq, Eq, Structural)]
pub enum DeviceType {
    /// Motherboard.
    Motherboard,
    /// DRAM.
    DRAM,
    /// GPU.
    GPU,
    /// Cooler.
    Cooler,
    /// LED strip.
    LEDStrip,
    /// Keyboard.
    Keyboard,
    /// Mouse.
    Mouse,
    /// Mouse mat.
    MouseMat,
    /// Headset.
    Headset,
    /// Headset stand.
    HeadsetStand,
    /// Gamepad.
    Gamepad,
    /// Light.
    Light,
    /// Speaker.
    Speaker,
    /// Virtual.
    Virtual,
    /// Unknown.
    Unknown,
}

impl DeviceType {
    /// The integer that stands for this value on the wire.
    pub open spec fn code(self) -> u32 {
        match self {
            DeviceType::Motherboard => 0,
            DeviceType::DRAM => 1,
            DeviceType::GPU => 2,
            DeviceType::Cooler => 3,
            DeviceType::LEDStrip => 4,
            DeviceType::Keyboard => 5,
            DeviceType::Mouse => 6,
            DeviceType::MouseMat => 7,
            DeviceType::Headset => 8,
            DeviceType::HeadsetStand => 9,
            DeviceType::Gamepad => 10,
            DeviceType::Light => 11,
            DeviceType::Speaker => 12,
            DeviceType::Virtual => 13,
            DeviceType::Unknown => 14,
        }
    }

    /// The value that `code` stands for, if there is one.
    pub open spec fn from_code(code: u32) -> Option<DeviceType> {
        if code == 0 {
            Some(DeviceType::Motherboard)
        } else if code == 1 {
            Some(DeviceType::DRAM)
        } else if code == 2 {
            Some(DeviceType::GPU)
        } else if code == 3 {
            Some(DeviceType::Cooler)
        } else if code == 4 {
            Some(DeviceType::LEDStrip)
        } else if code == 5 {
            Some(DeviceType::Keyboard)
        } else if code == 6 {
            Some(DeviceType::Mouse)
        } else if code == 7 {
            Some(DeviceType::MouseMat)
        } else if code == 8 {
            Some(DeviceType::Headset)
        } else if code == 9 {
            Some(DeviceType::HeadsetStand)
        } else if code == 10 {
            Some(DeviceType::Gamepad)
        } else if code == 11 {
            Some(DeviceType::Light)
        } else if code == 12 {
            Some(DeviceType::Speaker)
        } else if code == 13 {
            Some(DeviceType::Virtual)
        } else if code == 14 {
            Some(DeviceType::Unknown)
        } else {
            None
        }
    }

    /// Every value is the one that its own code stands for.
    pub proof fn lemma_code_known(self)
        ensures
            Self::from_code(self.code()) == Some(self),
    {
    }

    /// The value that `n` stands for, if there is one.
    pub fn from_u32(n: u32) -> (r: Option<DeviceType>)
        ensures
            r == Self::from_code(n),
    {
        if n == 0 {
            Some(DeviceType::Motherboard)
        } else if n == 1 {
            Some(DeviceType::DRAM)
        } else if n == 2 {
            Some(DeviceType::GPU)
        } else if n == 3 {
            Some(DeviceType::Cooler)
        } else if n == 4 {
            Some(DeviceType::LEDStrip)
        } else if n == 5 {
            Some(DeviceType::Keyboard)
        } else if n == 6 {
            Some(DeviceType::Mouse)
        } else if n == 7 {
            Some(DeviceType::MouseMat)
        } else if n == 8 {
            Some(DeviceType::Headset)
        } else if n == 9 {
            Some(DeviceType::HeadsetStand)
        } else if n == 10 {
            Some(DeviceType::Gamepad)
        } else if n == 11 {
            Some(DeviceType::Light)
        } else if n == 12 {
            Some(DeviceType::Speaker)
        } else if n == 13 {
            Some(DeviceType::Virtual)
        } else if n == 14 {
            Some(DeviceType::Unknown)
        } else {
            None
        }
    }

    /// The integer that stands for this value on the wire.
    pub fn wire_code(&self) -> (r: u32)
        ensures
            r == self.code(),
    {
        match self {
            DeviceType::Motherboard => 0,
            DeviceType::DRAM => 1,
            DeviceType::GPU => 2,
            DeviceType::Cooler => 3,
            DeviceType::LEDStrip => 4,
            DeviceType::Keyboard => 5,
            DeviceType::Mouse => 6,
            DeviceType::MouseMat => 7,
            DeviceType::Headset => 8,
            DeviceType::HeadsetStand => 9,
            DeviceType::Gamepad => 10,
            DeviceType::Light => 11,
            DeviceType::Speaker => 12,
            DeviceType::Virtual => 13,
            DeviceType::Unknown => 14,
        }
    }

    /// The integer that stands for this value on the wire. Every value
    /// has one.
    pub fn to_u32(&self) -> (r: Option<u32>)
        ensures
            r == Some(self.code()),
    {
        Some(self.wire_code())
    }
}

impl DeepView for DeviceType {
    type V = DeviceType;

    open spec fn deep_view(&self) -> DeviceType {
        *self
    }
}

impl OpenRGBReadable for DeviceType {
    open spec fn decode(data: Seq<u8>, at: int, protocol: u32) -> Decoded<DeviceType> {
        if has_bytes(data, at, 4) {
            match DeviceType::from_code(le32(data, at)) {
                Some(value) => Decoded::Value { value, next: at + 4 },
                None => Decoded::Value { value: DeviceType::Unknown, next: at + 4 },
            }
        } else {
            Decoded::Short
        }
    }

    fn read<S: ByteSource>(stream: &mut S, protocol: u32) -> (r: Result<Self, OpenRGBError>) {
        let ghost expected = Self::decode(stream.data(), stream.pos(), protocol);
        match read_u32(stream) {
            Ok(code) => match DeviceType::from_u32(code) {
                Some(value) => Ok(value),
                None => Ok(DeviceType::Unknown),
            },
            Err(e) => Err(e),
        }
    }
}

impl OpenRGBWritable for DeviceType {
    open spec fn wire_size(value: DeviceType, protocol: u32) -> nat {
        4
    }

    open spec fn encode(value: DeviceType, protocol: u32) -> Encoded {
        Encoded::Bytes { bytes: u32_bytes(value.code()) }
    }

    proof fn lemma_encoded_size(value: DeviceType, protocol: u32) {
        assert(Self::encode(value, protocol) matches Encoded::Bytes { bytes } ==> bytes.len()
            == Self::wire_size(value, protocol));
    }

    fn size(&self, protocol: u32) -> (n: usize) {
        let ghost declared = Self::wire_size(self.deep_view(), protocol);
        4
    }

    fn write<W: ByteSink>(&self, stream: &mut W, protocol: u32) -> (r: Result<(), OpenRGBError>) {
        let ghost expected = Self::encode(self.deep_view(), protocol);
        write_u32(stream, self.wire_code());
        Ok(())
    }
}

impl OpenRGBSymmetric for DeviceType {
    open spec fn round_trips(value: DeviceType, protocol: u32) -> bool {
        true
    }

    proof fn lemma_round_trip(value: DeviceType, protocol: u32, before: Seq<u8>, after: Seq<u8>) {
        lemma_le32_of_bytes(value.code(), before, after);
        assert(Self::round_trips(value, protocol) && Self::decode(
            before + Self::encode(value, protocol)->bytes + after,
            before.len() as int,
            protocol,
        ) is Value);
    }
}

} // verus!
