//! The identifiers that tell packets apart.

use vstd::prelude::*;
use crate::data::primitive::{le32, read_u32, u32_bytes, write_u32, lemma_le32_of_bytes};
use crate::data::{
    Decoded, Encoded, OpenRGBReadable, OpenRGBSymmetric, OpenRGBWritable, has_bytes,
    unknown_code, unknown_code_message,
};
use crate::error::OpenRGBError;
use crate::stream::{ByteSink, ByteSource};

verus! {

/// OpenRGB protocol packet ID.
#[derive(Debug, Clone, Copy, PartialEq, Eq, Structural)]
pub enum PacketId {
    /// Request RGBController device count from server.
    RequestControllerCount,
    /// Request RGBController data block.
    RequestControllerData,
    /// Request OpenRGB SDK protocol version from server.
    RequestProtocolVersion,
    /// Send client name string to server.
    SetClientName,
    /// Indicate to clients that device list has updated.
    DeviceListUpdated,
    /// Request profile list.
    RequestProfileList,
    /// Save current configuration in a new profile.
    RequestSaveProfile,
    /// Load a given profile.
    RequestLoadProfile,
    /// Delete a given profile.
    RequestDeleteProfile,
    /// RGBController::ResizeZone().
    RGBControllerResizeZone,
    /// RGBController::UpdateLEDs().
    RGBControllerUpdateLeds,
    /// RGBController::UpdateZoneLEDs().
    RGBControllerUpdateZoneLeds,
    /// RGBController::UpdateSingleLED().
    RGBControllerUpdateSingleLed,
    /// RGBController::SetCustomMode().
    RGBControllerSetCustomMode,
    /// RGBController::UpdateMode().
    RGBControllerUpdateMode,
    /// RGBController::SaveMode().
    RGBControllerSaveMode,
}

impl PacketId {
    /// The integer that stands for this value on the wire.
    pub open spec fn code(self) -> u32 {
        match self {
            PacketId::RequestControllerCount => 0,
            PacketId::RequestControllerData => 1,
            PacketId::RequestProtocolVersion => 40,
            PacketId::SetClientName => 50,
            PacketId::DeviceListUpdated => 100,
            PacketId::RequestProfileList => 150,
            PacketId::RequestSaveProfile => 151,
            PacketId::RequestLoadProfile => 152,
            PacketId::RequestDeleteProfile => 153,
            PacketId::RGBControllerResizeZone => 1000,
            PacketId::RGBControllerUpdateLeds => 1050,
            PacketId::RGBControllerUpdateZoneLeds => 1051,
            PacketId::RGBControllerUpdateSingleLed => 1052,
            PacketId::RGBControllerSetCustomMode => 1100,
            PacketId::RGBControllerUpdateMode => 1101,
            PacketId::RGBControllerSaveMode => 1102,
        }
    }

    /// The value that `code` stands for, if there is one.
    pub open spec fn from_code(code: u32) -> Option<PacketId> {
        if code == 0 {
            Some(PacketId::RequestControllerCount)
        } else if code == 1 {
            Some(PacketId::RequestControllerData)
        } else if code == 40 {
            Some(PacketId::RequestProtocolVersion)
        } else if code == 50 {
            Some(PacketId::SetClientName)
        } else if code == 100 {
            Some(PacketId::DeviceListUpdated)
        } else if code == 150 {
            Some(PacketId::RequestProfileList)
        } else if code == 151 {
            Some(PacketId::RequestSaveProfile)
        } else if code == 152 {
            Some(PacketId::RequestLoadProfile)
        } else if code == 153 {
            Some(PacketId::RequestDeleteProfile)
        } else if code == 1000 {
            Some(PacketId::RGBControllerResizeZone)
        } else if code == 1050 {
            Some(PacketId::RGBControllerUpdateLeds)
        } else if code == 1051 {
            Some(PacketId::RGBControllerUpdateZoneLeds)
        } else if code == 1052 {
            Some(PacketId::RGBControllerUpdateSingleLed)
        } else if code == 1100 {
            Some(PacketId::RGBControllerSetCustomMode)
        } else if code == 1101 {
            Some(PacketId::RGBControllerUpdateMode)
        } else if code == 1102 {
            Some(PacketId::RGBControllerSaveMode)
        } else {
            None
        }
    }

    /// Every value is the one that its own code stands for.
    pub proof fn lemma_code_known(self)
        ensures
            Self::from_code(self.code()) == Some(self),
    {
    }

    /// The value that `n` stands for, if there is one.
    pub fn from_u32(n: u32) -> (r: Option<PacketId>)
        ensures
            r == Self::from_code(n),
    {
        if n == 0 {
            Some(PacketId::RequestControllerCount)
        } else if n == 1 {
            Some(PacketId::RequestControllerData)
        } else if n == 40 {
            Some(PacketId::RequestProtocolVersion)
        } else if n == 50 {
            Some(PacketId::SetClientName)
        } else if n == 100 {
            Some(PacketId::DeviceListUpdated)
        } else if n == 150 {
            Some(PacketId::RequestProfileList)
        } else if n == 151 {
            Some(PacketId::RequestSaveProfile)
        } else if n == 152 {
            Some(PacketId::RequestLoadProfile)
        } else if n == 153 {
            Some(PacketId::RequestDeleteProfile)
        } else if n == 1000 {
            Some(PacketId::RGBControllerResizeZone)
        } else if n == 1050 {
            Some(PacketId::RGBControllerUpdateLeds)
        } else if n == 1051 {
            Some(PacketId::RGBControllerUpdateZoneLeds)
        } else if n == 1052 {
            Some(PacketId::RGBControllerUpdateSingleLed)
        } else if n == 1100 {
            Some(PacketId::RGBControllerSetCustomMode)
        } else if n == 1101 {
            Some(PacketId::RGBControllerUpdateMode)
        } else if n == 1102 {
            Some(PacketId::RGBControllerSaveMode)
        } else {
            None
        }
    }

    /// The integer that stands for this value on the wire.
    pub fn wire_code(&self) -> (r: u32)
        ensures
            r == self.code(),
    {
        match self {
            PacketId::RequestControllerCount => 0,
            PacketId::RequestControllerData => 1,
            PacketId::RequestProtocolVersion => 40,
            PacketId::SetClientName => 50,
            PacketId::DeviceListUpdated => 100,
            PacketId::RequestProfileList => 150,
            PacketId::RequestSaveProfile => 151,
            PacketId::RequestLoadProfile => 152,
            PacketId::RequestDeleteProfile => 153,
            PacketId::RGBControllerResizeZone => 1000,
            PacketId::RGBControllerUpdateLeds => 1050,
            PacketId::RGBControllerUpdateZoneLeds => 1051,
            PacketId::RGBControllerUpdateSingleLed => 1052,
            PacketId::RGBControllerSetCustomMode => 1100,
            PacketId::RGBControllerUpdateMode => 1101,
            PacketId::RGBControllerSaveMode => 1102,
        }
    }

    /// The integer that stands for this value on the wire. Every value
    /// has one.
    pub fn to_u32(&self) -> (r: Option<u32>)
        ensures
            r == Some(self.code()),
    {
        Some(self.wire_code())
    }

    /// The name of this value, as it is written in messages.
    pub open spec fn name_text(self) -> Seq<char> {
        match self {
            PacketId::RequestControllerCount => "RequestControllerCount"@,
            PacketId::RequestControllerData => "RequestControllerData"@,
            PacketId::RequestProtocolVersion => "RequestProtocolVersion"@,
            PacketId::SetClientName => "SetClientName"@,
            PacketId::DeviceListUpdated => "DeviceListUpdated"@,
            PacketId::RequestProfileList => "RequestProfileList"@,
            PacketId::RequestSaveProfile => "RequestSaveProfile"@,
            PacketId::RequestLoadProfile => "RequestLoadProfile"@,
            PacketId::RequestDeleteProfile => "RequestDeleteProfile"@,
            PacketId::RGBControllerResizeZone => "RGBControllerResizeZone"@,
            PacketId::RGBControllerUpdateLeds => "RGBControllerUpdateLeds"@,
            PacketId::RGBControllerUpdateZoneLeds => "RGBControllerUpdateZoneLeds"@,
            PacketId::RGBControllerUpdateSingleLed => "RGBControllerUpdateSingleLed"@,
            PacketId::RGBControllerSetCustomMode => "RGBControllerSetCustomMode"@,
            PacketId::RGBControllerUpdateMode => "RGBControllerUpdateMode"@,
            PacketId::RGBControllerSaveMode => "RGBControllerSaveMode"@,
        }
    }

    /// The name of this value, as it is written in messages.
    pub fn name(&self) -> (s: &'static str)
        ensures
            s@ == self.name_text(),
    {
        match self {
            PacketId::RequestControllerCount => "RequestControllerCount",
            PacketId::RequestControllerData => "RequestControllerData",
            PacketId::RequestProtocolVersion => "RequestProtocolVersion",
            PacketId::SetClientName => "SetClientName",
            PacketId::DeviceListUpdated => "DeviceListUpdated",
            PacketId::RequestProfileList => "RequestProfileList",
            PacketId::RequestSaveProfile => "RequestSaveProfile",
            PacketId::RequestLoadProfile => "RequestLoadProfile",
            PacketId::RequestDeleteProfile => "RequestDeleteProfile",
            PacketId::RGBControllerResizeZone => "RGBControllerResizeZone",
            PacketId::RGBControllerUpdateLeds => "RGBControllerUpdateLeds",
            PacketId::RGBControllerUpdateZoneLeds => "RGBControllerUpdateZoneLeds",
            PacketId::RGBControllerUpdateSingleLed => "RGBControllerUpdateSingleLed",
            PacketId::RGBControllerSetCustomMode => "RGBControllerSetCustomMode",
            PacketId::RGBControllerUpdateMode => "RGBControllerUpdateMode",
            PacketId::RGBControllerSaveMode => "RGBControllerSaveMode",
        }
    }
}

impl DeepView for PacketId {
    type V = PacketId;

    open spec fn deep_view(&self) -> PacketId {
        *self
    }
}

impl OpenRGBReadable for PacketId {
    open spec fn decode(data: Seq<u8>, at: int, protocol: u32) -> Decoded<PacketId> {
        if has_bytes(data, at, 4) {
            match PacketId::from_code(le32(data, at)) {
                Some(value) => Decoded::Value { value, next: at + 4 },
                None => Decoded::Invalid {
                    message: unknown_code_message("unknown packed ID \""@, le32(data, at)),
                    next: at + 4,
                },
            }
        } else {
            Decoded::Short
        }
    }

    fn read<S: ByteSource>(stream: &mut S, protocol: u32) -> (r: Result<Self, OpenRGBError>) {
        let ghost expected = Self::decode(stream.data(), stream.pos(), protocol);
        match read_u32(stream) {
            Ok(code) => match PacketId::from_u32(code) {
                Some(value) => Ok(value),
                None => Err(OpenRGBError::ProtocolError(unknown_code("unknown packed ID \"", code))),
            },
            Err(e) => Err(e),
        }
    }
}

impl OpenRGBWritable for PacketId {
    open spec fn wire_size(value: PacketId, protocol: u32) -> nat {
        4
    }

    open spec fn encode(value: PacketId, protocol: u32) -> Encoded {
        Encoded::Bytes { bytes: u32_bytes(value.code()) }
    }

    proof fn lemma_encoded_size(value: PacketId, protocol: u32) {
        assert(Self::encode(value, protocol) matches Encoded::Bytes { bytes } ==> bytes.len()
            == Self::wire_size(value, protocol));
    }

    fn size(&self, protocol: u32) -> (n: usize) {
        let ghost declared = Self::wire_size(self.deep_view(), protocol);
        4
    }

    fn write<W: ByteSink>(&self, stream: &mut W, protocol: u32) -> (r: Result<(), OpenRGBError>) {
        let ghost expected = Self::encode(self.deep_view(), protocol);
        write_u32(stream, self.wire_code());
        Ok(())
    }
}

impl OpenRGBSymmetric for PacketId {
    open spec fn round_trips(value: PacketId, protocol: u32) -> bool {
        true
    }

    proof fn lemma_round_trip(value: PacketId, protocol: u32, before: Seq<u8>, after: Seq<u8>) {
        lemma_le32_of_bytes(value.code(), before, after);
        assert(Self::round_trips(value, protocol) && Self::decode(
            before + Self::encode(value, protocol)->bytes + after,
            before.len() as int,
            protocol,
        ) is Value);
    }
}

} // verus!
