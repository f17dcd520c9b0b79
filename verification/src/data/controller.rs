//! Controllers, as the server describes them.
//!
//! A controller is, in this order: four bytes that declare the size of the
//! description and are not used, the device type, six strings, the
//! two-byte number of modes, the index of the active mode, that many modes,
//! and the sequences of zones, LEDs and colors.

use vstd::prelude::*;
use crate::data::color::Color;
use crate::data::device_type::DeviceType;
use crate::data::led::{LED, LEDView};
use crate::data::mode::{Mode, ModeView};
use crate::data::primitive::{bits_i32, le16, le32, read_u16, read_u32};
use crate::data::vec::{decode_items, read_items};
use crate::data::zone::{Zone, ZoneView};
use crate::data::{Decoded, OpenRGBReadable, has_bytes};
use crate::error::OpenRGBError;
use crate::stream::ByteSource;

verus! {

/// RGB controller.
#[derive(Debug, Clone, PartialEq, Eq)]
pub struct Controller {
    /// Controller type.
    pub device_type: DeviceType,
    /// Controller name.
    pub name: String,
    /// Controller vendor.
    pub vendor: String,
    /// Controller description.
    pub description: String,
    /// Controller version.
    pub version: String,
    /// Controller serial.
    pub serial: String,
    /// Controller location.
    pub location: String,
    /// Controller active mode index.
    pub active_mode: i32,
    /// Controller modes.
    pub modes: Vec<Mode>,
    /// Controller zones.
    pub zones: Vec<Zone>,
    /// Controller LEDs.
    pub leds: Vec<LED>,
    /// Controller colors.
    pub colors: Vec<Color>,
}

/// What a [`Controller`] holds.
pub struct ControllerView {
    pub device_type: DeviceType,
    pub name: Seq<char>,
    pub vendor: Seq<char>,
    pub description: Seq<char>,
    pub version: Seq<char>,
    pub serial: Seq<char>,
    pub location: Seq<char>,
    pub active_mode: i32,
    pub modes: Seq<ModeView>,
    pub zones: Seq<ZoneView>,
    pub leds: Seq<LEDView>,
    pub colors: Seq<Color>,
}

impl DeepView for Controller {
    type V = ControllerView;

    open spec fn deep_view(&self) -> ControllerView {
        ControllerView {
            device_type: self.device_type,
            name: self.name@,
            vendor: self.vendor@,
            description: self.description@,
            version: self.version@,
            serial: self.serial@,
            location: self.location@,
            active_mode: self.active_mode,
            modes: self.modes.deep_view(),
            zones: self.zones.deep_view(),
            leds: self.leds.deep_view(),
            colors: self.colors.deep_view(),
        }
    }
}

/// The device type that `code` stands for: `Unknown` where it names none.
pub open spec fn device_type_of(code: u32) -> DeviceType {
    match DeviceType::from_code(code) {
        Some(device_type) => device_type,
        None => DeviceType::Unknown,
    }
}

/// What `data` decodes to from the number of modes at `at` on, for a
/// controller whose device type and strings are known.
pub open spec fn decode_after_strings(
    data: Seq<u8>,
    at: int,
    protocol: u32,
    device_type: DeviceType,
    front: (Seq<char>, Seq<char>, Seq<char>, Seq<char>),
    back: (Seq<char>, Seq<char>),
) -> Decoded<ControllerView> {
    if !has_bytes(data, at, 6) {
        Decoded::Short
    } else {
        match decode_items::<Mode>(data, at + 6, le16(data, at) as nat, protocol) {
            Decoded::Value { value: modes, next } => <(Vec<Zone>, Vec<LED>, Vec<Color>)>::decode(
                data,
                next,
                protocol,
            ).map(
                |lists: (Seq<ZoneView>, Seq<LEDView>, Seq<Color>)|
                    ControllerView {
                        device_type,
                        name: front.0,
                        vendor: front.1,
                        description: front.2,
                        version: front.3,
                        serial: back.0,
                        location: back.1,
                        active_mode: bits_i32(le32(data, at + 2)),
                        modes,
                        zones: lists.0,
                        leds: lists.1,
                        colors: lists.2,
                    },
            ),
            Decoded::Invalid { message, next } => Decoded::Invalid { message, next },
            Decoded::Short => Decoded::Short,
        }
    }
}

impl OpenRGBReadable for Controller {
    open spec fn decode(data: Seq<u8>, at: int, protocol: u32) -> Decoded<ControllerView> {
        if !has_bytes(data, at, 8) {
            Decoded::Short
        } else {
            match <(String, String, String, String)>::decode(data, at + 8, protocol) {
                Decoded::Value { value: front, next } => match <(String, String)>::decode(
                    data,
                    next,
                    protocol,
                ) {
                    Decoded::Value { value: back, next: end } => decode_after_strings(
                        data,
                        end,
                        protocol,
                        device_type_of(le32(data, at + 4)),
                        front,
                        back,
                    ),
                    Decoded::Invalid { message, next: end } => Decoded::Invalid {
                        message,
                        next: end,
                    },
                    Decoded::Short => Decoded::Short,
                },
                Decoded::Invalid { message, next } => Decoded::Invalid { message, next },
                Decoded::Short => Decoded::Short,
            }
        }
    }

    fn read<S: ByteSource>(stream: &mut S, protocol: u32) -> (r: Result<Self, OpenRGBError>) {
        let ghost expected = Self::decode(stream.data(), stream.pos(), protocol);
        let _data_size = read_u32(stream)?;
        let device_type = DeviceType::read(stream, protocol)?;
        let front = <(String, String, String, String)>::read(stream, protocol)?;
        let back = <(String, String)>::read(stream, protocol)?;
        let num_modes = read_u16(stream)?;
        let active_mode = i32::read(stream, protocol)?;
        let modes = read_items::<Mode, S>(stream, num_modes as u64, protocol)?;
        let lists = <(Vec<Zone>, Vec<LED>, Vec<Color>)>::read(stream, protocol)?;
        Ok(
            Controller {
                device_type,
                name: front.0,
                vendor: front.1,
                description: front.2,
                version: front.3,
                serial: back.0,
                location: back.1,
                active_mode,
                modes,
                zones: lists.0,
                leds: lists.1,
                colors: lists.2,
            },
        )
    }
}

} // verus!
