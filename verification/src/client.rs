//! The client: the protocol version it agrees on with the server, and the
//! packet that each operation sends.

use vstd::prelude::*;
use vstd::string::*;
use crate::data::{
    Color, Controller, Decoded, Encoded, Mode, OpenRGBReadable, OpenRGBWritable, PacketId,
    RawString, capped, message_matches, read_matches, write_matches,
};
use crate::error::OpenRGBError;
use crate::protocol::{OpenRGBStream, decode_packet, encode_packet};

verus! {

/// Default protocol version used by the client: the highest it supports.
pub const DEFAULT_PROTOCOL: u32 = 3;

/// The lowest protocol version that has profiles.
pub const PROFILE_CONTROL_PROTOCOL: u32 = 2;

/// The lowest protocol version in which modes can be saved.
pub const SAVING_MODES_PROTOCOL: u32 = 3;

/// The protocol version that a client uses with a server that reports
/// `server` as the highest it supports: the lower of that and the client's
/// own highest.
pub open spec fn negotiated(server: u32) -> u32 {
    if server < DEFAULT_PROTOCOL {
        server
    } else {
        DEFAULT_PROTOCOL
    }
}

/// The packet that asks the server for its protocol version. It carries the
/// client's highest version and is itself encoded at that version.
pub open spec fn handshake_bytes() -> Seq<u8> {
    encode_packet::<u32>(
        DEFAULT_PROTOCOL,
        0,
        PacketId::RequestProtocolVersion,
        DEFAULT_PROTOCOL,
    )->bytes
}

/// Whether `r` is the refusal of `operation`, which takes version
/// `required`, at version `current`.
pub open spec fn is_unsupported<T>(
    r: Result<T, OpenRGBError>,
    operation: Seq<char>,
    current: u32,
    required: u32,
) -> bool {
    r matches Err(
        OpenRGBError::UnsupportedOperation {
            operation: name,
            current_protocol_version,
            min_protocol_version,
        },
    ) && name@ == operation && current_protocol_version == current && min_protocol_version
        == required
}

/// OpenRGB client.
///
/// Every operation is one packet with a fixed packet identifier, and for
/// some a reply of the same identifier. An operation that the agreed
/// version lacks is refused before anything is written or read.
pub struct OpenRGB<S: OpenRGBStream> {
    protocol: u32,
    stream: S,
}

impl<S: OpenRGBStream> OpenRGB<S> {
    /// The protocol version agreed on with the server.
    pub closed spec fn protocol(&self) -> u32 {
        self.protocol
    }

    /// The stream that the client talks over.
    pub closed spec fn stream(&self) -> S {
        self.stream
    }

    /// Whether `after` is this client once it has sent, with result `r`,
    /// the packet `packet_id` for `device_id` with payload `value`, and
    /// read nothing.
    pub open spec fn sent<I: OpenRGBWritable>(
        &self,
        after: &Self,
        r: Result<(), OpenRGBError>,
        device_id: u32,
        packet_id: PacketId,
        value: I::V,
    ) -> bool {
        &&& after.protocol() == self.protocol()
        &&& after.stream().data() == self.stream().data()
        &&& after.stream().pos() == self.stream().pos()
        &&& write_matches(
            encode_packet::<I>(self.protocol(), device_id, packet_id, value),
            r,
            self.stream().written(),
            after.stream().written(),
        )
    }

    /// Whether `after` is this client once it has sent the packet
    /// `packet_id` for `device_id` with payload `value` and, where that was
    /// written, has read the reply, which `expected` describes, with result
    /// `r`.
    pub open spec fn asked<I: OpenRGBWritable, O: DeepView>(
        &self,
        after: &Self,
        r: Result<O, OpenRGBError>,
        device_id: u32,
        packet_id: PacketId,
        value: I::V,
        expected: Decoded<O::V>,
    ) -> bool {
        &&& after.protocol() == self.protocol()
        &&& after.stream().data() == self.stream().data()
        &&& match encode_packet::<I>(self.protocol(), device_id, packet_id, value) {
            Encoded::Bytes { bytes } => {
                &&& after.stream().written() == self.stream().written() + bytes
                &&& read_matches(
                    expected,
                    r,
                    after.stream().pos(),
                    self.stream().data().len() as int,
                )
            },
            Encoded::Refused { message, sent } => {
                &&& r matches Err(OpenRGBError::ProtocolError(m)) && m@ == message
                &&& after.stream().written() == self.stream().written()
                &&& after.stream().pos() == self.stream().pos()
            },
        }
    }

    /// What the reply to the packet `packet_id` for `device_id` decodes to.
    pub open spec fn reply<O: OpenRGBReadable>(&self, device_id: u32, packet_id: PacketId)
        -> Decoded<O::V> {
        decode_packet::<O>(
            self.stream().data(),
            self.stream().pos(),
            self.protocol(),
            device_id,
            packet_id,
        )
    }

    /// Asks the server for its protocol version and returns the version to
    /// use with it: the lower of the server's and [`DEFAULT_PROTOCOL`].
    pub fn negotiate(stream: &mut S) -> (r: Result<u32, OpenRGBError>)
        ensures
            final(stream).data() == old(stream).data(),
            final(stream).written() == old(stream).written() + handshake_bytes(),
            read_matches(
                decode_packet::<u32>(
                    old(stream).data(),
                    old(stream).pos(),
                    DEFAULT_PROTOCOL,
                    0,
                    PacketId::RequestProtocolVersion,
                ).map(|server: u32| negotiated(server)),
                r,
                final(stream).pos(),
                old(stream).data().len() as int,
            ),
    {
        let server: u32 = stream.request(
            DEFAULT_PROTOCOL,
            0,
            PacketId::RequestProtocolVersion,
            DEFAULT_PROTOCOL,
        )?;
        if server < DEFAULT_PROTOCOL {
            Ok(server)
        } else {
            Ok(DEFAULT_PROTOCOL)
        }
    }

    /// Builds a client on a connected stream: asks the server for its
    /// protocol version and settles on the lower of that and
    /// [`DEFAULT_PROTOCOL`].
    pub fn new(stream: S) -> (r: Result<Self, OpenRGBError>)
        ensures
            match decode_packet::<u32>(
                stream.data(),
                stream.pos(),
                DEFAULT_PROTOCOL,
                0,
                PacketId::RequestProtocolVersion,
            ) {
                Decoded::Value { value: server, next } => {
                    &&& r matches Ok(client)
                    &&& client.protocol() == negotiated(server)
                    &&& client.stream().data() == stream.data()
                    &&& client.stream().pos() == next
                    &&& client.stream().written() == stream.written() + handshake_bytes()
                },
                Decoded::Invalid { message, next } => r matches Err(
                    OpenRGBError::ProtocolError(m),
                ) && message_matches(message, m@),
                Decoded::Short => r matches Err(OpenRGBError::CommunicationError { .. }),
            },
    {
        let mut stream = stream;
        let protocol = Self::negotiate(&mut stream)?;
        Ok(OpenRGB { protocol, stream })
    }

    /// A client that uses `protocol` on `stream` without asking the server.
    pub fn with_protocol(protocol: u32, stream: S) -> (client: Self)
        ensures
            client.protocol() == protocol,
            client.stream() == stream,
    {
        OpenRGB { protocol, stream }
    }

    /// Gives the stream back.
    pub fn into_stream(self) -> (stream: S)
        ensures
            stream == self.stream(),
    {
        self.stream
    }

    /// Get protocol version negotiated with server.
    ///
    /// This is the lowest between this client maximum supported version
    /// ([`DEFAULT_PROTOCOL`]) and server version.
    pub fn get_protocol_version(&self) -> (version: u32)
        ensures
            version == self.protocol(),
    {
        self.protocol
    }

    /// Set client name.
    pub fn set_name(&mut self, name: String) -> (r: Result<(), OpenRGBError>)
        ensures
            old(self).sent::<RawString>(final(self), r, 0, PacketId::SetClientName, name@),
    {
        self.stream.send(self.protocol, 0, PacketId::SetClientName, RawString(name))
    }

    /// Get number of controllers.
    pub fn get_controller_count(&mut self) -> (r: Result<u32, OpenRGBError>)
        ensures
            old(self).asked::<(), u32>(
                final(self),
                r,
                0,
                PacketId::RequestControllerCount,
                (),
                old(self).reply::<u32>(0, PacketId::RequestControllerCount),
            ),
    {
        self.stream.request(self.protocol, 0, PacketId::RequestControllerCount, ())
    }

    /// Get controller data.
    pub fn get_controller(&mut self, controller_id: u32) -> (r: Result<Controller, OpenRGBError>)
        ensures
            old(self).asked::<u32, Controller>(
                final(self),
                r,
                controller_id,
                PacketId::RequestControllerData,
                old(self).protocol(),
                old(self).reply::<Controller>(controller_id, PacketId::RequestControllerData),
            ),
    {
        self.stream.request(
            self.protocol,
            controller_id,
            PacketId::RequestControllerData,
            self.protocol,
        )
    }

    /// Resize a controller zone.
    pub fn resize_zone(&mut self, zone_id: i32, new_size: i32) -> (r: Result<(), OpenRGBError>)
        ensures
            old(self).sent::<(i32, i32)>(
                final(self),
                r,
                0,
                PacketId::RGBControllerResizeZone,
                (zone_id, new_size),
            ),
    {
        self.stream.send(self.protocol, 0, PacketId::RGBControllerResizeZone, (zone_id, new_size))
    }

    /// Update a single LED.
    pub fn update_led(&mut self, controller_id: u32, led_id: i32, color: Color) -> (r: Result<
        (),
        OpenRGBError,
    >)
        ensures
            old(self).sent::<(i32, Color)>(
                final(self),
                r,
                controller_id,
                PacketId::RGBControllerUpdateSingleLed,
                (led_id, color),
            ),
    {
        self.stream.send(
            self.protocol,
            controller_id,
            PacketId::RGBControllerUpdateSingleLed,
            (led_id, color),
        )
    }

    /// Update LEDs. The payload is the colors, with their own size in
    /// bytes before them.
    pub fn update_leds(&mut self, controller_id: u32, colors: Vec<Color>) -> (r: Result<
        (),
        OpenRGBError,
    >)
        ensures
            old(self).sent::<(usize, Vec<Color>)>(
                final(self),
                r,
                controller_id,
                PacketId::RGBControllerUpdateLeds,
                (
                    capped(Vec::<Color>::wire_size(colors.deep_view(), old(self).protocol())),
                    colors.deep_view(),
                ),
            ),
    {
        let size = colors.size(self.protocol);
        self.stream.send(
            self.protocol,
            controller_id,
            PacketId::RGBControllerUpdateLeds,
            (size, colors),
        )
    }

    /// Update a zone LEDs. The payload is the zone and the colors, with
    /// the size in bytes of the two before them.
    pub fn update_zone_leds(&mut self, controller_id: u32, zone_id: u32, colors: Vec<Color>) -> (r:
        Result<(), OpenRGBError>)
        ensures
            old(self).sent::<(usize, u32, Vec<Color>)>(
                final(self),
                r,
                controller_id,
                PacketId::RGBControllerUpdateZoneLeds,
                (
                    capped(4 + Vec::<Color>::wire_size(colors.deep_view(), old(self).protocol())),
                    zone_id,
                    colors.deep_view(),
                ),
            ),
    {
        let size = zone_id.size(self.protocol).saturating_add(colors.size(self.protocol));
        self.stream.send(
            self.protocol,
            controller_id,
            PacketId::RGBControllerUpdateZoneLeds,
            (size, zone_id, colors),
        )
    }

    /// Get profiles.
    pub fn get_profiles(&mut self) -> (r: Result<Vec<String>, OpenRGBError>)
        ensures
            if old(self).protocol() < PROFILE_CONTROL_PROTOCOL {
                &&& is_unsupported(
                    r,
                    "Profile control"@,
                    old(self).protocol(),
                    PROFILE_CONTROL_PROTOCOL,
                )
                &&& *final(self) == *old(self)
            } else {
                old(self).asked::<(), Vec<String>>(
                    final(self),
                    r,
                    0,
                    PacketId::RequestProfileList,
                    (),
                    old(self).reply::<(u32, Vec<String>)>(0, PacketId::RequestProfileList).map(
                        |reply: (u32, Seq<Seq<char>>)| reply.1,
                    ),
                )
            },
    {
        self.check_protocol_version_profile_control()?;
        let reply: (u32, Vec<String>) = self.stream.request(
            self.protocol,
            0,
            PacketId::RequestProfileList,
            (),
        )?;
        Ok(reply.1)
    }

    /// Load a profile.
    pub fn load_profile(&mut self, name: String) -> (r: Result<(), OpenRGBError>)
        ensures
            if old(self).protocol() < PROFILE_CONTROL_PROTOCOL {
                &&& is_unsupported(
                    r,
                    "Profile control"@,
                    old(self).protocol(),
                    PROFILE_CONTROL_PROTOCOL,
                )
                &&& *final(self) == *old(self)
            } else {
                old(self).sent::<String>(final(self), r, 0, PacketId::RequestLoadProfile, name@)
            },
    {
        self.check_protocol_version_profile_control()?;
        self.stream.send(self.protocol, 0, PacketId::RequestLoadProfile, name)
    }

    /// Save a profile.
    pub fn save_profile(&mut self, name: String) -> (r: Result<(), OpenRGBError>)
        ensures
            if old(self).protocol() < PROFILE_CONTROL_PROTOCOL {
                &&& is_unsupported(
                    r,
                    "Profile control"@,
                    old(self).protocol(),
                    PROFILE_CONTROL_PROTOCOL,
                )
                &&& *final(self) == *old(self)
            } else {
                old(self).sent::<String>(final(self), r, 0, PacketId::RequestSaveProfile, name@)
            },
    {
        self.check_protocol_version_profile_control()?;
        self.stream.send(self.protocol, 0, PacketId::RequestSaveProfile, name)
    }

    /// Delete a profile.
    pub fn delete_profile(&mut self, name: String) -> (r: Result<(), OpenRGBError>)
        ensures
            if old(self).protocol() < PROFILE_CONTROL_PROTOCOL {
                &&& is_unsupported(
                    r,
                    "Profile control"@,
                    old(self).protocol(),
                    PROFILE_CONTROL_PROTOCOL,
                )
                &&& *final(self) == *old(self)
            } else {
                old(self).sent::<String>(final(self), r, 0, PacketId::RequestDeleteProfile, name@)
            },
    {
        self.check_protocol_version_profile_control()?;
        self.stream.send(self.protocol, 0, PacketId::RequestDeleteProfile, name)
    }

    /// Set custom mode.
    pub fn set_custom_mode(&mut self, controller_id: u32) -> (r: Result<(), OpenRGBError>)
        ensures
            old(self).sent::<()>(
                final(self),
                r,
                controller_id,
                PacketId::RGBControllerSetCustomMode,
                (),
            ),
    {
        self.stream.send(self.protocol, controller_id, PacketId::RGBControllerSetCustomMode, ())
    }

    /// Update a mode. The payload is the mode's index and the mode, with
    /// the size in bytes of the two before them.
    pub fn update_mode(&mut self, controller_id: u32, mode_id: i32, mode: Mode) -> (r: Result<
        (),
        OpenRGBError,
    >)
        ensures
            old(self).sent::<(usize, i32, Mode)>(
                final(self),
                r,
                controller_id,
                PacketId::RGBControllerUpdateMode,
                (
                    capped(4 + Mode::wire_size(mode.deep_view(), old(self).protocol())),
                    mode_id,
                    mode.deep_view(),
                ),
            ),
    {
        let size = mode_id.size(self.protocol).saturating_add(mode.size(self.protocol));
        self.stream.send(
            self.protocol,
            controller_id,
            PacketId::RGBControllerUpdateMode,
            (size, mode_id, mode),
        )
    }

    /// Save a mode.
    pub fn save_mode(&mut self, controller_id: u32, mode: Mode) -> (r: Result<(), OpenRGBError>)
        ensures
            if old(self).protocol() < SAVING_MODES_PROTOCOL {
                &&& is_unsupported(
                    r,
                    "Saving modes"@,
                    old(self).protocol(),
                    SAVING_MODES_PROTOCOL,
                )
                &&& *final(self) == *old(self)
            } else {
                old(self).sent::<Mode>(
                    final(self),
                    r,
                    controller_id,
                    PacketId::RGBControllerSaveMode,
                    mode.deep_view(),
                )
            },
    {
        self.check_protocol_version_saving_modes()?;
        self.stream.send(self.protocol, controller_id, PacketId::RGBControllerSaveMode, mode)
    }

    /// Refuses, before the version that has profiles.
    pub fn check_protocol_version_profile_control(&self) -> (r: Result<(), OpenRGBError>)
        ensures
            if self.protocol() < PROFILE_CONTROL_PROTOCOL {
                is_unsupported(r, "Profile control"@, self.protocol(), PROFILE_CONTROL_PROTOCOL)
            } else {
                r is Ok
            },
    {
        if self.protocol < PROFILE_CONTROL_PROTOCOL {
            return Err(
                OpenRGBError::UnsupportedOperation {
                    operation: String::from_str("Profile control"),
                    current_protocol_version: self.protocol,
                    min_protocol_version: PROFILE_CONTROL_PROTOCOL,
                },
            );
        }
        Ok(())
    }

    /// Refuses, before the version in which modes can be saved.
    pub fn check_protocol_version_saving_modes(&self) -> (r: Result<(), OpenRGBError>)
        ensures
            if self.protocol() < SAVING_MODES_PROTOCOL {
                is_unsupported(r, "Saving modes"@, self.protocol(), SAVING_MODES_PROTOCOL)
            } else {
                r is Ok
            },
    {
        if self.protocol < SAVING_MODES_PROTOCOL {
            return Err(
                OpenRGBError::UnsupportedOperation {
                    operation: String::from_str("Saving modes"),
                    current_protocol_version: self.protocol,
                    min_protocol_version: SAVING_MODES_PROTOCOL,
                },
            );
        }
        Ok(())
    }
}

} // verus!
