//! LEDs, as the server describes them.

use vstd::prelude::*;
use crate::data::{Decoded, OpenRGBReadable};
use crate::error::OpenRGBError;
use crate::stream::ByteSource;

verus! {

/// A single LED.
#[derive(Debug, Clone, PartialEq, Eq)]
pub struct LED {
    /// LED name.
    pub name: String,
    /// LED value.
    pub value: u32,
}

/// What an [`LED`] holds.
pub struct LEDView {
    pub name: Seq<char>,
    pub value: u32,
}

impl DeepView for LED {
    type V = LEDView;

    open spec fn deep_view(&self) -> LEDView {
        LEDView { name: self.name@, value: self.value }
    }
}

impl OpenRGBReadable for LED {
    open spec fn decode(data: Seq<u8>, at: int, protocol: u32) -> Decoded<LEDView> {
        <(String, u32)>::decode(data, at, protocol).map(
            |fields: (Seq<char>, u32)| LEDView { name: fields.0, value: fields.1 },
        )
    }

    fn read<S: ByteSource>(stream: &mut S, protocol: u32) -> (r: Result<Self, OpenRGBError>) {
        let ghost expected = Self::decode(stream.data(), stream.pos(), protocol);
        match <(String, u32)>::read(stream, protocol) {
            Ok(fields) => Ok(LED { name: fields.0, value: fields.1 }),
            Err(e) => Err(e),
        }
    }
}

} // verus!
