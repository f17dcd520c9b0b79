//! Zones, as the server describes them.
//!
//! After the name come the zone's type, three LED counts and the byte
//! length of the matrix section. A length of zero means that the zone has
//! no matrix. Otherwise the section holds the matrix's height, its width
//! and `height * width` cells, row by row.

use vstd::prelude::*;
use array2d::Array2D;
use crate::data::primitive::{le16, le32, read_u16, read_u32};
use crate::data::vec::{decode_items, lemma_decode_items_len, read_items};
use crate::data::zone_type::ZoneType;
use crate::data::{Decoded, OpenRGBReadable, has_bytes, message_matches, unknown_code_message};
use crate::error::OpenRGBError;
use crate::stream::ByteSource;

verus! {

/// `array2d::Array2D`, a fixed-size grid of cells. What a grid holds goes by
/// the two names below.
#[verifier::external_type_specification]
#[verifier::external_body]
#[verifier::reject_recursive_types(T)]
pub struct ExArray2D<T: Clone>(Array2D<T>);

/// The cells that an `Array2D` holds, row by row.
pub uninterp spec fn matrix_cells(matrix: Array2D<u32>) -> Seq<u32>;

/// The number of rows that an `Array2D` was made with, then its number of
/// columns.
pub uninterp spec fn matrix_shape(matrix: Array2D<u32>) -> (nat, nat);

/// `Array2D::from_row_major`: the matrix of `height` rows and `width`
/// columns whose cells, row by row, are `cells`. The call panics unless
/// there are `height * width` cells, so that is required.
#[verifier::external_body]
fn matrix_from_row_major(cells: &Vec<u32>, height: usize, width: usize) -> (matrix: Array2D<u32>)
    requires
        cells@.len() == height * width,
    ensures
        matrix_cells(matrix) == cells@,
        matrix_shape(matrix) == (height as nat, width as nat),
{
    Array2D::from_row_major(cells.as_slice(), height, width)
}

/// RGB controller zone.
#[derive(Debug, Clone, PartialEq, Eq)]
pub struct Zone {
    /// Zone name.
    pub name: String,
    /// Zone type.
    pub zone_type: ZoneType,
    /// Zone minimum LED number.
    pub leds_min: u32,
    /// Zone maximum LED number.
    pub leds_max: u32,
    /// Zone LED count.
    pub leds_count: u32,
    /// Zone LED matrix, if the zone has one.
    pub matrix: Option<Array2D<u32>>,
}

/// What a matrix holds: its cells row by row, `width` to a row.
pub struct MatrixView {
    pub height: nat,
    pub width: nat,
    pub cells: Seq<u32>,
}

impl MatrixView {
    /// The cell in row `row` and column `column`.
    pub open spec fn cell(self, row: int, column: int) -> u32 {
        self.cells[row * self.width + column]
    }
}

/// What a [`Zone`] holds.
pub struct ZoneView {
    pub name: Seq<char>,
    pub zone_type: ZoneType,
    pub leds_min: u32,
    pub leds_max: u32,
    pub leds_count: u32,
    pub matrix: Option<MatrixView>,
}

/// What a matrix holds.
pub open spec fn matrix_view(matrix: Array2D<u32>) -> MatrixView {
    MatrixView {
        height: matrix_shape(matrix).0,
        width: matrix_shape(matrix).1,
        cells: matrix_cells(matrix),
    }
}

impl DeepView for Zone {
    type V = ZoneView;

    open spec fn deep_view(&self) -> ZoneView {
        ZoneView {
            name: self.name@,
            zone_type: self.zone_type,
            leds_min: self.leds_min,
            leds_max: self.leds_max,
            leds_count: self.leds_count,
            matrix: match self.matrix {
                Some(matrix) => Some(matrix_view(matrix)),
                None => None,
            },
        }
    }
}

/// What the matrix section decodes to, from its length field at `at` on.
pub open spec fn decode_matrix(data: Seq<u8>, at: int, protocol: u32) -> Decoded<
    Option<MatrixView>,
> {
    if !has_bytes(data, at, 2) {
        Decoded::Short
    } else if le16(data, at) == 0 {
        Decoded::Value { value: None, next: at + 2 }
    } else if !has_bytes(data, at + 2, 8) {
        Decoded::Short
    } else {
        let height = le32(data, at + 2) as nat;
        let width = le32(data, at + 6) as nat;
        decode_items::<u32>(data, at + 10, height * width, protocol).map(
            |cells: Seq<u32>| Some(MatrixView { height, width, cells }),
        )
    }
}

/// Reads the matrix section.
fn read_matrix<S: ByteSource>(stream: &mut S, protocol: u32) -> (r: Result<
    Option<Array2D<u32>>,
    OpenRGBError,
>)
    ensures
        final(stream).data() == old(stream).data(),
        match decode_matrix(old(stream).data(), old(stream).pos(), protocol) {
            Decoded::Value { value, next } => r matches Ok(m) && final(stream).pos() == next && (
            match m {
                Some(matrix) => value == Some(matrix_view(matrix)),
                None => value is None,
            }),
            Decoded::Invalid { message, next } => r matches Err(OpenRGBError::ProtocolError(m))
                && message_matches(message, m@) && final(stream).pos() == next,
            Decoded::Short => r matches Err(OpenRGBError::CommunicationError { .. })
                && final(stream).pos() == old(stream).data().len(),
        },
{
    let ghost data = stream.data();
    let ghost at = stream.pos();
    let section = match read_u16(stream) {
        Ok(section) => section,
        Err(e) => {
            return Err(e);
        },
    };
    if section == 0 {
        return Ok(None);
    }
    let height = match read_u32(stream) {
        Ok(height) => height,
        Err(e) => {
            return Err(e);
        },
    };
    let width = match read_u32(stream) {
        Ok(width) => width,
        Err(e) => {
            return Err(e);
        },
    };
    assert(height as u64 * width as u64 <= u64::MAX) by (nonlinear_arith)
        requires
            height <= u32::MAX,
            width <= u32::MAX,
    ;
    let count: u64 = height as u64 * width as u64;
    let cells = match read_items::<u32, S>(stream, count, protocol) {
        Ok(cells) => cells,
        Err(e) => {
            return Err(e);
        },
    };
    proof {
        lemma_decode_items_len::<u32>(data, at + 10, count as nat, protocol);
        assert(cells@ =~= cells.deep_view());
    }
    Ok(Some(matrix_from_row_major(&cells, height as usize, width as usize)))
}

impl OpenRGBReadable for Zone {
    open spec fn decode(data: Seq<u8>, at: int, protocol: u32) -> Decoded<ZoneView> {
        match String::decode(data, at, protocol) {
            Decoded::Value { value: name, next } => {
                if !has_bytes(data, next, 4) {
                    Decoded::Short
                } else {
                    match ZoneType::from_code(le32(data, next)) {
                        None => Decoded::Invalid {
                            message: unknown_code_message(
                                "unknown zone type \""@,
                                le32(data, next),
                            ),
                            next: next + 4,
                        },
                        Some(zone_type) => {
                            if !has_bytes(data, next + 4, 12) {
                                Decoded::Short
                            } else {
                                decode_matrix(data, next + 16, protocol).map(
                                    |matrix: Option<MatrixView>|
                                        ZoneView {
                                            name,
                                            zone_type,
                                            leds_min: le32(data, next + 4),
                                            leds_max: le32(data, next + 8),
                                            leds_count: le32(data, next + 12),
                                            matrix,
                                        },
                                )
                            }
                        },
                    }
                }
            },
            Decoded::Invalid { message, next } => Decoded::Invalid { message, next },
            Decoded::Short => Decoded::Short,
        }
    }

    fn read<S: ByteSource>(stream: &mut S, protocol: u32) -> (r: Result<Self, OpenRGBError>) {
        let ghost expected = Self::decode(stream.data(), stream.pos(), protocol);
        let name = match String::read(stream, protocol) {
            Ok(name) => name,
            Err(e) => {
                return Err(e);
            },
        };
        let zone_type = match ZoneType::read(stream, protocol) {
            Ok(zone_type) => zone_type,
            Err(e) => {
                return Err(e);
            },
        };
        let leds_min = match read_u32(stream) {
            Ok(leds_min) => leds_min,
            Err(e) => {
                return Err(e);
            },
        };
        let leds_max = match read_u32(stream) {
            Ok(leds_max) => leds_max,
            Err(e) => {
                return Err(e);
            },
        };
        let leds_count = match read_u32(stream) {
            Ok(leds_count) => leds_count,
            Err(e) => {
                return Err(e);
            },
        };
        let matrix = match read_matrix(stream, protocol) {
            Ok(matrix) => matrix,
            Err(e) => {
                return Err(e);
            },
        };
        Ok(Zone { name, zone_type, leds_min, leds_max, leds_count, matrix })
    }
}

} // verus!
