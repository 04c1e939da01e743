//! The engine's raw records and codes, held as plain values.
//!
//! These mirror the fixed-size descriptors that the engine fills in. Nothing
//! in them is trusted: every field is checked before it reaches a public view.
use vstd::prelude::*;
use libc::c_int;

verus! {

/// Capacity, in bytes, of the cell bitmap of a raw code record.
pub const QUIRC_MAX_BITMAP: usize = 3917;

/// Capacity, in bytes, of the payload of a raw data record.
pub const QUIRC_MAX_PAYLOAD: usize = 8896;

/// A location in the input image, as reported by the engine.
#[allow(non_camel_case_types)]
#[derive(Debug, Clone, Copy, Default, PartialEq, Eq, Hash, Structural)]
pub struct quirc_point {
    /// X coordinate (column) of the point.
    pub x: c_int,
    /// Y coordinate (row) of the point.
    pub y: c_int,
}

/// A detected code as reported by the engine: four corners from the top
/// left, clockwise, the number of cells across, and the cell bitmap.
///
/// The cell at `(x, y)` is black when bit `i % 8` of `cell_bitmap[i / 8]`
/// is set, where `i = y * size + x`.
#[allow(non_camel_case_types)]
#[derive(Debug, Clone, Copy)]
pub struct quirc_code {
    /// The four corners of the code, from top left, clockwise.
    pub corners: [quirc_point; 4],
    /// The number of cells across the code.
    pub size: c_int,
    /// The cell bitmap; only the first `ceil(size * size / 8)` bytes matter.
    pub cell_bitmap: [u8; QUIRC_MAX_BITMAP],
}

/// The decoded content of a code as reported by the engine.
#[allow(non_camel_case_types)]
#[derive(Debug, Clone, Copy)]
pub struct quirc_data {
    /// Version number.
    pub version: c_int,
    /// Raw error-correction level.
    pub ecc_level: c_int,
    /// Mask pattern.
    pub mask: c_int,
    /// Raw code of the highest-valued data type found in the code.
    pub data_type: c_int,
    /// Payload buffer; only the first `payload_len` bytes matter.
    pub payload: [u8; QUIRC_MAX_PAYLOAD],
    /// Valid portion of `payload`.
    pub payload_len: c_int,
    /// ECI assignment number.
    pub eci: u32,
}

/// Error-correction levels as the engine numbers them.
#[allow(non_camel_case_types)]
#[derive(Debug, Clone, Copy, PartialEq, Eq, Hash, Structural)]
pub enum QuircEccLevel {
    /// Medium ECC: correct at most 15% damage.
    QUIRC_ECC_LEVEL_M,
    /// Low ECC: correct at most 7% damage.
    QUIRC_ECC_LEVEL_L,
    /// High ECC: correct at most 30% damage.
    QUIRC_ECC_LEVEL_H,
    /// Quartile ECC: correct at most 25% damage.
    QUIRC_ECC_LEVEL_Q,
}

impl QuircEccLevel {
    /// The engine's integer for this level.
    pub open spec fn code(self) -> int {
        match self {
            QuircEccLevel::QUIRC_ECC_LEVEL_M => 0,
            QuircEccLevel::QUIRC_ECC_LEVEL_L => 1,
            QuircEccLevel::QUIRC_ECC_LEVEL_H => 2,
            QuircEccLevel::QUIRC_ECC_LEVEL_Q => 3,
        }
    }

    /// Reads an engine integer, with `None` for one that names no level.
    pub fn from_raw(raw: c_int) -> (r: Option<QuircEccLevel>)
        ensures
            r matches Some(l) ==> l.code() == raw,
            r is None <==> !(0 <= raw <= 3),
    {
        if raw == 0 {
            Some(QuircEccLevel::QUIRC_ECC_LEVEL_M)
        } else if raw == 1 {
            Some(QuircEccLevel::QUIRC_ECC_LEVEL_L)
        } else if raw == 2 {
            Some(QuircEccLevel::QUIRC_ECC_LEVEL_H)
        } else if raw == 3 {
            Some(QuircEccLevel::QUIRC_ECC_LEVEL_Q)
        } else {
            None
        }
    }
}

/// Data types as the engine numbers them.
#[allow(non_camel_case_types)]
#[derive(Debug, Clone, Copy, PartialEq, Eq, Hash, Structural)]
pub enum QuircDataType {
    /// Numeric (digits only).
    QUIRC_DATA_TYPE_NUMERIC,
    /// Alphanumeric.
    QUIRC_DATA_TYPE_ALPHA,
    /// Bytes.
    QUIRC_DATA_TYPE_BYTE,
    /// Kanji characters.
    QUIRC_DATA_TYPE_KANJI,
}

impl QuircDataType {
    /// The engine's integer for this data type.
    pub open spec fn code(self) -> int {
        match self {
            QuircDataType::QUIRC_DATA_TYPE_NUMERIC => 1,
            QuircDataType::QUIRC_DATA_TYPE_ALPHA => 2,
            QuircDataType::QUIRC_DATA_TYPE_BYTE => 4,
            QuircDataType::QUIRC_DATA_TYPE_KANJI => 8,
        }
    }

    /// Reads an engine integer, with `None` for one that names no data type.
    pub fn from_raw(raw: c_int) -> (r: Option<QuircDataType>)
        ensures
            r matches Some(t) ==> t.code() == raw,
            r is None <==> !(raw == 1 || raw == 2 || raw == 4 || raw == 8),
    {
        if raw == 1 {
            Some(QuircDataType::QUIRC_DATA_TYPE_NUMERIC)
        } else if raw == 2 {
            Some(QuircDataType::QUIRC_DATA_TYPE_ALPHA)
        } else if raw == 4 {
            Some(QuircDataType::QUIRC_DATA_TYPE_BYTE)
        } else if raw == 8 {
            Some(QuircDataType::QUIRC_DATA_TYPE_KANJI)
        } else {
            None
        }
    }
}

/// Status codes of the engine's decode step.
#[allow(non_camel_case_types)]
#[derive(Debug, Clone, Copy, PartialEq, Eq, Hash, Structural)]
pub enum quirc_decode_error_t {
    /// No error.
    QUIRC_SUCCESS,
    /// Invalid grid size.
    QUIRC_ERROR_INVALID_GRID_SIZE,
    /// Invalid version.
    QUIRC_ERROR_INVALID_VERSION,
    /// Invalid ECC format.
    QUIRC_ERROR_FORMAT_ECC,
    /// ECC data error.
    QUIRC_ERROR_DATA_ECC,
    /// Invalid data type.
    QUIRC_ERROR_UNKNOWN_DATA_TYPE,
    /// Data overflow.
    QUIRC_ERROR_DATA_OVERFLOW,
    /// Data underflow.
    QUIRC_ERROR_DATA_UNDERFLOW,
}

impl quirc_decode_error_t {
    /// The engine's integer for this status.
    pub open spec fn code(self) -> int {
        match self {
            quirc_decode_error_t::QUIRC_SUCCESS => 0,
            quirc_decode_error_t::QUIRC_ERROR_INVALID_GRID_SIZE => 1,
            quirc_decode_error_t::QUIRC_ERROR_INVALID_VERSION => 2,
            quirc_decode_error_t::QUIRC_ERROR_FORMAT_ECC => 3,
            quirc_decode_error_t::QUIRC_ERROR_DATA_ECC => 4,
            quirc_decode_error_t::QUIRC_ERROR_UNKNOWN_DATA_TYPE => 5,
            quirc_decode_error_t::QUIRC_ERROR_DATA_OVERFLOW => 6,
            quirc_decode_error_t::QUIRC_ERROR_DATA_UNDERFLOW => 7,
        }
    }

    /// Reads an engine integer, with `None` for one that names no status.
    pub fn from_raw(raw: c_int) -> (r: Option<quirc_decode_error_t>)
        ensures
            r matches Some(e) ==> e.code() == raw,
            r is None <==> !(0 <= raw <= 7),
    {
        if raw == 0 {
            Some(quirc_decode_error_t::QUIRC_SUCCESS)
        } else if raw == 1 {
            Some(quirc_decode_error_t::QUIRC_ERROR_INVALID_GRID_SIZE)
        } else if raw == 2 {
            Some(quirc_decode_error_t::QUIRC_ERROR_INVALID_VERSION)
        } else if raw == 3 {
            Some(quirc_decode_error_t::QUIRC_ERROR_FORMAT_ECC)
        } else if raw == 4 {
            Some(quirc_decode_error_t::QUIRC_ERROR_DATA_ECC)
        } else if raw == 5 {
            Some(quirc_decode_error_t::QUIRC_ERROR_UNKNOWN_DATA_TYPE)
        } else if raw == 6 {
            Some(quirc_decode_error_t::QUIRC_ERROR_DATA_OVERFLOW)
        } else if raw == 7 {
            Some(quirc_decode_error_t::QUIRC_ERROR_DATA_UNDERFLOW)
        } else {
            None
        }
    }
}

} // verus!
