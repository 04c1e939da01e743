//! Errors that can happen during QR code detection and decoding.
use vstd::prelude::*;
use libc::c_int;
use crate::quirc_sys::quirc_decode_error_t;

verus! {

/// A decoding error reported by the engine.
#[derive(Debug, Clone, Copy, PartialEq, Eq, Hash, Structural)]
pub enum DecodingErrorKind {
    /// An unknown error happened.
    Unknown,
    /// The grid size was invalid.
    InvalidGridSize,
    /// The version was invalid.
    InvalidVersion,
    /// The format failed ECC check.
    FormatEcc,
    /// The data failed ECC check.
    DataEcc,
    /// The data type was not recognized.
    UnknownDataType,
    /// The data payload was too long.
    DataOverflow,
    /// The data payload was too short.
    DataUnderflow,
}

/// An error that could happen while using the engine.
#[derive(Debug, Clone, Copy, PartialEq, Eq, Hash, Structural)]
pub enum Error {
    /// Memory could not be allocated.
    AllocFailed,
    /// The length of the data buffer doesn't match the dimensions of the image.
    SizeMismatch,
    /// A `usize` can't be expressed as a C `int`, or vice versa.
    IntOverflow,
    /// A decoding error occurred.
    DecodingFailed(DecodingErrorKind),
}

/// The kind that an engine decode status stands for: each known failure
/// status has its own kind, and every other integer, success included,
/// is `Unknown`.
pub open spec fn kind_of_code(code: int) -> DecodingErrorKind {
    if code == 1 {
        DecodingErrorKind::InvalidGridSize
    } else if code == 2 {
        DecodingErrorKind::InvalidVersion
    } else if code == 3 {
        DecodingErrorKind::FormatEcc
    } else if code == 4 {
        DecodingErrorKind::DataEcc
    } else if code == 5 {
        DecodingErrorKind::UnknownDataType
    } else if code == 6 {
        DecodingErrorKind::DataOverflow
    } else if code == 7 {
        DecodingErrorKind::DataUnderflow
    } else {
        DecodingErrorKind::Unknown
    }
}

impl DecodingErrorKind {
    /// The human-readable message of this kind.
    pub open spec fn message(self) -> Seq<char> {
        match self {
            DecodingErrorKind::Unknown => "decoding failed because an unknown error happened"@,
            DecodingErrorKind::InvalidGridSize => "decoding failed because the grid size was invalid"@,
            DecodingErrorKind::InvalidVersion => "decoding failed because the version was invalid"@,
            DecodingErrorKind::FormatEcc => "decoding failed because the format failed ECC check"@,
            DecodingErrorKind::DataEcc => "decoding failed because the data failed ECC check"@,
            DecodingErrorKind::UnknownDataType => "decoding failed because the data type was not recognized"@,
            DecodingErrorKind::DataOverflow => "decoding failed because the data payload was too long"@,
            DecodingErrorKind::DataUnderflow => "decoding failed because the data payload was too short"@,
        }
    }

    /// Returns a human-readable error message.
    pub fn to_str(self) -> (r: &'static str)
        ensures
            r@ == self.message(),
    {
        match self {
            DecodingErrorKind::Unknown => "decoding failed because an unknown error happened",
            DecodingErrorKind::InvalidGridSize => "decoding failed because the grid size was invalid",
            DecodingErrorKind::InvalidVersion => "decoding failed because the version was invalid",
            DecodingErrorKind::FormatEcc => "decoding failed because the format failed ECC check",
            DecodingErrorKind::DataEcc => "decoding failed because the data failed ECC check",
            DecodingErrorKind::UnknownDataType => "decoding failed because the data type was not recognized",
            DecodingErrorKind::DataOverflow => "decoding failed because the data payload was too long",
            DecodingErrorKind::DataUnderflow => "decoding failed because the data payload was too short",
        }
    }

    /// Classifies an engine decode status given as a raw integer. Any
    /// integer that is no known failure status maps to `Unknown`.
    pub fn from_code(code: c_int) -> (r: DecodingErrorKind)
        ensures
            r == kind_of_code(code as int),
    {
        if code == 1 {
            DecodingErrorKind::InvalidGridSize
        } else if code == 2 {
            DecodingErrorKind::InvalidVersion
        } else if code == 3 {
            DecodingErrorKind::FormatEcc
        } else if code == 4 {
            DecodingErrorKind::DataEcc
        } else if code == 5 {
            DecodingErrorKind::UnknownDataType
        } else if code == 6 {
            DecodingErrorKind::DataOverflow
        } else if code == 7 {
            DecodingErrorKind::DataUnderflow
        } else {
            DecodingErrorKind::Unknown
        }
    }
}

impl From<quirc_decode_error_t> for DecodingErrorKind {
    fn from(code: quirc_decode_error_t) -> (r: DecodingErrorKind) {
        match code {
            quirc_decode_error_t::QUIRC_ERROR_INVALID_GRID_SIZE => DecodingErrorKind::InvalidGridSize,
            quirc_decode_error_t::QUIRC_ERROR_INVALID_VERSION => DecodingErrorKind::InvalidVersion,
            quirc_decode_error_t::QUIRC_ERROR_FORMAT_ECC => DecodingErrorKind::FormatEcc,
            quirc_decode_error_t::QUIRC_ERROR_DATA_ECC => DecodingErrorKind::DataEcc,
            quirc_decode_error_t::QUIRC_ERROR_UNKNOWN_DATA_TYPE => DecodingErrorKind::UnknownDataType,
            quirc_decode_error_t::QUIRC_ERROR_DATA_OVERFLOW => DecodingErrorKind::DataOverflow,
            quirc_decode_error_t::QUIRC_ERROR_DATA_UNDERFLOW => DecodingErrorKind::DataUnderflow,
            quirc_decode_error_t::QUIRC_SUCCESS => DecodingErrorKind::Unknown,
        }
    }
}

impl vstd::std_specs::convert::FromSpecImpl<quirc_decode_error_t> for DecodingErrorKind {
    open spec fn obeys_from_spec() -> bool {
        true
    }

    open spec fn from_spec(code: quirc_decode_error_t) -> DecodingErrorKind {
        kind_of_code(code.code())
    }
}

impl From<quirc_decode_error_t> for Error {
    fn from(code: quirc_decode_error_t) -> (r: Error) {
        Error::DecodingFailed(DecodingErrorKind::from(code))
    }
}

impl vstd::std_specs::convert::FromSpecImpl<quirc_decode_error_t> for Error {
    open spec fn obeys_from_spec() -> bool {
        true
    }

    open spec fn from_spec(code: quirc_decode_error_t) -> Error {
        Error::DecodingFailed(kind_of_code(code.code()))
    }
}

impl Error {
    /// The human-readable description of this error.
    pub open spec fn message(self) -> Seq<char> {
        match self {
            Error::AllocFailed => "memory allocation failed"@,
            Error::SizeMismatch => "buffer size doesn't match image dimensions"@,
            Error::IntOverflow => "usize <-> int conversion would overflow"@,
            Error::DecodingFailed(reason) => reason.message(),
        }
    }

    /// Returns a human-readable description of this error.
    pub fn description(&self) -> (r: &'static str)
        ensures
            r@ == self.message(),
    {
        match *self {
            Error::AllocFailed => "memory allocation failed",
            Error::SizeMismatch => "buffer size doesn't match image dimensions",
            Error::IntOverflow => "usize <-> int conversion would overflow",
            Error::DecodingFailed(reason) => reason.to_str(),
        }
    }
}

} // verus!
