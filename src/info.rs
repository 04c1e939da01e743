//! High-level representation of the information contained in a QR code.
use vstd::prelude::*;
use vstd::utf8::valid_utf8;
use vstd::string::StringSliceAdditionalSpecFns;
use crate::util::utf8_text;
use libc::c_int;
use crate::quirc_sys::{quirc_data, QuircEccLevel, QuircDataType, QUIRC_MAX_PAYLOAD};

verus! {

/// The error-correction level of a QR code, from lowest to highest.
#[derive(Debug, Clone, Copy, PartialEq, Eq, PartialOrd, Ord, Hash, Structural)]
pub enum EccLevel {
    /// Low error correction: ~7% loss recoverable.
    L,
    /// Medium error correction: ~15% loss recoverable.
    M,
    /// Quartile error correction: ~25% loss recoverable.
    Q,
    /// High error correction: ~30% loss recoverable.
    H,
}

/// The highest-valued (most complex) data type found in the QR code.
#[derive(Debug, Clone, Copy, PartialEq, Eq, PartialOrd, Ord, Hash, Structural)]
pub enum DataType {
    /// Numeric (digits only).
    Numeric,
    /// Alphanumeric.
    Alphanumeric,
    /// Bytes.
    Byte,
    /// Kanji characters.
    Kanji,
}

/// `v` moved into `lo..=hi`.
pub open spec fn clamp(v: int, lo: int, hi: int) -> int {
    if v < lo {
        lo
    } else if v > hi {
        hi
    } else {
        v
    }
}

/// The level that an engine ECC integer names; an unknown integer reads as
/// the lowest level.
pub open spec fn ecc_of_code(code: int) -> EccLevel {
    if code == 0 {
        EccLevel::M
    } else if code == 1 {
        EccLevel::L
    } else if code == 2 {
        EccLevel::H
    } else if code == 3 {
        EccLevel::Q
    } else {
        EccLevel::L
    }
}

/// The data type that an engine integer names; an unknown integer reads as
/// uninterpreted bytes.
pub open spec fn data_type_of_code(code: int) -> DataType {
    if code == 1 {
        DataType::Numeric
    } else if code == 2 {
        DataType::Alphanumeric
    } else if code == 4 {
        DataType::Byte
    } else if code == 8 {
        DataType::Kanji
    } else {
        DataType::Byte
    }
}

impl EccLevel {
    /// Reads the engine's integer for an ECC level; an unknown integer is
    /// taken as the lowest level.
    pub fn from_code(code: c_int) -> (r: EccLevel)
        ensures
            r == ecc_of_code(code as int),
    {
        match QuircEccLevel::from_raw(code) {
            Some(QuircEccLevel::QUIRC_ECC_LEVEL_L) => EccLevel::L,
            Some(QuircEccLevel::QUIRC_ECC_LEVEL_M) => EccLevel::M,
            Some(QuircEccLevel::QUIRC_ECC_LEVEL_Q) => EccLevel::Q,
            Some(QuircEccLevel::QUIRC_ECC_LEVEL_H) => EccLevel::H,
            None => EccLevel::L,
        }
    }
}

impl DataType {
    /// Reads the engine's integer for a data type; an unknown integer is
    /// taken as uninterpreted bytes.
    pub fn from_code(code: c_int) -> (r: DataType)
        ensures
            r == data_type_of_code(code as int),
    {
        match QuircDataType::from_raw(code) {
            Some(QuircDataType::QUIRC_DATA_TYPE_NUMERIC) => DataType::Numeric,
            Some(QuircDataType::QUIRC_DATA_TYPE_ALPHA) => DataType::Alphanumeric,
            Some(QuircDataType::QUIRC_DATA_TYPE_BYTE) => DataType::Byte,
            Some(QuircDataType::QUIRC_DATA_TYPE_KANJI) => DataType::Kanji,
            None => DataType::Byte,
        }
    }
}

/// High-level representation of the information contained in a QR code.
///
/// Every field is already clamped into its documented range, so equality
/// and hashing see the validated values, payload bytes included.
#[derive(Debug, PartialEq, Eq, Hash)]
pub struct Info {
    version: u8,
    ecc_level: EccLevel,
    mask_id: u8,
    eci: u8,
    data_type: DataType,
    payload: Vec<u8>,
}

impl Info {
    #[verifier::type_invariant]
    spec fn well_formed(&self) -> bool {
        &&& 1 <= self.version <= 40
        &&& self.mask_id <= 7
        &&& self.eci <= 30
        &&& self.payload@.len() <= QUIRC_MAX_PAYLOAD
    }

    /// The version number.
    pub closed spec fn spec_version(&self) -> int {
        self.version as int
    }

    /// The error-correction level.
    pub closed spec fn spec_ecc_level(&self) -> EccLevel {
        self.ecc_level
    }

    /// The mask pattern.
    pub closed spec fn spec_mask_id(&self) -> int {
        self.mask_id as int
    }

    /// The ECI assignment number.
    pub closed spec fn spec_eci(&self) -> int {
        self.eci as int
    }

    /// The data type.
    pub closed spec fn spec_data_type(&self) -> DataType {
        self.data_type
    }

    /// The payload bytes.
    pub closed spec fn spec_payload(&self) -> Seq<u8> {
        self.payload@
    }

    /// This information is what a raw record reads as: every number clamped
    /// into its range, each enumeration read with its fallback, and the
    /// payload cut to its valid length.
    pub open spec fn extracted_from(&self, raw: quirc_data) -> bool {
        &&& self.spec_version() == clamp(raw.version as int, 1, 40)
        &&& self.spec_mask_id() == clamp(raw.mask as int, 0, 7)
        &&& self.spec_eci() == clamp(raw.eci as int, 0, 30)
        &&& self.spec_ecc_level() == ecc_of_code(raw.ecc_level as int)
        &&& self.spec_data_type() == data_type_of_code(raw.data_type as int)
        &&& self.spec_payload() == raw.payload@.subrange(
            0,
            clamp(raw.payload_len as int, 0, QUIRC_MAX_PAYLOAD as int),
        )
    }

    /// Extracts high-level information from a raw record, clamping every
    /// number into its range and cutting the payload to its valid length.
    pub fn from_raw(raw: &quirc_data) -> (r: Info)
        ensures
            r.extracted_from(*raw),
    {
        let version: u8 = if raw.version < 1 {
            1
        } else if raw.version > 40 {
            40
        } else {
            raw.version as u8
        };
        let mask_id: u8 = if raw.mask < 0 {
            0
        } else if raw.mask > 7 {
            7
        } else {
            raw.mask as u8
        };
        let eci: u8 = if raw.eci > 30 {
            30
        } else {
            raw.eci as u8
        };
        let len: usize = if raw.payload_len < 0 {
            0
        } else if raw.payload_len as usize > QUIRC_MAX_PAYLOAD {
            QUIRC_MAX_PAYLOAD
        } else {
            raw.payload_len as usize
        };
        let mut payload: Vec<u8> = Vec::with_capacity(len);
        let mut i: usize = 0;
        while i < len
            invariant
                i <= len <= QUIRC_MAX_PAYLOAD,
                payload@ == raw.payload@.subrange(0, i as int),
            decreases len - i,
        {
            payload.push(raw.payload[i]);
            i += 1;
        }
        Info {
            version,
            ecc_level: EccLevel::from_code(raw.ecc_level),
            mask_id,
            eci,
            data_type: DataType::from_code(raw.data_type),
            payload,
        }
    }

    /// Returns the version number of the code, in the range `1..=40`.
    pub fn version(&self) -> (r: u8)
        ensures
            r == self.spec_version(),
            1 <= r <= 40,
    {
        proof {
            use_type_invariant(self);
        }
        self.version
    }

    /// Returns the mask ID of the code, in the range `0..=7`.
    pub fn mask_id(&self) -> (r: u8)
        ensures
            r == self.spec_mask_id(),
            r <= 7,
    {
        proof {
            use_type_invariant(self);
        }
        self.mask_id
    }

    /// Returns the ECI assignment number, in the range `0..=30`.
    pub fn eci(&self) -> (r: u8)
        ensures
            r == self.spec_eci(),
            r <= 30,
    {
        proof {
            use_type_invariant(self);
        }
        self.eci
    }

    /// Returns the error correction level of the code.
    pub fn ecc_level(&self) -> (r: EccLevel)
        ensures
            r == self.spec_ecc_level(),
    {
        self.ecc_level
    }

    /// Returns the highest-valued data type found in the code.
    pub fn data_type(&self) -> (r: DataType)
        ensures
            r == self.spec_data_type(),
    {
        self.data_type
    }

    /// Returns the raw payload of the QR code.
    pub fn payload(&self) -> (r: &[u8])
        ensures
            r@ == self.spec_payload(),
            r@.len() <= QUIRC_MAX_PAYLOAD,
    {
        proof {
            use_type_invariant(self);
        }
        self.payload.as_slice()
    }

    /// Returns the payload as UTF-8 text, if it is valid UTF-8.
    pub fn as_str(&self) -> (r: Result<&str, std::str::Utf8Error>)
        ensures
            r is Ok <==> valid_utf8(self.spec_payload()),
            r matches Ok(s) ==> s.spec_bytes() == self.spec_payload(),
    {
        utf8_text(self.payload())
    }
}

impl Clone for Info {
    fn clone(&self) -> (r: Info)
        ensures
            r.spec_version() == self.spec_version(),
            r.spec_ecc_level() == self.spec_ecc_level(),
            r.spec_mask_id() == self.spec_mask_id(),
            r.spec_eci() == self.spec_eci(),
            r.spec_data_type() == self.spec_data_type(),
            r.spec_payload() == self.spec_payload(),
    {
        proof {
            use_type_invariant(self);
        }
        Info {
            version: self.version,
            ecc_level: self.ecc_level,
            mask_id: self.mask_id,
            eci: self.eci,
            data_type: self.data_type,
            payload: self.payload.clone(),
        }
    }
}

} // verus!
