//! Safe, verified boundary around the `quirc` QR code detection engine.
//!
//! The engine itself (grid finding, error correction, bit-stream decoding)
//! is driven from outside this crate; here live the checks and conversions
//! that stand between its raw records and the caller: integer-width
//! conversions, image validation, the scan transaction, the detection
//! cursor, located codes and decoded payloads.
pub mod util;
pub mod error;
pub mod quirc_sys;
pub mod geom;
pub mod info;
pub mod decoder;

pub use decoder::Decoder;
pub use error::Error;
pub use geom::{Image, Vec2D, QrCode};
pub use info::Info;
