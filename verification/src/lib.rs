//! Decoder for the CTM movie container header: a fixed-layout binary record
//! holding provenance and playback-accounting data for a recorded input
//! session.
#![allow(unused_imports)]
use vstd::prelude::*;

pub mod frames;
pub mod header;
pub mod hexenc;
pub mod reader;
pub mod timefmt;
pub mod utf8;

pub use frames::frame_count_from_inputs;
pub use header::CTM;
pub use header::DecodeError;
pub use header::FormatVariant;
pub use header::decode;
pub use header::from_vec;
pub use reader::read_value;
pub use reader::read_value_fixed;
