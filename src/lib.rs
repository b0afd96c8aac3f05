//! Codec for the VE.Direct serial protocol: hex frames, text telemetry blocks,
//! and the command / response vocabulary carried in them.

pub mod error;
pub mod frame;
pub mod hex;
pub mod ids;
pub mod message;
pub mod report;
pub mod value;

pub use error::Error;
pub use frame::{Frame, FrameDe, FrameSer, State};
pub use hex::{hex, nibble};
pub use ids::{
    CommandId, ErrorId, Flags, ItemId, ProductId, ResponseId, NOT_SUPPORTED, PARAMETER_ERROR,
    UNKNOWN_ID,
};
pub use message::{Command, Response};
pub use report::idb;
pub use value::Value;
