//! Verified core of a sensor-network middleware: it decodes the binary
//! packets that radio sensor nodes send through a gateway, turns gateway
//! notifications into sensor messages, frames the serial byte stream into
//! lines, and keeps the bookkeeping of an OAuth client-credentials token.
use vstd::prelude::*;

pub mod text;
pub mod json;
pub mod le_bytes;
pub mod num_format;
pub mod clock;
pub mod sensor_message;
pub mod payload;
pub mod gateway;
pub mod line_buffer;
pub mod auth_request;
pub mod serial_config;

verus! {

} // verus!
