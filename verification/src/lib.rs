//! Decoding of captured Ethernet frames into IPv4 header fields, rendering of
//! one-line event records, and the decisions of the capture-to-broker pipeline.

pub mod address;
pub mod driver;
pub mod error;
pub mod frame;
pub mod interface;
pub mod publish;
pub mod record;
