//! Client-side logic of an RDP connection: RemoteFX dequantization, the
//! decisions of the connection sequence, and the display control handler.
pub mod connection_sequence;
pub mod display;
pub mod error;
pub mod pdu;
pub mod quantization;
pub mod static_channels;
