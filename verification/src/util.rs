//! Utilities to read and write varints and length-prefixed values, streams of items with an explicit
//! end, and trusted certificates.
pub mod certs;
pub mod decimal;
pub mod frame_buf;
pub mod framing;
pub mod stream_item;
pub mod varint;
