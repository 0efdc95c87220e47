//! A minimal RPC library.
pub mod bench;
pub mod channel;
pub mod client;
pub mod derive;
pub mod error;
pub mod iroh_transport;
pub mod rpc;
pub mod sealed;
pub mod uds;
pub mod util;

pub use client::{
    Channels, Client, LocalSender, Receiver, Request, RpcMessage, Sender, Service, WithChannels,
};
pub use rpc::{Error, RequestError};
