//! A client for NFSv4.1 servers, without the network.
//!
//! A [`Client`] makes compound requests, each of them a [`call::Call`]: the operations to send,
//! and what is needed to read the reply to them. Whoever holds the connection sends the
//! operations and hands the reply to [`call::Pending`], which says what the reply comes to.
//!
//! [`handshake`] leads to a client, [`transfer`] holds work that takes several requests.
pub mod attrs;
pub mod call;
pub mod client;
pub mod compound;
pub mod error;
pub mod handshake;
pub mod laws;
pub mod meaning;
pub mod op_laws;
pub mod ops;
pub mod outside;
pub mod owner;
pub mod path;
pub mod protocol;
pub mod requests;
pub mod transfer;
pub mod tuple_laws;
pub mod tuples;

pub use crate::call::NFS_PORT;
pub use crate::client::Client;
pub use crate::error::{Error, Result, TempResult};
