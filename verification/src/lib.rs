use vstd::prelude::*;

pub mod auth;
pub mod cli;
pub mod client;
pub mod encoding;
pub mod files;
pub mod framing;
pub mod text;
pub mod ticket;
pub mod transfer;
pub mod update;
pub mod protocol;
pub mod server;
pub mod session;

verus! {

pub const NETWORK_LAYER: &'static str = "iroh";
pub const PROTOCOL_ALPN_STR: &'static str = "remotext/1";
pub const PROTOCOL_ALPN: [u8; 10] = [114, 101, 109, 111, 116, 101, 120, 116, 47, 49];
pub const PROTOCOL_VERSION: u16 = 1;

} // verus!
