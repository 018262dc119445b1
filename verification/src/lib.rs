//! Connection engine for the Hiven chat gateway: the frame codec, the
//! handshake and heartbeat state machine, the transport pump's decisions and
//! the REST request plans, each with a machine-checked contract.

pub mod client;
pub mod data;
pub mod fields;
pub mod gateway;
pub mod http;
pub mod json;
pub mod payload;
pub mod pump;
pub mod session;
pub mod text;

pub use self::client::Client;
