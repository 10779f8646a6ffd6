//! The messages API as values: requests that are put together block by
//! block, the documents they are sent as, and the answers and refusals that
//! the documents coming back are read as.
//!
//! The library holds no connection. [`client`] says what is to be sent and
//! reads what came back; whoever holds the connection carries both.

pub mod client;
pub mod constants;
pub mod decode;
pub mod encode;
pub mod error;
pub mod json;
pub mod laws;
pub mod models;
pub mod shape;
pub mod utils;
pub mod wire;
