//! Request-construction and validation core of the `bh` command-line client:
//! input validators, `key=value` coercion, the error taxonomy of the remote
//! API, and the endpoint URLs that each client operation calls.

pub mod api;
pub mod client;
pub mod command;
pub mod error;
pub mod input;
pub mod request;
pub mod validation;
