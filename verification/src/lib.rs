//! Proxy-aware HTTP relay: resolving a proxy specification, planning and
//! building the outbound client, validating requests, shaping responses and
//! driving the event sequence of a streamed response. Beside it stand the
//! rules of the file sandbox that the same application offers.

pub mod client;
pub mod error;
pub mod foreign;
pub mod headers;
pub mod listing;
pub mod probe;
pub mod proxy;
pub mod request;
pub mod response;
pub mod sandbox;
pub mod search;
pub mod stream;
pub mod text;
