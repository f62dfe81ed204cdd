//! A form-POST bridge: the request that one call sends, and the decisions
//! that turn what the network hands back into the caller's result.
pub mod exchange;
pub mod request;
