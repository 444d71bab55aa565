//! Decoding of the response envelope that every API call returns.
pub mod response;
