//! The two requests that the client can make.
pub mod download;
pub mod search;
