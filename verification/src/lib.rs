//! The decisions of a file accessor that reaches its files through a host:
//! which request each operation makes, and what the host's reply means.

pub mod accessor;
pub mod codec;
pub mod error;
pub mod host;
pub mod location;
