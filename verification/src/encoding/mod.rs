//! The decode engine and its parts.

pub mod cache;
pub mod common;
pub mod decoder;
pub mod error;
pub mod opcode;
pub mod record;
pub mod source;
pub mod stream;
pub mod window;
