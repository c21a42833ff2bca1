//! Command and response messages for remotely controlling a tick processor,
//! with a verified JSON wire codec and correlation identifiers.

pub mod codec;
pub mod ident;
pub mod json;
pub mod lexical;
pub mod message;
pub mod number;
pub mod readback;
pub mod schema;
pub mod text;
