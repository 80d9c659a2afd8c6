//! Server side of the Gopher protocol: request framing and decoding, the
//! response model, and the exact bytes that each response puts on the wire.

pub mod buf;
pub mod codec;
pub mod gopher_str;
pub mod proto;
pub mod types;

pub use gopher_str::GopherStr;
pub use types::{DirEntity, GopherRequest, GopherResponse, ItemType, Menu};
