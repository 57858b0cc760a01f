//! Content negotiation and multi-format encoding for web handlers.
//!
//! The crate resolves a wire format ([`ContentType`]) from MIME header text
//! and dispatches encoding and decoding of a value over that format.

pub mod apply;
pub mod content;
pub mod decode;
pub mod encode;
pub mod extract;
pub mod handler;
pub mod rejection;
pub mod validation;

pub use content::Accept;
pub use content::ContentType;
pub use extract::Codec;
pub use handler::Input;
pub use rejection::CodecRejection;
