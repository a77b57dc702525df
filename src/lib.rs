//! Reading and writing JSON documents, with one error type for both the
//! I/O layer and the JSON layer.
pub mod codec;
pub mod error;
pub mod layout;

pub use codec::{deserialize, to_string, to_vec_pretty, to_writer};
pub use error::SerializeError;
