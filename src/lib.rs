//! Decoding of DNS response messages: the header, the flag word, the walk
//! through the four sections, name decompression, and typed resource records.

pub mod bytes;
pub mod error;
pub mod flags;
pub mod name;
pub mod options;
pub mod record;
pub mod response;

pub use error::{Error, ResolutionError};
pub use flags::Flags;
pub use response::{RecordItems, Response, Section};
pub use record::{Class, Record, RecordData, RecordType};
pub use options::{set_option, ResolverOption};
