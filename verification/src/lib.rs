//! Portable encodings for the values a Raft node hands across process and
//! storage boundaries: monotonic time readings, boxed error values and the
//! tag that names the kind of an RPC.
//!
//! Every value has two wire forms. The structured form is a plain value that a
//! self-describing format can carry (an unsigned integer, a name, a text). The
//! fixed-layout form is a byte string of known shape that is validated before
//! any byte of it is interpreted.

pub mod boxed_error_source;
pub mod error;
pub mod instant;
pub mod rpc_type;
pub mod serde_instant;
pub mod wall_time;

pub use boxed_error_source::BoxedErrorSource;
pub use error::ArchiveError;
pub use instant::Instant;
pub use rpc_type::RPCTypes;
pub use serde_instant::ArchivedSerdeInstant;
pub use serde_instant::SerdeInstant;
pub use wall_time::WallTime;
