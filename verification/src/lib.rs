//! A wrapper that lets blocking `std::io` objects stand where asynchronous
//! readers and writers are expected, and the rule by which a blocking call
//! that was interrupted is retried.

pub mod io_error;
pub mod retry;
pub mod wrapper;

pub use io_error::after_io_attempt;
pub use retry::{after_attempt, ErrorKind, IoFailure, Step};
pub use wrapper::AllowStdIo;
