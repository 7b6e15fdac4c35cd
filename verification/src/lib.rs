//! Error taxonomy and connection discipline for a persistent chainstate
//! database.
//!
//! - [`error`]: the closed set of failures, each with its description, its
//!   rendering and its cause.
//! - [`cause`]: the underlying failures that an error can wrap.
//! - [`connection`]: which requests a connection accepts, by the mode it was
//!   opened in and by whether a transaction is active.
//! - [`backup`]: the capability that every store offers, and the failures it
//!   reports.

pub mod backup;
pub mod cause;
pub mod connection;
pub mod error;

pub use crate::backup::ChainstateDB;
pub use crate::cause::Cause;
pub use crate::connection::{AccessMode, Connection, ConnectionState, Operation, TransactionState};
pub use crate::error::ErrorKind;
