//! A resumable, pollable transfer of a file's bytes into a socket.
//!
//! The kernel copies the bytes; this library keeps the books. A [`SendFile`] owns the file and
//! the socket and counts the bytes moved. It says which native call comes next, accounts what
//! the call answered, and decides how the loop around the call goes on: at once, later, or
//! not at all. The call itself is made by the owner of the operation.
//!
//! - [`native`] holds the values that pass to and from the native call, and what an answer
//!   means on each family of systems.
//! - [`errors`] holds the error of a failed call and its class.
//! - [`operation`] holds the operation and the steps of its loop.
//! - [`model`] tells a transfer as the run of its calls, and proves what holds of every run.

pub mod errors;
pub mod model;
pub mod native;
pub mod operation;

pub use crate::operation::{send_file, SendFile};
