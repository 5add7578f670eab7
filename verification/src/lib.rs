//! Guest-side runtime shim of a zero-knowledge virtual machine.
//!
//! A guest program hashes data incrementally through a [`CSha256`] handle,
//! commits output bytes to the journal, and ends by binding everything it
//! committed into the output words that the halt carries.
//!
//! Nothing here performs a system call. [`commit`] and [`zkvm_exit`] change the
//! accumulator and return the write or halt that the caller must then carry
//! out, so that the bytes written and the bytes hashed cannot differ.

pub mod accumulator;
pub mod digest;
pub mod laws;
pub mod output;
pub mod protocol;
pub mod sha256;

pub use accumulator::{init_sha256, sha256_finalize, sha256_free, sha256_update, CSha256};
pub use digest::Digest;
pub use output::OutputRecord;
pub use protocol::{commit, zkvm_exit, Halt, JournalWrite};
