//! Committing output and ending the execution.
//!
//! Both operations decide what is to happen and leave the system call to the
//! caller: [`commit`] returns the write to make, [`zkvm_exit`] the halt.

use crate::accumulator::{sha256_update, CSha256};
use crate::digest::{words_of, zero_bytes, DIGEST_WORDS};
use crate::output::{record_digest, OutputRecord, OutputRecordView};
use crate::sha256::sha256;
use vstd::prelude::*;

verus! {

/// A write that the caller owes to an output channel.
#[derive(Clone, Copy, Debug, PartialEq, Eq)]
pub struct JournalWrite<'a> {
    /// Number of the channel to write to.
    pub fd: u32,
    /// The bytes to append to it.
    pub bytes: &'a [u8],
}

/// The halt that ends the execution.
#[derive(Clone, Copy, Debug, PartialEq, Eq)]
pub struct Halt {
    /// Exit code handed to the host.
    pub exit_code: u8,
    /// The record that the output words encode.
    pub record: OutputRecord,
    /// The words that become the public result of the execution.
    pub output: [u32; DIGEST_WORDS],
}

/// Number of the journal channel.
pub open spec fn journal_fd() -> u32 {
    3
}

/// `risc0_zkvm_platform::fileno::JOURNAL`, the number that the platform gives
/// the journal channel.
#[verifier::external_body]
fn journal_fileno() -> (fd: u32)
    ensures
        fd == journal_fd(),
{
    risc0_zkvm_platform::fileno::JOURNAL
}

/// The bytes that a call carries: those given, or none at all.
pub open spec fn payload(bytes: Option<&[u8]>) -> Seq<u8> {
    match bytes {
        Some(b) => b@,
        None => Seq::empty(),
    }
}

/// The record that exit builds once `committed` has been absorbed.
pub open spec fn exit_record(committed: Seq<u8>) -> OutputRecordView {
    OutputRecordView { journal: sha256(committed), assumptions: zero_bytes() }
}

/// Absorbs `bytes` into `hasher` and returns the write of those same bytes to
/// the journal. Without a handle nothing is hashed, and the write is still
/// owed; without bytes the write is empty.
pub fn commit<'a>(hasher: Option<&mut CSha256>, bytes: Option<&'a [u8]>) -> (write: JournalWrite<'a>)
    requires
        hasher matches Some(h) ==> (bytes matches Some(b) ==> h.accepts(b@.len())),
    ensures
        write.fd == journal_fd(),
        write.bytes@ == payload(bytes),
        hasher matches Some(h) ==> final(h)@ == (match bytes {
            Some(b) => Some(h@->0 + b@),
            None => h@,
        }),
{
    sha256_update(hasher, bytes);
    let fd: u32 = journal_fileno();
    match bytes {
        Some(b) => JournalWrite { fd, bytes: b },
        None => {
            let empty: &'a [u8] = &[];
            JournalWrite { fd, bytes: empty }
        },
    }
}

/// Finishes the hash of everything committed and returns the halt that carries
/// `exit_code` and the encoded output record. The handle is spent afterwards.
pub fn zkvm_exit(hasher: &mut CSha256, exit_code: u8) -> (halt: Halt)
    requires
        old(hasher)@ is Some,
    ensures
        final(hasher)@ is None,
        halt.exit_code == exit_code,
        halt.record@ == exit_record(old(hasher)@->0),
        halt.output@ == words_of(record_digest(halt.record@)),
{
    let journal = hasher.finalize();
    let record = OutputRecord::new(*journal);
    let output = record.digest().to_words();
    Halt { exit_code, record, output }
}

} // verus!
