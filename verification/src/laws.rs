//! What holds of every run of the accumulator and of the commit and exit
//! protocol, proved from the contracts of the operations.

use crate::digest::zero_bytes;
use crate::protocol::exit_record;
use crate::sha256::sha256;
use vstd::prelude::*;

verus! {

/// The two byte streams that a run of commits builds up.
pub struct Run {
    /// What the accumulator has absorbed.
    pub absorbed: Seq<u8>,
    /// What has been sent to the journal channel.
    pub journal: Seq<u8>,
}

/// One commit on a live handle: the payload goes to the end of what the
/// accumulator has absorbed, and the write that commit returns puts the same
/// bytes at the end of the journal.
pub open spec fn commit_step(run: Run, payload: Seq<u8>) -> Run {
    Run { absorbed: run.absorbed + payload, journal: run.journal + payload }
}

/// The run that starts with a fresh accumulator and an empty journal and
/// commits each payload in turn.
pub open spec fn run_of(payloads: Seq<Seq<u8>>) -> Run
    decreases payloads.len(),
{
    if payloads.len() == 0 {
        Run { absorbed: Seq::empty(), journal: Seq::empty() }
    } else {
        commit_step(run_of(payloads.drop_last()), payloads.last())
    }
}

/// After any sequence of commits the journal holds the payloads joined in call
/// order, and the accumulator has absorbed exactly what the journal holds.
pub proof fn lemma_journal_is_concatenation(payloads: Seq<Seq<u8>>)
    ensures
        run_of(payloads).journal == payloads.flatten(),
        run_of(payloads).absorbed == run_of(payloads).journal,
    decreases payloads.len(),
{
    payloads.lemma_flatten_and_flatten_alt_are_equivalent();
    if payloads.len() > 0 {
        let front = payloads.drop_last();
        lemma_journal_is_concatenation(front);
        front.lemma_flatten_and_flatten_alt_are_equivalent();
    }
}

/// Nothing but the payloads and their order decides the outcome: the same
/// payloads in the same order leave the same bytes absorbed, the same journal
/// and the same digest.
pub proof fn lemma_run_is_deterministic(first: Seq<Seq<u8>>, second: Seq<Seq<u8>>)
    requires
        first == second,
    ensures
        run_of(first) == run_of(second),
        sha256(run_of(first).absorbed) == sha256(run_of(second).absorbed),
{
}

/// The digest depends on the joined bytes alone: two runs whose payloads join
/// to the same bytes, however they were cut into calls, finish with the same
/// digest.
pub proof fn lemma_digest_ignores_chunking(first: Seq<Seq<u8>>, second: Seq<Seq<u8>>)
    requires
        first.flatten() == second.flatten(),
    ensures
        sha256(run_of(first).absorbed) == sha256(run_of(second).absorbed),
{
    lemma_journal_is_concatenation(first);
    lemma_journal_is_concatenation(second);
}

/// Exit after a run of commits binds the journal: the record's first digest is
/// the hash of the journal stream, and its second is the zero digest.
pub proof fn lemma_exit_binds_journal(payloads: Seq<Seq<u8>>)
    ensures
        exit_record(run_of(payloads).absorbed).journal == sha256(payloads.flatten()),
        exit_record(run_of(payloads).absorbed).journal == sha256(run_of(payloads).journal),
        exit_record(run_of(payloads).absorbed).assumptions == zero_bytes(),
{
    lemma_journal_is_concatenation(payloads);
}

/// Committing other bytes changes nothing in the record but its first digest,
/// and changes that one exactly when the two inputs hash apart.
pub proof fn lemma_exit_differs_in_journal_only(first: Seq<u8>, second: Seq<u8>)
    ensures
        exit_record(first).journal == exit_record(second).journal <==> sha256(first) == sha256(
            second,
        ),
        exit_record(first).assumptions == exit_record(second).assumptions,
{
}

} // verus!
