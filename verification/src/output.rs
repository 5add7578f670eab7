//! The output record that an execution ends with, and its encoding.

use crate::digest::{zero_bytes, Digest};
use crate::sha256::MAX_ABSORBED_BYTES;
use vstd::prelude::*;

verus! {

/// Tag under which the output record is hashed.
pub const OUTPUT_TAG: &'static str = "risc0.output";

/// The digest that `risc0_binfmt::tagged_struct` computes for a tag, a list of
/// digests and a list of words.
pub uninterp spec fn tagged_struct_digest(tag: Seq<char>, down: Seq<Seq<u8>>, data: Seq<u32>) -> Seq<
    u8,
>;

/// The byte views of a list of digests.
pub open spec fn digest_views(down: Seq<Digest>) -> Seq<Seq<u8>> {
    down.map_values(|d: Digest| d@)
}

/// `risc0_binfmt::tagged_struct` with the SHA-256 of this platform: the struct
/// hash of `tag`, `down` and `data`, which depends on those three alone. The
/// outside function refuses more than 65535 digests, and what it hashes is kept
/// within the length that the platform's hash can take.
#[verifier::external_body]
pub(crate) fn tagged_struct(tag: &str, down: &Vec<Digest>, data: &Vec<u32>) -> (digest: Digest)
    requires
        4 * tag@.len() <= MAX_ABSORBED_BYTES,
        down@.len() <= 0xFFFF,
        32 * (down@.len() + 1) + 4 * data@.len() + 2 <= MAX_ABSORBED_BYTES,
    ensures
        digest@ == tagged_struct_digest(tag@, digest_views(down@), data@),
{
    let down: Vec<risc0_zkp::core::digest::Digest> = down.iter().map(
        |d| risc0_zkp::core::digest::Digest::from(d.bytes),
    ).collect();
    let digest = risc0_binfmt::tagged_struct::<risc0_zkp::core::hash::sha::Impl>(tag, &down, data);
    Digest { bytes: digest.into() }
}

/// What an [`OutputRecord`] holds, as byte sequences.
pub struct OutputRecordView {
    pub journal: Seq<u8>,
    pub assumptions: Seq<u8>,
}

/// The public result of an execution: the digest of everything committed to
/// the journal, and a digest reserved for assumptions.
#[derive(Clone, Copy, Debug, PartialEq, Eq)]
pub struct OutputRecord {
    pub journal: Digest,
    pub assumptions: Digest,
}

impl View for OutputRecord {
    type V = OutputRecordView;

    open spec fn view(&self) -> OutputRecordView {
        OutputRecordView { journal: self.journal@, assumptions: self.assumptions@ }
    }
}

/// The digest under which a record is published: its two digests hashed as a
/// struct under [`OUTPUT_TAG`], with no further data.
pub open spec fn record_digest(record: OutputRecordView) -> Seq<u8> {
    tagged_struct_digest(OUTPUT_TAG@, seq![record.journal, record.assumptions], Seq::empty())
}

impl OutputRecord {
    /// The record of an execution that made no assumptions: the journal digest
    /// beside the zero digest.
    pub fn new(journal: Digest) -> (record: OutputRecord)
        ensures
            record@.journal == journal@,
            record@.assumptions == zero_bytes(),
    {
        OutputRecord { journal, assumptions: Digest::zero() }
    }

    /// Encodes the record as one digest.
    pub fn digest(&self) -> (digest: Digest)
        ensures
            digest@ == record_digest(self@),
    {
        let mut down: Vec<Digest> = Vec::new();
        down.push(self.journal);
        down.push(self.assumptions);
        let data: Vec<u32> = Vec::new();
        proof {
            reveal_strlit("risc0.output");
            assert(digest_views(down@) =~= seq![self.journal@, self.assumptions@]);
        }
        tagged_struct(OUTPUT_TAG, &down, &data)
    }
}

} // verus!
