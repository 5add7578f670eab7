use guest_platform::digest::Digest;
use guest_platform::{commit, init_sha256, sha256_finalize, sha256_free, zkvm_exit};

const SHA256_HELLOWORLD: [u8; 32] = [
    0x93, 0x6a, 0x18, 0x5c, 0xaa, 0xa2, 0x66, 0xbb, 0x9c, 0xbe, 0x98, 0x1e, 0x9e, 0x05, 0xcb, 0x78,
    0xcd, 0x73, 0x2b, 0x0b, 0x32, 0x80, 0xeb, 0x94, 0x44, 0x12, 0xbb, 0x6f, 0x8f, 0x8f, 0x07, 0xaf,
];

const SHA256_OF_NOTHING: [u8; 32] = [
    0xe3, 0xb0, 0xc4, 0x42, 0x98, 0xfc, 0x1c, 0x14, 0x9a, 0xfb, 0xf4, 0xc8, 0x99, 0x6f, 0xb9, 0x24,
    0x27, 0xae, 0x41, 0xe4, 0x64, 0x9b, 0x93, 0x4c, 0xa4, 0x95, 0x99, 0x1b, 0x78, 0x52, 0xb8, 0x55,
];

fn outside_output_words(journal: [u8; 32]) -> [u32; 8] {
    risc0_binfmt::tagged_struct::<risc0_zkp::core::hash::sha::cpu::Impl>(
        "risc0.output",
        &[
            risc0_zkp::core::digest::Digest::from(journal),
            risc0_zkp::core::digest::Digest::ZERO,
        ],
        &[],
    )
    .into()
}

#[test]
fn commit_hello_world_then_exit() {
    let mut hasher = init_sha256();
    let mut journal: Vec<u8> = Vec::new();

    let first = commit(Some(&mut *hasher), Some(b"hello"));
    assert_eq!(first.fd, 3);
    journal.extend_from_slice(first.bytes);
    let second = commit(Some(&mut *hasher), Some(b"world"));
    assert_eq!(second.fd, 3);
    journal.extend_from_slice(second.bytes);
    assert_eq!(journal, b"helloworld");

    let halt = zkvm_exit(&mut *hasher, 0);
    assert_eq!(halt.exit_code, 0);
    assert_eq!(halt.record.journal.bytes, SHA256_HELLOWORLD);
    assert_eq!(halt.record.assumptions.bytes, [0u8; 32]);
    assert_eq!(
        halt.output,
        [
            0x3f5e64e7, 0xc6e6d5c1, 0x37a463b2, 0x5fb1a84c, 0x6bf2c37e, 0xd80aae77, 0x164c5339,
            0x6263e29f,
        ]
    );
    assert!(!hasher.is_live());
    sha256_free(Some(hasher));
}

#[test]
fn exit_words_match_outside_struct_hash() {
    let mut hasher = init_sha256();
    let _write = commit(Some(&mut *hasher), Some(b"helloworld"));
    let halt = zkvm_exit(&mut *hasher, 0);
    let mut expected = outside_output_words(SHA256_HELLOWORLD);
    for word in expected.iter_mut() {
        *word = u32::from_le(*word);
    }
    assert_eq!(halt.output, expected);
    assert_eq!(halt.output, halt.record.digest().to_words());
}

#[test]
fn exit_with_nothing_committed() {
    let mut hasher = init_sha256();
    let halt = zkvm_exit(&mut *hasher, 0);
    assert_eq!(halt.record.journal.bytes, SHA256_OF_NOTHING);
    assert_eq!(halt.record.assumptions, Digest::zero());
    assert_eq!(
        halt.output,
        [
            0xc062d9f2, 0xb3c75ba5, 0x93dae8f1, 0x58881d9f, 0x4e7fc1bc, 0x8a905863, 0x1729921b,
            0x08c5eb16,
        ]
    );
}

#[test]
fn exit_carries_the_exit_code() {
    for code in [0u8, 1, 7, 255] {
        let mut hasher = init_sha256();
        let halt = zkvm_exit(&mut *hasher, code);
        assert_eq!(halt.exit_code, code);
    }
}

#[test]
fn exit_code_does_not_touch_the_output() {
    let mut first = init_sha256();
    let mut second = init_sha256();
    let _a = commit(Some(&mut *first), Some(b"same bytes"));
    let _b = commit(Some(&mut *second), Some(b"same bytes"));
    let ok = zkvm_exit(&mut *first, 0);
    let failed = zkvm_exit(&mut *second, 1);
    assert_eq!(ok.output, failed.output);
    assert_eq!(ok.record.journal, failed.record.journal);
}

#[test]
fn journal_holds_the_payloads_in_call_order() {
    let payloads: [&[u8]; 5] = [b"alpha", b"", b"be", b"ta", b"gamma!"];
    let mut hasher = init_sha256();
    let mut journal: Vec<u8> = Vec::new();
    for payload in payloads {
        assert!(hasher.can_absorb(payload.len()));
        let write = commit(Some(&mut *hasher), Some(payload));
        assert_eq!(write.fd, 3);
        assert_eq!(write.bytes, payload);
        journal.extend_from_slice(write.bytes);
    }
    assert_eq!(journal, payloads.concat());
    assert_eq!(journal, b"alphabetagamma!");

    let digest = sha256_finalize(Some(&mut *hasher)).expect("a handle was given");
    let outside = <risc0_zkp::core::hash::sha::cpu::Impl as risc0_zkp::core::hash::sha::Sha256>::hash_bytes(&journal);
    let expected: [u8; 32] = (*outside).into();
    assert_eq!(digest.bytes, expected);
}

#[test]
fn journal_channel_is_the_platform_journal() {
    let write = commit(None, Some(b"x"));
    assert_eq!(write.fd, risc0_zkvm_platform::fileno::JOURNAL);
    assert_eq!(write.fd, 3);
}

#[test]
fn commit_without_handle_still_writes() {
    let write = commit(None, Some(b"unhashed"));
    assert_eq!(write.fd, 3);
    assert_eq!(write.bytes, b"unhashed");
}

#[test]
fn commit_without_bytes_writes_nothing() {
    let mut hasher = init_sha256();
    let write = commit(Some(&mut *hasher), None);
    assert_eq!(write.fd, 3);
    assert!(write.bytes.is_empty());
    let nothing = commit(None, None);
    assert!(nothing.bytes.is_empty());
    let digest = sha256_finalize(Some(&mut *hasher)).expect("a handle was given");
    assert_eq!(digest.bytes, SHA256_OF_NOTHING);
}

#[test]
fn commit_hashes_what_it_writes() {
    let mut committed = init_sha256();
    let _w1 = commit(Some(&mut *committed), Some(b"hello"));
    let _w2 = commit(Some(&mut *committed), Some(b"world"));
    let digest = sha256_finalize(Some(&mut *committed)).expect("a handle was given");
    assert_eq!(digest.bytes, SHA256_HELLOWORLD);
}

#[test]
fn changing_one_byte_changes_only_the_journal_digest() {
    let mut first = init_sha256();
    let mut second = init_sha256();
    let _a = commit(Some(&mut *first), Some(b"helloworld"));
    let _b = commit(Some(&mut *second), Some(b"helloworle"));
    let one = zkvm_exit(&mut *first, 0);
    let other = zkvm_exit(&mut *second, 0);
    assert_ne!(one.record.journal, other.record.journal);
    assert_eq!(one.record.assumptions, other.record.assumptions);
    assert_eq!(one.exit_code, other.exit_code);
    assert_ne!(one.output, other.output);
}

#[test]
fn split_commits_end_in_the_same_output() {
    let mut whole = init_sha256();
    let mut split = init_sha256();
    let _w = commit(Some(&mut *whole), Some(b"helloworld"));
    let _s1 = commit(Some(&mut *split), Some(b"hel"));
    let _s2 = commit(Some(&mut *split), Some(b"lowor"));
    let _s3 = commit(Some(&mut *split), Some(b"ld"));
    let one = zkvm_exit(&mut *whole, 0);
    let other = zkvm_exit(&mut *split, 0);
    assert_eq!(one.output, other.output);
    assert_eq!(one.record.journal, other.record.journal);
}
