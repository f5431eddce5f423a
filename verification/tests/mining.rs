use powchain::block::{Block, MiningError};
use sha2::Digest;

#[test]
fn digest_has_required_leading_zero_bytes() {
    for difficulty in 0..3usize {
        let b = Block::new(String::from("payload"), String::new(), 7, difficulty).unwrap();
        let digest_bytes = hex::decode(&b.hash).unwrap();
        assert_eq!(digest_bytes.len(), 32);
        for i in 0..difficulty {
            assert_eq!(digest_bytes[i], 0);
        }
    }
}

#[test]
fn digest_reproducible_from_hashing_tuple() {
    let b = Block::new(
        String::from("some payload"),
        String::from("00aa"),
        3,
        1,
    )
    .unwrap();
    // Re-serialize the hashing tuple and re-hash it with the crates
    // themselves, independently of the library.
    let tuple = (
        &b.prev_block_hash,
        &b.transactions,
        b.timestamp,
        b.difficulty,
        b.nonce,
    );
    let bytes = bincode::serialize(&tuple).unwrap();
    let recomputed = hex::encode(sha2::Sha256::digest(&bytes));
    assert_eq!(recomputed, b.hash);
    assert_eq!(recomputed, b.get_hash());
}

#[test]
fn recompute_digest_matches_stored_digest() {
    let b = Block::new(String::from("abc"), String::from("ff"), 2, 1).unwrap();
    assert_eq!(b.recompute_digest().unwrap(), b.get_hash());
}

#[test]
fn validate_accepts_mined_block() {
    let b = Block::new(String::from("abc"), String::new(), 0, 1).unwrap();
    assert!(b.validate().unwrap());
}

#[test]
fn difficulty_zero_accepts_first_nonce() {
    let b = Block::new(String::from("anything"), String::new(), 0, 0).unwrap();
    assert_eq!(b.nonce, 0);
}

#[test]
fn digest_is_lowercase_hex_of_fixed_length() {
    let b = Block::new(String::new(), String::new(), 0, 1).unwrap();
    assert_eq!(b.hash.len(), 64);
    assert!(b.hash.chars().all(|c| c.is_ascii_hexdigit() && !c.is_ascii_uppercase()));
}

#[test]
fn empty_payload_is_accepted() {
    let b = Block::new(String::new(), String::new(), 4, 1).unwrap();
    assert_eq!(b.transactions, "");
    assert_eq!(b.height, 4);
}

#[test]
fn impossible_difficulty_reports_nonce_exhaustion() {
    let r = Block::new(String::from("abc"), String::new(), 0, 33);
    assert_eq!(r.unwrap_err(), MiningError::NonceExhausted);
}

#[test]
fn genesis_block_fields() {
    let g = Block::new_genesis_block(1).unwrap();
    assert_eq!(g.transactions, "Genesis Block");
    assert_eq!(g.prev_block_hash, "");
    assert_eq!(g.height, 0);
    assert_eq!(g.difficulty, 1);
    let digest_bytes = hex::decode(&g.hash).unwrap();
    assert_eq!(digest_bytes[0], 0);
}

#[test]
fn mining_searches_from_nonce_zero() {
    // At difficulty 1 the found nonce is the least one whose digest opens
    // with a zero byte: every smaller nonce must fail the condition.
    let b = Block::new(String::from("search"), String::new(), 0, 1).unwrap();
    for n in 0..b.nonce {
        let tuple = (
            &b.prev_block_hash,
            &b.transactions,
            b.timestamp,
            b.difficulty,
            n,
        );
        let bytes = bincode::serialize(&tuple).unwrap();
        let digest = sha2::Sha256::digest(&bytes);
        assert_ne!(digest[0], 0);
    }
}
