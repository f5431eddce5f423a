use powchain::block::{Blockchain, MiningError};

#[test]
fn test_blockchain() {
    let mut b = Blockchain::new(1).unwrap();

    b.add_block(String::from("Block 1 data")).unwrap();
    b.add_block("Block 2 data".to_string()).unwrap();

    println!("{:?}", b);
}

#[test]
fn genesis_block_is_fixed() {
    let c = Blockchain::new(1).unwrap();
    assert_eq!(c.len(), 1);
    let genesis = c.get(0);
    assert_eq!(genesis.prev_block_hash, "");
    assert_eq!(genesis.height, 0);
    assert_eq!(genesis.transactions, "Genesis Block");
    assert_eq!(genesis.difficulty, 1);
}

#[test]
fn appended_blocks_link_to_predecessor() {
    let mut c = Blockchain::new(1).unwrap();
    c.add_block(String::from("X")).unwrap();
    c.add_block(String::from("Y")).unwrap();
    assert_eq!(c.len(), 3);
    assert_eq!(c.get(1).prev_block_hash, c.get(0).hash);
    assert_eq!(c.get(2).prev_block_hash, c.get(1).hash);
    assert_eq!(c.get(2).prev_block_hash, c.get(1).get_hash());
}

#[test]
fn append_failure_leaves_chain_unchanged() {
    let mut c = Blockchain::new(0).unwrap();
    let tip_hash = c.get(0).hash.clone();
    // A 256-bit digest has 32 bytes, so this difficulty can never be met:
    // mining the next block must fail, and the chain must not change.
    c.difficulty = 33;
    let r = c.add_block(String::from("doomed"));
    assert_eq!(r.unwrap_err(), MiningError::NonceExhausted);
    assert_eq!(c.len(), 1);
    assert_eq!(c.get(0).hash, tip_hash);
}

#[test]
fn chain_scenario_three_blocks() {
    let mut c = Blockchain::new(2).unwrap();
    c.add_block(String::from("Block 1 data")).unwrap();
    c.add_block(String::from("Block 2 data")).unwrap();
    assert_eq!(c.len(), 3);
    for i in 0..3 {
        assert_eq!(c.get(i).height, i);
        assert_eq!(c.get(i).difficulty, 2);
        let digest_bytes = hex::decode(&c.get(i).hash).unwrap();
        assert_eq!(&digest_bytes[0..2], &[0u8, 0u8]);
    }
    assert_eq!(c.get(0).prev_block_hash, "");
    assert_eq!(c.get(1).prev_block_hash, c.get(0).hash);
    assert_eq!(c.get(2).prev_block_hash, c.get(1).hash);
    assert_eq!(c.get(1).transactions, "Block 1 data");
    assert_eq!(c.get(2).transactions, "Block 2 data");
}

#[test]
fn initializing_at_impossible_difficulty_fails() {
    let r = Blockchain::new(33);
    assert_eq!(r.unwrap_err(), MiningError::NonceExhausted);
}
