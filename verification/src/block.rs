//! Blocks, the proof-of-work miner, and the append-only chain.

use crate::hashing::{
    check_pow, current_millis, encoding_of, hex_digit, hex_encode, hex_of, pow_ok, serialize_tuple,
    sha256, sha256_of,
};
use vstd::prelude::*;

verus! {

/// Why a block could not be produced.
#[derive(Debug, Clone, Copy, PartialEq, Eq, Structural)]
pub enum MiningError {
    /// The canonical encoding of the block's hashing tuple could not be
    /// produced. Encoding the fixed tuple of strings and integers cannot
    /// fail, so no function here returns this kind; it names the failure a
    /// different encoding could meet.
    Serialization,
    /// Every nonce was searched and none yielded a digest with the required
    /// number of leading zero bytes.
    NonceExhausted,
    /// The system clock could not be read.
    Clock,
}

/// A block of the chain, immutable once mined.
#[derive(Debug, Clone)]
pub struct Block {
    /// Milliseconds since the epoch, captured when construction started.
    pub timestamp: u128,
    /// The opaque payload; the chain does not interpret it.
    pub transactions: String,
    /// The digest of the block before this one; empty only for the genesis block.
    pub prev_block_hash: String,
    /// This block's own digest: the lowercase hexadecimal rendering of the
    /// hash of its canonical encoding.
    pub hash: String,
    /// The block's position in the chain.
    pub height: usize,
    /// The value found by the proof-of-work search.
    pub nonce: i32,
    /// How many leading zero bytes the digest must have.
    pub difficulty: usize,
}

/// The canonical byte encoding of a block's hashing tuple.
pub open spec fn block_encoding(b: Block) -> Seq<u8> {
    encoding_of(b.prev_block_hash@, b.transactions@, b.timestamp, b.difficulty, b.nonce)
}

/// A mined block: its digest is the hash of its canonical encoding, rendered
/// in hexadecimal, and that hash satisfies the proof-of-work condition at the
/// block's difficulty.
pub open spec fn block_wf(b: Block) -> bool {
    &&& sha256_of(block_encoding(b)).len() == 32
    &&& b.hash@ == hex_of(sha256_of(block_encoding(b)))
    &&& pow_ok(sha256_of(block_encoding(b)), b.difficulty as int)
}

impl Block {
    /// This block's digest.
    pub fn get_hash(&self) -> (r: String)
        ensures
            r@ == self.hash@,
    {
        self.hash.clone()
    }

    /// The canonical byte encoding of this block's hashing tuple. Encoding
    /// this fixed tuple of strings and integers always succeeds.
    pub fn prepare_hash_data(&self) -> (r: Result<Vec<u8>, MiningError>)
        ensures
            r is Ok,
            r->Ok_0@ == block_encoding(*self),
    {
        match serialize_tuple(
            &self.prev_block_hash,
            &self.transactions,
            self.timestamp,
            self.difficulty,
            self.nonce,
        ) {
            Ok(bytes) => Ok(bytes),
            Err(_) => Err(MiningError::Serialization),
        }
    }

    /// Recomputes this block's digest by re-encoding and re-hashing the
    /// block's hashing tuple, independently of the stored `hash` field.
    /// Always succeeds.
    pub fn recompute_digest(&self) -> (r: Result<String, MiningError>)
        ensures
            r is Ok,
            r->Ok_0@ == hex_of(sha256_of(block_encoding(*self))),
    {
        let data = match self.prepare_hash_data() {
            Ok(d) => d,
            Err(e) => {
                return Err(e);
            },
        };
        let digest = sha256(&data);
        Ok(hex_encode(&digest))
    }

    /// Checks whether this block's current nonce satisfies the proof-of-work
    /// condition, by re-encoding and re-hashing the hashing tuple. Always
    /// succeeds.
    pub fn validate(&self) -> (r: Result<bool, MiningError>)
        ensures
            r is Ok,
            r->Ok_0 == pow_ok(sha256_of(block_encoding(*self)), self.difficulty as int),
    {
        let data = match self.prepare_hash_data() {
            Ok(d) => d,
            Err(e) => {
                return Err(e);
            },
        };
        let digest = sha256(&data);
        Ok(check_pow(&digest, self.difficulty))
    }

    /// Searches nonces upward from the block's current nonce until the digest
    /// of the canonical encoding has `difficulty` leading zero bytes, then
    /// stores the winning nonce and digest.
    ///
    /// The search is deterministic and total: it succeeds exactly when some
    /// nonce at or after the starting point satisfies the condition, and on
    /// success the stored nonce is the least such one. The only failure is
    /// nonce exhaustion: a 256-bit digest has 32 bytes, so a difficulty above
    /// 32 can never be met and the search is exhausted from the start. On
    /// failure the block is unchanged.
    pub fn run_proof_of_work(&mut self) -> (r: Result<(), MiningError>)
        ensures
            r is Ok ==> ({
                &&& final(self).timestamp == old(self).timestamp
                &&& final(self).transactions == old(self).transactions
                &&& final(self).prev_block_hash == old(self).prev_block_hash
                &&& final(self).height == old(self).height
                &&& final(self).difficulty == old(self).difficulty
                &&& final(self).nonce >= old(self).nonce
                &&& block_wf(*final(self))
                &&& forall|n: i32|
                    old(self).nonce <= n < final(self).nonce ==> !pow_ok(
                        sha256_of(
                            encoding_of(
                                old(self).prev_block_hash@,
                                old(self).transactions@,
                                old(self).timestamp,
                                old(self).difficulty,
                                n,
                            ),
                        ),
                        old(self).difficulty as int,
                    )
            }),
            r is Err ==> *final(self) == *old(self),
            r is Err ==> r->Err_0 == MiningError::NonceExhausted,
            r is Err <==> (old(self).difficulty > 32 || forall|n: i32|
                n >= old(self).nonce ==> !pow_ok(
                    sha256_of(
                        encoding_of(
                            old(self).prev_block_hash@,
                            old(self).transactions@,
                            old(self).timestamp,
                            old(self).difficulty,
                            n,
                        ),
                    ),
                    old(self).difficulty as int,
                )),
    {
        if self.difficulty > 32 {
            return Err(MiningError::NonceExhausted);
        }
        let mut nonce: i32 = self.nonce;
        loop
            invariant
                *self == *old(self),
                self.difficulty <= 32,
                old(self).nonce <= nonce,
                forall|n: i32|
                    old(self).nonce <= n < nonce ==> !pow_ok(
                        sha256_of(
                            encoding_of(
                                self.prev_block_hash@,
                                self.transactions@,
                                self.timestamp,
                                self.difficulty,
                                n,
                            ),
                        ),
                        self.difficulty as int,
                    ),
            decreases i32::MAX - nonce,
        {
            let data = match serialize_tuple(
                &self.prev_block_hash,
                &self.transactions,
                self.timestamp,
                self.difficulty,
                nonce,
            ) {
                Ok(d) => d,
                Err(_) => {
                    return Err(MiningError::Serialization);
                },
            };
            let digest = sha256(&data);
            if check_pow(&digest, self.difficulty) {
                self.nonce = nonce;
                self.hash = hex_encode(&digest);
                return Ok(());
            }
            if nonce == i32::MAX {
                return Err(MiningError::NonceExhausted);
            }
            nonce = nonce + 1;
        }
    }

    /// Mines a new block: captures the current time, then searches from
    /// nonce zero for a digest with `difficulty` leading zero bytes.
    pub fn new(data: String, prev_block_hash: String, height: usize, difficulty: usize) -> (r:
        Result<Block, MiningError>)
        ensures
            r is Ok ==> ({
                let b = r->Ok_0;
                &&& b.transactions@ == data@
                &&& b.prev_block_hash@ == prev_block_hash@
                &&& b.height == height
                &&& b.difficulty == difficulty
                &&& b.nonce >= 0
                &&& block_wf(b)
                &&& forall|n: i32|
                    0 <= n < b.nonce ==> !pow_ok(
                        sha256_of(
                            encoding_of(prev_block_hash@, data@, b.timestamp, difficulty, n),
                        ),
                        difficulty as int,
                    )
            }),
            r is Err ==> (r->Err_0 == MiningError::Clock || r->Err_0
                == MiningError::NonceExhausted),
            difficulty > 32 ==> r is Err,
    {
        let timestamp = match current_millis() {
            Some(t) => t,
            None => {
                return Err(MiningError::Clock);
            },
        };
        let mut block = Block {
            timestamp,
            transactions: data,
            prev_block_hash,
            hash: String::new(),
            height,
            nonce: 0,
            difficulty,
        };
        match block.run_proof_of_work() {
            Ok(()) => Ok(block),
            Err(e) => Err(e),
        }
    }

    /// Mines the fixed genesis block: payload "Genesis Block", empty
    /// predecessor digest, height zero.
    pub fn new_genesis_block(difficulty: usize) -> (r: Result<Block, MiningError>)
        ensures
            r is Ok ==> ({
                let b = r->Ok_0;
                &&& b.transactions@ == "Genesis Block"@
                &&& b.prev_block_hash@ == Seq::<char>::empty()
                &&& b.height == 0
                &&& b.difficulty == difficulty
                &&& block_wf(b)
            }),
            r is Err ==> (r->Err_0 == MiningError::Clock || r->Err_0
                == MiningError::NonceExhausted),
            difficulty > 32 ==> r is Err,
    {
        Block::new(String::from_str("Genesis Block"), String::new(), 0, difficulty)
    }
}

/// The append-only chain of blocks.
#[derive(Debug)]
pub struct Blockchain {
    /// The blocks, oldest first; index 0 is always the genesis block.
    pub chain: Vec<Block>,
    /// The difficulty at which new blocks are mined.
    pub difficulty: usize,
}

impl Blockchain {
    /// The chain's invariant: it starts with the fixed genesis block, every
    /// block is mined (digest reproducible and proof of work met), every
    /// block's height is its position, and every non-genesis block carries
    /// its predecessor's digest.
    pub open spec fn wf(self) -> bool {
        &&& self.chain@.len() >= 1
        &&& self.chain@[0].prev_block_hash@ == Seq::<char>::empty()
        &&& self.chain@[0].transactions@ == "Genesis Block"@
        &&& forall|i: int| 0 <= i < self.chain@.len() ==> block_wf(#[trigger] self.chain@[i])
        &&& forall|i: int|
            0 <= i < self.chain@.len() ==> (#[trigger] self.chain@[i]).height == i
        &&& forall|i: int|
            1 <= i < self.chain@.len() ==> (#[trigger] self.chain@[i]).prev_block_hash@
                == self.chain@[i - 1].hash@
    }

    /// Creates a chain holding exactly the genesis block, mined at
    /// `difficulty` like every later block.
    pub fn new(difficulty: usize) -> (r: Result<Blockchain, MiningError>)
        ensures
            r is Ok ==> ({
                let c = r->Ok_0;
                &&& c.wf()
                &&& c.chain@.len() == 1
                &&& c.difficulty == difficulty
                &&& c.chain@[0].difficulty == difficulty
            }),
            r is Err ==> (r->Err_0 == MiningError::Clock || r->Err_0
                == MiningError::NonceExhausted),
            difficulty > 32 ==> r is Err,
    {
        let genesis = match Block::new_genesis_block(difficulty) {
            Ok(b) => b,
            Err(e) => {
                return Err(e);
            },
        };
        let mut chain: Vec<Block> = Vec::new();
        chain.push(genesis);
        Ok(Blockchain { chain, difficulty })
    }

    /// How many blocks the chain holds.
    pub fn len(&self) -> (r: usize)
        ensures
            r == self.chain@.len(),
    {
        self.chain.len()
    }

    /// The block at position `index`.
    pub fn get(&self, index: usize) -> (r: &Block)
        requires
            index < self.chain@.len(),
        ensures
            *r == self.chain@[index as int],
    {
        &self.chain[index]
    }

    /// Mines a block carrying `data`, linked to the current tip's digest, at
    /// the height one past the tip's, and appends it. On any mining failure
    /// the chain is left unchanged.
    pub fn add_block(&mut self, data: String) -> (r: Result<(), MiningError>)
        requires
            old(self).wf(),
        ensures
            r is Ok ==> ({
                let n = old(self).chain@.len() as int;
                &&& final(self).wf()
                &&& final(self).chain@.len() == n + 1
                &&& final(self).chain@.subrange(0, n) == old(self).chain@
                &&& final(self).chain@[n].transactions@ == data@
                &&& final(self).chain@[n].prev_block_hash@ == old(self).chain@[n - 1].hash@
                &&& final(self).chain@[n].height == n
                &&& final(self).chain@[n].difficulty == old(self).difficulty
                &&& block_wf(final(self).chain@[n])
                &&& final(self).difficulty == old(self).difficulty
            }),
            r is Err ==> *final(self) == *old(self),
            r is Err ==> (r->Err_0 == MiningError::Clock || r->Err_0
                == MiningError::NonceExhausted),
    {
        let height = self.chain.len();
        let prev_hash = self.chain[height - 1].get_hash();
        match Block::new(data, prev_hash, height, self.difficulty) {
            Ok(b) => {
                self.chain.push(b);
                proof {
                    assert(self.chain@.subrange(0, old(self).chain@.len() as int) =~= old(
                        self,
                    ).chain@);
                }
                Ok(())
            },
            Err(e) => Err(e),
        }
    }
}

/// A mined block at any difficulty has a digest whose underlying hash bytes
/// start with `difficulty` zero bytes, and the re-encode-and-hash procedure
/// reproduces that hash.
pub proof fn lemma_proof_of_work_met(b: Block)
    requires
        block_wf(b),
    ensures
        pow_ok(sha256_of(block_encoding(b)), b.difficulty as int),
        forall|i: int| 0 <= i < b.difficulty ==> sha256_of(block_encoding(b))[i] == 0,
{
}

/// Re-encoding a mined block's hashing tuple and hashing it reproduces the
/// block's stored digest exactly: the digest is deterministic in the five
/// tuple fields.
pub proof fn lemma_digest_reproducible(b: Block)
    requires
        block_wf(b),
    ensures
        b.hash@ == hex_of(
            sha256_of(
                encoding_of(b.prev_block_hash@, b.transactions@, b.timestamp, b.difficulty, b.nonce),
            ),
        ),
{
}

/// A mined block's digest string opens with two lowercase zero digits for
/// each required leading zero byte of the underlying hash.
pub proof fn lemma_digest_leading_zero_digits(b: Block)
    requires
        block_wf(b),
    ensures
        forall|i: int| 0 <= i < 2 * b.difficulty ==> b.hash@[i] == '0',
{
    let digest = sha256_of(block_encoding(b));
    assert forall|i: int| 0 <= i < 2 * b.difficulty implies b.hash@[i] == '0' by {
        assert(digest[i / 2] == 0);
        assert((48u8) as char == '0');
    }
}

/// A mined block's digest string has the fixed length matching the hash
/// output size — 64 digits for a 256-bit hash — and every character is a
/// lowercase hexadecimal digit.
pub proof fn lemma_digest_lowercase_hex(b: Block)
    requires
        block_wf(b),
    ensures
        b.hash@.len() == 64,
        forall|i: int|
            0 <= i < b.hash@.len() ==> (('0' <= #[trigger] b.hash@[i] && b.hash@[i] <= '9') || (
            'a' <= b.hash@[i] && b.hash@[i] <= 'f')),
{
    let digest = sha256_of(block_encoding(b));
    assert forall|i: int|
        0 <= i < b.hash@.len() implies (('0' <= #[trigger] b.hash@[i] && b.hash@[i] <= '9') || (
    'a' <= b.hash@[i] && b.hash@[i] <= 'f')) by {
        let n = if i % 2 == 0 {
            digest[i / 2] / 16
        } else {
            digest[i / 2] % 16
        };
        assert(n < 16);
        assert(b.hash@[i] == hex_digit(n));
    }
}

/// In a well-formed chain the genesis block is fixed: empty predecessor
/// digest, height zero, the fixed genesis payload.
pub proof fn lemma_genesis_fixed(c: Blockchain)
    requires
        c.wf(),
    ensures
        c.chain@[0].prev_block_hash@ == Seq::<char>::empty(),
        c.chain@[0].height == 0,
        c.chain@[0].transactions@ == "Genesis Block"@,
{
}

/// In a well-formed chain every non-genesis block carries exactly the digest
/// of the block before it, and sits at the height of its position.
pub proof fn lemma_chain_linked(c: Blockchain, i: int)
    requires
        c.wf(),
        1 <= i < c.chain@.len(),
    ensures
        c.chain@[i].prev_block_hash@ == c.chain@[i - 1].hash@,
        c.chain@[i].height == i,
        block_wf(c.chain@[i]),
{
}

} // verus!
