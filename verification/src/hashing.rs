//! The canonical encoding, the 256-bit digest, its hexadecimal rendering,
//! and the proof-of-work condition on a digest.

use sha2::Digest;
use vstd::prelude::*;

verus! {

/// The canonical byte encoding of a block's hashing tuple
/// (predecessor digest, payload, timestamp, difficulty, nonce),
/// as `bincode::serialize` produces it.
pub uninterp spec fn encoding_of(
    prev: Seq<char>,
    payload: Seq<char>,
    timestamp: u128,
    difficulty: usize,
    nonce: i32,
) -> Seq<u8>;

/// The 256-bit digest of a byte sequence, as `sha2::Sha256` computes it.
pub uninterp spec fn sha256_of(data: Seq<u8>) -> Seq<u8>;

/// The lowercase hexadecimal digit for a nibble.
pub open spec fn hex_digit(n: u8) -> char
    recommends
        n < 16,
{
    if n < 10 {
        ((n + 48) as u8) as char
    } else {
        ((n + 87) as u8) as char
    }
}

/// The lowercase hexadecimal rendering of a byte sequence:
/// two digits per byte, high nibble first.
pub open spec fn hex_of(bytes: Seq<u8>) -> Seq<char> {
    Seq::new(
        bytes.len() * 2,
        |i: int|
            if i % 2 == 0 {
                hex_digit(bytes[i / 2] / 16)
            } else {
                hex_digit(bytes[i / 2] % 16)
            },
    )
}

/// The proof-of-work condition: the digest's first `difficulty` bytes are zero.
/// A digest shorter than `difficulty` bytes can never satisfy it.
pub open spec fn pow_ok(digest: Seq<u8>, difficulty: int) -> bool {
    &&& difficulty <= digest.len()
    &&& forall|i: int| 0 <= i < difficulty ==> digest[i] == 0
}

#[verifier::external_type_specification]
#[verifier::external_body]
pub struct ExBincodeErrorKind(bincode::ErrorKind);

/// Relies on `bincode::serialize`: the encoding of the hashing tuple is a
/// function of the tuple's values alone. On this tuple of strings and
/// integers the call cannot fail: the default configuration has no byte
/// limit, every field has a fixed-width or length-prefixed encoding, and the
/// `Vec` writer never errors.
#[verifier::external_body]
pub(crate) fn serialize_tuple(
    prev: &String,
    payload: &String,
    timestamp: u128,
    difficulty: usize,
    nonce: i32,
) -> (r: Result<Vec<u8>, Box<bincode::ErrorKind>>)
    ensures
        r is Ok,
        r->Ok_0@ == encoding_of(prev@, payload@, timestamp, difficulty, nonce),
{
    bincode::serialize(&(prev, payload, timestamp, difficulty, nonce))
}

/// Relies on `sha2::Sha256::digest`: a 32-byte digest that is a function of
/// the input bytes alone.
#[verifier::external_body]
pub(crate) fn sha256(data: &Vec<u8>) -> (r: Vec<u8>)
    ensures
        r@ == sha256_of(data@),
        r@.len() == 32,
{
    sha2::Sha256::digest(data).to_vec()
}

/// Relies on `hex::encode`: two lowercase digits per byte, high nibble first.
#[verifier::external_body]
pub(crate) fn hex_encode(data: &Vec<u8>) -> (r: String)
    ensures
        r@ == hex_of(data@),
{
    hex::encode(data)
}

/// Relies on `std::time::SystemTime::now` and `duration_since(UNIX_EPOCH)`:
/// the wall-clock time in milliseconds since the epoch, or `None` when the
/// clock reads earlier than the epoch. Nothing is promised of the value.
#[verifier::external_body]
pub(crate) fn current_millis() -> (r: Option<u128>) {
    match std::time::SystemTime::now().duration_since(std::time::UNIX_EPOCH) {
        Ok(d) => Some(d.as_millis()),
        Err(_) => None,
    }
}

/// Whether a digest satisfies the proof-of-work condition at `difficulty`
/// leading zero bytes.
pub fn check_pow(digest: &Vec<u8>, difficulty: usize) -> (r: bool)
    ensures
        r == pow_ok(digest@, difficulty as int),
{
    if difficulty > digest.len() {
        return false;
    }
    let mut i: usize = 0;
    while i < difficulty
        invariant
            i <= difficulty,
            difficulty <= digest@.len(),
            forall|j: int| 0 <= j < i ==> digest@[j] == 0,
        decreases difficulty - i,
    {
        if digest[i] != 0 {
            return false;
        }
        i += 1;
    }
    true
}

} // verus!

