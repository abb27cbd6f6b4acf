//! The commitment scheme: Base58 text at the boundary, SHA-256 underneath.
//!
//! A commitment identifier is the Base58 text of the SHA-256 digest of a
//! secret. This module decodes the two texts, hashes the secret and compares
//! the digest with the commitment, byte for byte.

use sha2::{Digest, Sha256};
use vstd::prelude::*;

verus! {

/// Whether `c` is one of the 58 symbols of the Bitcoin Base58 alphabet:
/// the digits and letters without `0`, `O`, `I` and `l`.
pub open spec fn is_base58_symbol(c: char) -> bool {
    ||| '1' <= c <= '9'
    ||| 'A' <= c <= 'H'
    ||| 'J' <= c <= 'N'
    ||| 'P' <= c <= 'Z'
    ||| 'a' <= c <= 'k'
    ||| 'm' <= c <= 'z'
}

/// Whether every character of `text` is a Base58 symbol. The empty text is.
pub open spec fn is_base58_text(text: Seq<char>) -> bool {
    forall|i: int| 0 <= i < text.len() ==> is_base58_symbol(#[trigger] text[i])
}

/// The bytes that a Base58 text stands for.
pub uninterp spec fn base58_bytes(text: Seq<char>) -> Seq<u8>;

/// The SHA-256 digest of `data`.
pub uninterp spec fn sha256_digest(data: Seq<u8>) -> Seq<u8>;

/// Whether the secret `key` opens the lock `request_id`: both are Base58
/// text, and the identifier stands for the SHA-256 digest of the bytes that
/// the secret stands for.
pub open spec fn opens_lock(request_id: Seq<char>, key: Seq<char>) -> bool {
    &&& is_base58_text(request_id)
    &&& is_base58_text(key)
    &&& base58_bytes(request_id) == sha256_digest(base58_bytes(key))
}

/// The error of `bs58::decode`, carried through unread.
#[verifier::external_type_specification]
#[verifier::external_body]
pub struct ExBase58DecodeError(bs58::decode::Error);

/// Calls `bs58::decode(text).into_vec()` with the default (Bitcoin) alphabet.
///
/// Trusted: the call succeeds exactly on texts made of Base58 symbols alone
/// (any other character, ASCII or not, is reported as an error, and the buffer
/// it allocates is always large enough), and the bytes it returns depend on
/// the text alone; they are named `base58_bytes(text)`.
#[verifier::external_body]
pub(crate) fn decode_base58(text: &str) -> (decoded: Result<Vec<u8>, bs58::decode::Error>)
    ensures
        decoded is Ok <==> is_base58_text(text@),
        decoded matches Ok(bytes) ==> bytes@ == base58_bytes(text@),
{
    bs58::decode(text).into_vec()
}

/// Calls `sha2::Sha256::digest`.
///
/// Trusted: the bytes returned are the SHA-256 digest of `data`, a function of
/// `data` alone, named `sha256_digest(data)`. The digest is computed here and
/// not asked of the host that runs the store, so a claim is decided in the
/// same way wherever the store runs, and for every secret.
#[verifier::external_body]
pub(crate) fn sha256(data: &Vec<u8>) -> (digest: Vec<u8>)
    ensures
        digest@ == sha256_digest(data@),
{
    Sha256::digest(data.as_slice()).to_vec()
}

/// Compares two byte strings, byte for byte.
pub fn bytes_equal(a: &Vec<u8>, b: &Vec<u8>) -> (same: bool)
    ensures
        same <==> a@ == b@,
{
    if a.len() != b.len() {
        return false;
    }
    let mut i: usize = 0;
    while i < a.len()
        invariant
            a.len() == b.len(),
            0 <= i <= a.len(),
            forall|j: int| 0 <= j < i ==> a@[j] == b@[j],
        decreases a.len() - i,
    {
        if a[i] != b[i] {
            return false;
        }
        i += 1;
    }
    assert(a@ =~= b@);
    true
}

} // verus!
