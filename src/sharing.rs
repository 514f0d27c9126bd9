//! Two-of-two XOR sharing of secret key bytes, and key identifiers.
use vstd::prelude::*;
use tfhe::integer::RadixClientKey;
use crate::digest::{sha256, sha256_of};
use crate::fhe_core::{client_key_bytes, client_key_from_bytes, client_key_to_bytes, decoded_client_key};
use crate::hex_text::{bytes_of_hex, decode_hex, encode_hex, hex_of, is_hex_text};

verus! {

/// The only number of shares that splitting supports.
pub const SHARE_COUNT: usize = 2;

/// Bytes of a digest kept in a key identifier.
pub const KEY_ID_BYTES: usize = 16;

/// Why key material could not be split, reconstructed or identified.
#[derive(Debug, Clone, Copy, PartialEq, Eq, Structural)]
pub enum SharingError {
    /// A share count other than two was asked for.
    UnsupportedThreshold,
    /// Reconstruction was handed a number of shares other than two.
    WrongShareCount,
    /// The two shares differ in length.
    LengthMismatch,
    /// A share is not hexadecimal text.
    Decoding,
    /// The reconstructed bytes are not a serialized key.
    Deserialization,
}

/// Bytewise XOR of two sequences, as long as the first.
pub open spec fn xor_seq(a: Seq<u8>, b: Seq<u8>) -> Seq<u8> {
    Seq::new(a.len(), |i: int| a[i] ^ b[i])
}

/// `s0` is a mask as long as `key`, and `s1` is the key under that mask.
pub open spec fn is_split_of(key: Seq<u8>, s0: Seq<u8>, s1: Seq<u8>) -> bool {
    s0.len() == key.len() && s1 == xor_seq(key, s0)
}

/// The identifier of key bytes: the first sixteen digest bytes, in hex.
pub open spec fn key_id_of(key: Seq<u8>) -> Seq<char> {
    hex_of(sha256_of(key).take(KEY_ID_BYTES as int))
}

/// What reconstruction yields from two hex-encoded shares.
pub open spec fn reconstruct_hex_spec(shares: Seq<String>) -> Result<Seq<u8>, SharingError> {
    if shares.len() != SHARE_COUNT {
        Err(SharingError::WrongShareCount)
    } else if !is_hex_text(shares[0]@) || !is_hex_text(shares[1]@) {
        Err(SharingError::Decoding)
    } else if bytes_of_hex(shares[0]@).len() != bytes_of_hex(shares[1]@).len() {
        Err(SharingError::LengthMismatch)
    } else {
        Ok(xor_seq(bytes_of_hex(shares[0]@), bytes_of_hex(shares[1]@)))
    }
}

/// Bytewise XOR of two equally long byte strings.
pub fn xor_bytes(a: &[u8], b: &[u8]) -> (r: Vec<u8>)
    requires
        a@.len() == b@.len(),
    ensures
        r@ == xor_seq(a@, b@),
{
    let mut out: Vec<u8> = Vec::with_capacity(a.len());
    let mut i: usize = 0;
    while i < a.len()
        invariant
            i <= a@.len(),
            a@.len() == b@.len(),
            out@ == xor_seq(a@, b@).take(i as int),
        decreases a@.len() - i,
    {
        out.push(a[i] ^ b[i]);
        i = i + 1;
        assert(out@ =~= xor_seq(a@, b@).take(i as int));
    }
    assert(out@ =~= xor_seq(a@, b@));
    out
}

/// Relies on rand::thread_rng and Rng::gen: one uniformly random byte.
#[verifier::external_body]
fn random_byte() -> u8 {
    rand::Rng::gen::<u8>(&mut rand::thread_rng())
}

/// A fresh random mask of `len` bytes, drawn anew on every call.
pub fn fresh_mask(len: usize) -> (r: Vec<u8>)
    ensures
        r@.len() == len,
{
    let mut mask: Vec<u8> = Vec::with_capacity(len);
    let mut i: usize = 0;
    while i < len
        invariant
            i <= len,
            mask@.len() == i,
        decreases len - i,
    {
        mask.push(random_byte());
        i = i + 1;
    }
    mask
}

/// Splits key bytes into a fresh random mask and the key XOR that mask.
pub fn split_key_bytes(key_bytes: &[u8], num_shares: usize) -> (r: Result<(Vec<u8>, Vec<u8>), SharingError>)
    ensures
        r is Ok <==> num_shares == SHARE_COUNT,
        r matches Ok((s0, s1)) ==> is_split_of(key_bytes@, s0@, s1@),
        r matches Err(e) ==> e == SharingError::UnsupportedThreshold,
{
    if num_shares != SHARE_COUNT {
        return Err(SharingError::UnsupportedThreshold);
    }
    let mask = fresh_mask(key_bytes.len());
    let masked = xor_bytes(key_bytes, mask.as_slice());
    Ok((mask, masked))
}

/// Combines two shares back into the bytes they were split from.
pub fn reconstruct_key_bytes(share0: &[u8], share1: &[u8]) -> (r: Result<Vec<u8>, SharingError>)
    ensures
        r is Ok <==> share0@.len() == share1@.len(),
        r matches Ok(k) ==> k@ == xor_seq(share0@, share1@),
        r matches Err(e) ==> e == SharingError::LengthMismatch,
{
    if share0.len() != share1.len() {
        return Err(SharingError::LengthMismatch);
    }
    Ok(xor_bytes(share0, share1))
}

/// Reconstructing the two shares of a split gives the key back.
pub proof fn lemma_split_reconstruct(key: Seq<u8>, s0: Seq<u8>, s1: Seq<u8>)
    requires
        is_split_of(key, s0, s1),
    ensures
        s0.len() == s1.len(),
        xor_seq(s0, s1) == key,
{
    assert forall|i: int| 0 <= i < key.len() implies #[trigger] xor_seq(s0, s1)[i] == key[i] by {
        let k = key[i];
        let m = s0[i];
        assert(m ^ (k ^ m) == k) by (bit_vector);
    }
    assert(xor_seq(s0, s1) =~= key);
}

/// Reconstructing the hex texts of the two shares of a split gives the key
/// back.
pub proof fn lemma_split_reconstruct_hex(key: Seq<u8>, s0: Seq<u8>, s1: Seq<u8>, shares: Seq<String>)
    requires
        is_split_of(key, s0, s1),
        shares.len() == 2,
        shares[0]@ == hex_of(s0),
        shares[1]@ == hex_of(s1),
    ensures
        reconstruct_hex_spec(shares) == Ok::<Seq<u8>, SharingError>(key),
{
    crate::hex_text::lemma_hex_round_trip(s0);
    crate::hex_text::lemma_hex_round_trip(s1);
    lemma_split_reconstruct(key, s0, s1);
}

/// Splits key bytes into two hex-encoded shares.
pub fn split_key_hex(key_bytes: &[u8], num_shares: usize) -> (r: Result<Vec<String>, SharingError>)
    ensures
        r is Ok <==> num_shares == SHARE_COUNT,
        r matches Ok(v) ==> v@.len() == 2 && exists|s0: Seq<u8>, s1: Seq<u8>|
            is_split_of(key_bytes@, s0, s1) && v@[0]@ == hex_of(s0) && v@[1]@ == hex_of(s1),
        r matches Err(e) ==> e == SharingError::UnsupportedThreshold,
{
    match split_key_bytes(key_bytes, num_shares) {
        Ok((s0, s1)) => {
            let mut v: Vec<String> = Vec::new();
            v.push(encode_hex(s0.as_slice()));
            v.push(encode_hex(s1.as_slice()));
            assert(is_split_of(key_bytes@, s0@, s1@) && v@[0]@ == hex_of(s0@) && v@[1]@ == hex_of(s1@));
            Ok(v)
        },
        Err(e) => Err(e),
    }
}

/// Serializes a client key and splits it into two hex-encoded shares.
pub fn split_fhe_key(key: &RadixClientKey, num_shares: usize) -> (r: Result<Vec<String>, SharingError>)
    ensures
        r is Ok <==> num_shares == SHARE_COUNT,
        r matches Ok(v) ==> v@.len() == 2 && exists|s0: Seq<u8>, s1: Seq<u8>|
            is_split_of(client_key_bytes(*key), s0, s1) && v@[0]@ == hex_of(s0) && v@[1]@ == hex_of(s1),
        r matches Err(e) ==> e == SharingError::UnsupportedThreshold,
{
    if num_shares != SHARE_COUNT {
        return Err(SharingError::UnsupportedThreshold);
    }
    let bytes = client_key_to_bytes(key);
    split_key_hex(bytes.as_slice(), num_shares)
}

/// Decodes two hex-encoded shares and combines them into key bytes.
pub fn reconstruct_key_hex(shares: &[String]) -> (r: Result<Vec<u8>, SharingError>)
    ensures
        match reconstruct_hex_spec(shares@) {
            Ok(k) => r matches Ok(b) && b@ == k,
            Err(e) => r == Err::<Vec<u8>, SharingError>(e),
        },
{
    if shares.len() != SHARE_COUNT {
        return Err(SharingError::WrongShareCount);
    }
    let b0 = match decode_hex(shares[0].as_str()) {
        Some(b) => b,
        None => return Err(SharingError::Decoding),
    };
    let b1 = match decode_hex(shares[1].as_str()) {
        Some(b) => b,
        None => return Err(SharingError::Decoding),
    };
    reconstruct_key_bytes(b0.as_slice(), b1.as_slice())
}

/// Combines two hex-encoded shares and deserializes the client key.
pub fn reconstruct_fhe_key(shares: &[String]) -> (r: Result<RadixClientKey, SharingError>)
    ensures
        reconstruct_hex_spec(shares@) matches Err(e) ==> r == Err::<RadixClientKey, SharingError>(e),
        reconstruct_hex_spec(shares@) matches Ok(k) ==> match decoded_client_key(k) {
            Some(key) => r == Ok::<RadixClientKey, SharingError>(key),
            None => r == Err::<RadixClientKey, SharingError>(SharingError::Deserialization),
        },
{
    let bytes = reconstruct_key_hex(shares)?;
    match client_key_from_bytes(bytes.as_slice()) {
        Some(k) => Ok(k),
        None => Err(SharingError::Deserialization),
    }
}

/// The identifier of key bytes: SHA-256, first sixteen bytes, lower-case hex.
pub fn derive_key_id(key_bytes: &[u8]) -> (r: String)
    ensures
        r@ == key_id_of(key_bytes@),
        r@.len() == 2 * KEY_ID_BYTES,
{
    let digest = sha256(key_bytes);
    let mut prefix: Vec<u8> = Vec::with_capacity(KEY_ID_BYTES);
    let mut i: usize = 0;
    while i < KEY_ID_BYTES
        invariant
            i <= KEY_ID_BYTES,
            digest@.len() == 32,
            prefix@ == digest@.take(i as int),
        decreases KEY_ID_BYTES - i,
    {
        prefix.push(digest[i]);
        i = i + 1;
        assert(prefix@ =~= digest@.take(i as int));
    }
    encode_hex(prefix.as_slice())
}

/// The identifier of a client key, from its serialized bytes.
pub fn generate_key_id(key: &RadixClientKey) -> (r: String)
    ensures
        r@ == key_id_of(client_key_bytes(*key)),
        r@.len() == 2 * KEY_ID_BYTES,
{
    let bytes = client_key_to_bytes(key);
    derive_key_id(bytes.as_slice())
}

/// The same key bytes always give the same identifier.
pub proof fn lemma_key_id_deterministic(k1: Seq<u8>, k2: Seq<u8>)
    requires
        k1 == k2,
    ensures
        key_id_of(k1) == key_id_of(k2),
{
}

/// Two keys share an identifier only where their digests share the first
/// sixteen bytes.
pub proof fn lemma_key_id_distinguishes(k1: Seq<u8>, k2: Seq<u8>)
    requires
        key_id_of(k1) == key_id_of(k2),
    ensures
        sha256_of(k1).take(KEY_ID_BYTES as int) == sha256_of(k2).take(KEY_ID_BYTES as int),
{
    crate::hex_text::lemma_hex_injective(
        sha256_of(k1).take(KEY_ID_BYTES as int),
        sha256_of(k2).take(KEY_ID_BYTES as int),
    );
}

} // verus!
