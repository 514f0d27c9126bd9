//! Key generation and encryption through `tfhe`, and the byte encodings of
//! keys and ciphertexts.
use vstd::prelude::*;
use tfhe::integer::{RadixCiphertext, RadixClientKey, ServerKey};
use crate::digest::{sha256, sha256_of};
use crate::hex_text::{bytes_of_hex, decode_hex, encode_hex, hex_of, is_hex_text};

verus! {

#[verifier::external_type_specification]
#[verifier::external_body]
pub struct ExRadixClientKey(tfhe::integer::RadixClientKey);

#[verifier::external_type_specification]
#[verifier::external_body]
pub struct ExServerKey(tfhe::integer::ServerKey);

#[verifier::external_type_specification]
#[verifier::external_body]
#[verifier::reject_recursive_types(Block)]
pub struct ExBaseRadixCiphertext<Block>(tfhe::integer::ciphertext::BaseRadixCiphertext<Block>);

#[verifier::external_type_specification]
#[verifier::external_body]
pub struct ExShortintCiphertext(tfhe::shortint::Ciphertext);

/// Radix blocks per encrypted integer.
pub const NUM_BLOCKS: usize = 16;

/// Why a key seed could not be derived.
#[derive(Debug, Clone, Copy, PartialEq, Eq, Structural)]
pub enum SeedError {
    InvalidPublicKeyHex,
}

/// The bincode encoding of a client key.
pub uninterp spec fn client_key_bytes(k: RadixClientKey) -> Seq<u8>;

/// The bincode encoding of a server key.
pub uninterp spec fn server_key_bytes(k: ServerKey) -> Seq<u8>;

/// The bincode encoding of a ciphertext.
pub uninterp spec fn ciphertext_bytes(c: RadixCiphertext) -> Seq<u8>;

/// The client key that bytes decode to, if they are one.
pub uninterp spec fn decoded_client_key(b: Seq<u8>) -> Option<RadixClientKey>;

/// Relies on tfhe::integer::gen_keys_radix with the parameter set
/// PARAM_MESSAGE_2_CARRY_2_KS_PBS: a fresh key pair of `num_blocks` blocks.
#[verifier::external_body]
fn gen_keys_radix_message_2_carry_2(num_blocks: usize) -> (RadixClientKey, ServerKey) {
    tfhe::integer::gen_keys_radix(tfhe::shortint::parameters::PARAM_MESSAGE_2_CARRY_2_KS_PBS, num_blocks)
}

/// A fresh key pair of `NUM_BLOCKS` blocks, two message bits and two carry
/// bits per block.
pub fn generate_fhe_keys() -> (RadixClientKey, ServerKey) {
    gen_keys_radix_message_2_carry_2(NUM_BLOCKS)
}

/// Key generation for a seed taken from the nodes' shared secret. The key
/// generator offers no seeded mode, so the seed does not enter the keys.
pub fn generate_fhe_keys_from_seed(_seed: &[u8; 32]) -> (RadixClientKey, ServerKey) {
    generate_fhe_keys()
}

/// Hashes the nodes' hex-encoded public key set into a 32-byte seed.
pub fn derive_seed_from_mpc_pubkey(pubkey_hex: &str) -> (r: Result<[u8; 32], SeedError>)
    ensures
        r is Ok <==> is_hex_text(pubkey_hex@),
        r matches Ok(seed) ==> seed@ == sha256_of(bytes_of_hex(pubkey_hex@)),
        r matches Err(e) ==> e == SeedError::InvalidPublicKeyHex,
{
    let bytes = match decode_hex(pubkey_hex) {
        Some(b) => b,
        None => return Err(SeedError::InvalidPublicKeyHex),
    };
    let hash = sha256(bytes.as_slice());
    let mut seed = [0u8; 32];
    let mut i: usize = 0;
    while i < 32
        invariant
            i <= 32,
            hash@.len() == 32,
            hash@ == sha256_of(bytes@),
            forall|j: int| 0 <= j < i ==> seed@[j] == hash@[j],
        decreases 32 - i,
    {
        seed[i] = hash[i];
        i = i + 1;
    }
    assert(seed@ =~= hash@);
    Ok(seed)
}

/// Relies on tfhe's RadixClientKey::encrypt: encrypts a price in cents.
#[verifier::external_body]
pub fn encrypt_price(price_u32: u32, cks: &RadixClientKey) -> RadixCiphertext {
    cks.encrypt(price_u32 as u64)
}

/// Relies on bincode::serialize of a client key, which cannot fail: every
/// sequence in the key has a known length and no size limit is set.
#[verifier::external_body]
pub(crate) fn client_key_to_bytes(k: &RadixClientKey) -> (r: Vec<u8>)
    ensures
        r@ == client_key_bytes(*k),
{
    bincode::serialize(k).expect("sequences of a client key have known lengths")
}

/// Relies on bincode::deserialize of a client key: the result depends on the
/// bytes alone.
#[verifier::external_body]
pub(crate) fn client_key_from_bytes(b: &[u8]) -> (r: Option<RadixClientKey>)
    ensures
        r == decoded_client_key(b@),
{
    bincode::deserialize(b).ok()
}

/// Relies on bincode::serialize of a server key, which cannot fail: every
/// sequence in the key has a known length and no size limit is set.
#[verifier::external_body]
pub(crate) fn server_key_to_bytes(k: &ServerKey) -> (r: Vec<u8>)
    ensures
        r@ == server_key_bytes(*k),
{
    bincode::serialize(k).expect("sequences of a server key have known lengths")
}

/// Relies on bincode::serialize of a ciphertext, which cannot fail: every
/// sequence in it has a known length and no size limit is set.
#[verifier::external_body]
pub(crate) fn ciphertext_to_bytes(c: &RadixCiphertext) -> (r: Vec<u8>)
    ensures
        r@ == ciphertext_bytes(*c),
{
    bincode::serialize(c).expect("sequences of a ciphertext have known lengths")
}

/// The hex text of a server key's encoding.
pub fn encode_server_key(k: &ServerKey) -> (r: String)
    ensures
        r@ == hex_of(server_key_bytes(*k)),
{
    encode_hex(server_key_to_bytes(k).as_slice())
}

/// The hex text of a ciphertext's encoding.
pub fn encode_ciphertext(c: &RadixCiphertext) -> (r: String)
    ensures
        r@ == hex_of(ciphertext_bytes(*c)),
{
    encode_hex(ciphertext_to_bytes(c).as_slice())
}

/// The hex text of a client key's encoding.
pub fn encode_client_key(k: &RadixClientKey) -> (r: String)
    ensures
        r@ == hex_of(client_key_bytes(*k)),
{
    encode_hex(client_key_to_bytes(k).as_slice())
}

} // verus!
