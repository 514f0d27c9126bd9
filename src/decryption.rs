//! Resolving an encrypted boolean result: through the nodes when the key was
//! split onto them, else by direct decryption with an embedded key.
use vstd::prelude::*;
use crate::hex_text::{bytes_of_hex, decode_hex, is_hex_text};
use crate::mpc::{any_healthy, any_true, first_usable, resolve_decryption, MpcError, NodeReply};
use crate::node_api::fresh_request_id;

verus! {

/// Why a result could not be resolved.
#[derive(Debug, Clone, Copy, PartialEq, Eq, Structural)]
pub enum RouteError {
    /// Neither a key identifier nor a client key came with the request.
    MissingDecryptionMaterial,
    /// The key is split and no node could decrypt.
    ServiceUnavailable,
    /// A key or ciphertext is malformed.
    DecodingError,
}

/// How a result is to be decrypted.
#[derive(Debug, Clone, PartialEq, Eq)]
pub enum DecryptionMode {
    /// Through the nodes, which hold the shares of this key.
    ThresholdMpc(String),
    /// Locally, with this hex-encoded client key.
    DirectLegacy(String),
}

/// Body of `POST /decryptFHE`.
#[derive(Debug, Clone)]
pub struct MPCDecryptRequest {
    pub request_id: String,
    /// Identifier of the split key.
    pub key_id: String,
    /// Hex-encoded encrypted result.
    pub encrypted_result: String,
    pub user_id: String,
}

/// Reply to `POST /decryptFHE`.
#[derive(Debug, Clone)]
pub struct MPCDecryptResponse {
    pub success: bool,
    pub decrypted_value: Option<u64>,
    pub node_id: usize,
    pub message: Option<String>,
}

impl MPCDecryptRequest {
    /// A decryption request, under a fresh request identifier.
    pub fn new(key_id: &str, encrypted_result: &str, user_id: &str) -> (r: Self)
        ensures
            r.key_id@ == key_id@,
            r.encrypted_result@ == encrypted_result@,
            r.user_id@ == user_id@,
            r.request_id@.len() == 36,
    {
        MPCDecryptRequest {
            request_id: fresh_request_id(),
            key_id: key_id.to_string(),
            encrypted_result: encrypted_result.to_string(),
            user_id: user_id.to_string(),
        }
    }
}

impl MPCDecryptResponse {
    /// What this reply contributes to a threshold decryption.
    pub fn to_reply(&self) -> (r: NodeReply)
        ensures
            r == (NodeReply::Answered { success: self.success, decrypted_value: self.decrypted_value }),
    {
        NodeReply::Answered { success: self.success, decrypted_value: self.decrypted_value }
    }
}

/// The mode a request's decryption material selects: a key identifier wins
/// over an embedded key; with neither the request is rejected.
pub fn decryption_mode(fhe_key_id: &Option<String>, encrypted_client_key: &Option<String>) -> (r: Result<DecryptionMode, RouteError>)
    ensures
        fhe_key_id matches Some(id) ==> (r matches Ok(DecryptionMode::ThresholdMpc(k)) && k@ == id@),
        fhe_key_id is None && encrypted_client_key is Some ==> (r matches Ok(
            DecryptionMode::DirectLegacy(k),
        ) && k@ == encrypted_client_key.unwrap()@),
        fhe_key_id is None && encrypted_client_key is None ==> r == Err::<DecryptionMode, RouteError>(
            RouteError::MissingDecryptionMaterial,
        ),
{
    match fhe_key_id {
        Some(id) => Ok(DecryptionMode::ThresholdMpc(id.clone())),
        None => match encrypted_client_key {
            Some(ck) => Ok(DecryptionMode::DirectLegacy(ck.clone())),
            None => Err(RouteError::MissingDecryptionMaterial),
        },
    }
}

/// Threshold decryption needs at least one healthy node; there is no
/// fallback to local decryption.
pub fn threshold_gate(health: &[bool]) -> (r: Result<(), RouteError>)
    ensures
        r is Ok <==> any_true(health@),
        r matches Err(e) ==> e == RouteError::ServiceUnavailable,
{
    if any_healthy(health) {
        Ok(())
    } else {
        Err(RouteError::ServiceUnavailable)
    }
}

/// The boolean a decrypted value stands for; a failed threshold decryption
/// surfaces as unavailability.
pub fn triggered_from_value(decrypted: Result<u64, MpcError>) -> (r: Result<bool, RouteError>)
    ensures
        decrypted matches Ok(v) ==> r == Ok::<bool, RouteError>(v == 1),
        decrypted is Err ==> r == Err::<bool, RouteError>(RouteError::ServiceUnavailable),
{
    match decrypted {
        Ok(v) => Ok(v == 1),
        Err(_) => Err(RouteError::ServiceUnavailable),
    }
}

/// The result of the threshold path, given the health report and each node's
/// reply in order.
pub open spec fn threshold_outcome(health: Seq<bool>, replies: Seq<NodeReply>) -> Result<bool, RouteError> {
    if !any_true(health) {
        Err(RouteError::ServiceUnavailable)
    } else {
        match first_usable(replies) {
            Some(v) => Ok(v == 1),
            None => Err(RouteError::ServiceUnavailable),
        }
    }
}

/// The threshold path as a whole: gate on health, then take the first usable
/// reply in node order.
pub fn resolve_threshold(health: &[bool], replies: &[NodeReply]) -> (r: Result<bool, RouteError>)
    ensures
        r == threshold_outcome(health@, replies@),
{
    threshold_gate(health)?;
    triggered_from_value(resolve_decryption(replies))
}

/// The bytes of a hex-encoded client key for direct decryption; text that is
/// not hex is a decoding error.
pub fn client_key_material(client_key_hex: &str) -> (r: Result<Vec<u8>, RouteError>)
    ensures
        r is Ok <==> is_hex_text(client_key_hex@),
        r matches Ok(b) ==> b@ == bytes_of_hex(client_key_hex@),
        r matches Err(e) ==> e == RouteError::DecodingError,
{
    match decode_hex(client_key_hex) {
        Some(b) => Ok(b),
        None => Err(RouteError::DecodingError),
    }
}

/// The result of a direct decryption: the plaintext, or a decoding failure
/// of the key or the ciphertext.
pub fn triggered_from_direct(decrypted: Option<u64>) -> (r: Result<bool, RouteError>)
    ensures
        decrypted matches Some(v) ==> r == Ok::<bool, RouteError>(v == 1),
        decrypted is None ==> r == Err::<bool, RouteError>(RouteError::DecodingError),
{
    match decrypted {
        Some(v) => Ok(v == 1),
        None => Err(RouteError::DecodingError),
    }
}

} // verus!
