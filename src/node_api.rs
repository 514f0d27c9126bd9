//! Request and response bodies exchanged with the key-share-holding nodes on
//! the key-generation side.
use vstd::prelude::*;
use crate::mpc::MpcError;

verus! {

/// Relies on uuid::Uuid::new_v4 and its hyphenated text form: a fresh random
/// request identifier of 36 characters.
#[verifier::external_body]
pub(crate) fn fresh_request_id() -> (r: String)
    ensures
        r@.len() == 36,
{
    uuid::Uuid::new_v4().to_string()
}

/// Body of `POST /generateFHEKey`.
#[derive(Debug, Clone)]
pub struct MPCKeyGenRequest {
    pub request_id: String,
    pub user_id: String,
}

/// Reply to `POST /generateFHEKey`.
#[derive(Debug, Clone)]
pub struct MPCKeyGenResponse {
    pub success: bool,
    pub message: String,
    /// Hex-encoded public key set.
    pub public_key_set: Option<String>,
    /// Which nodes hold shares.
    pub mpc_share_indices: Option<Vec<usize>>,
}

/// Body of `POST /storeFHEKeyShare`.
#[derive(Debug, Clone)]
pub struct StoreKeyShareRequest {
    pub request_id: String,
    /// Identifier of the split key.
    pub key_id: String,
    /// Hex-encoded share.
    pub key_share: String,
    /// Which share this is, 0 or 1.
    pub share_index: usize,
    pub user_id: String,
}

/// Body of a request for a partial decryption.
#[derive(Debug, Clone)]
pub struct MPCDecryptRequest {
    pub request_id: String,
    /// Hex-encoded encrypted result.
    pub encrypted_data: String,
    pub user_id: String,
}

/// Combined reply of a partial-decryption round.
#[derive(Debug, Clone)]
pub struct MPCDecryptResponse {
    pub success: bool,
    pub decrypted_value: Option<u64>,
    pub partial_decryptions: Option<Vec<PartialDecryption>>,
}

/// One node's partial decryption.
#[derive(Debug, Clone)]
pub struct PartialDecryption {
    pub node_id: usize,
    /// Hex-encoded partial result.
    pub partial_result: String,
}

impl MPCKeyGenRequest {
    /// A key-generation request for a user, under a fresh request identifier.
    pub fn new(user_id: &str) -> (r: Self)
        ensures
            r.user_id@ == user_id@,
            r.request_id@.len() == 36,
    {
        MPCKeyGenRequest { request_id: fresh_request_id(), user_id: user_id.to_string() }
    }
}

impl StoreKeyShareRequest {
    /// A request to store one share, under a fresh request identifier.
    pub fn new(key_id: &str, key_share: &str, share_index: usize, user_id: &str) -> (r: Self)
        ensures
            r.key_id@ == key_id@,
            r.key_share@ == key_share@,
            r.share_index == share_index,
            r.user_id@ == user_id@,
            r.request_id@.len() == 36,
    {
        StoreKeyShareRequest {
            request_id: fresh_request_id(),
            key_id: key_id.to_string(),
            key_share: key_share.to_string(),
            share_index,
            user_id: user_id.to_string(),
        }
    }
}

impl MPCDecryptRequest {
    /// A partial-decryption request, under a fresh request identifier.
    pub fn new(encrypted_data: &str, user_id: &str) -> (r: Self)
        ensures
            r.encrypted_data@ == encrypted_data@,
            r.user_id@ == user_id@,
            r.request_id@.len() == 36,
    {
        MPCDecryptRequest {
            request_id: fresh_request_id(),
            encrypted_data: encrypted_data.to_string(),
            user_id: user_id.to_string(),
        }
    }
}

/// The result of a key-generation call: a non-success status or an unreadable
/// body is a protocol error carrying the node's text, else the body is handed
/// on.
pub fn keygen_outcome(status_success: bool, body: Option<MPCKeyGenResponse>, text: String) -> (r: Result<MPCKeyGenResponse, MpcError>)
    ensures
        !status_success || body is None ==> r == Err::<MPCKeyGenResponse, MpcError>(MpcError::ProtocolError(text)),
        status_success && body is Some ==> r == Ok::<MPCKeyGenResponse, MpcError>(body.unwrap()),
{
    if !status_success {
        return Err(MpcError::ProtocolError(text));
    }
    match body {
        Some(b) => Ok(b),
        None => Err(MpcError::ProtocolError(text)),
    }
}

/// The error of a share store that a node refused, with the node's message.
pub fn store_refused(message: String) -> (e: MpcError)
    ensures
        e == MpcError::ProtocolError(message),
{
    MpcError::ProtocolError(message)
}

/// The outcome of a partial-decryption round: both nodes must have answered.
pub fn combine_partials(partials: Vec<PartialDecryption>) -> (r: Result<MPCDecryptResponse, MpcError>)
    ensures
        partials@.len() < 2 ==> r == Err::<MPCDecryptResponse, MpcError>(MpcError::AllNodesExhausted),
        partials@.len() >= 2 ==> (r matches Ok(resp) && resp.success && resp.decrypted_value is None
            && resp.partial_decryptions == Some(partials)),
{
    if partials.len() < 2 {
        return Err(MpcError::AllNodesExhausted);
    }
    Ok(MPCDecryptResponse { success: true, decrypted_value: None, partial_decryptions: Some(partials) })
}

} // verus!
