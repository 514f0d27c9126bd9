//! The key lifecycle: health check, distributed key generation, splitting,
//! share storage, and the operating mode that results. Network calls are made
//! by the caller, which reports each outcome as an event.
use vstd::prelude::*;
use tfhe::integer::{RadixClientKey, ServerKey};
use crate::fhe_core::{
    client_key_bytes, client_key_to_bytes, derive_seed_from_mpc_pubkey, generate_fhe_keys,
    generate_fhe_keys_from_seed,
};
use crate::hex_text::{encode_hex, hex_of, is_hex_text};
use crate::mpc::{all_healthy, all_true};
use crate::sharing::{derive_key_id, key_id_of, is_split_of, split_key_hex, SHARE_COUNT};

verus! {

/// Where a key-generation run stands.
#[derive(Debug, Clone, Copy, PartialEq, Eq, Structural)]
pub enum Phase {
    CheckHealth,
    RequestKeygen,
    GenerateAndSplit,
    /// Share `next` is being stored; `all_stored` tells whether every earlier
    /// share was confirmed.
    StoreShares { next: usize, all_stored: bool },
    /// Every share is stored on its node: the key is referenced by its id.
    MpcMode,
    /// The key is embedded in the payload.
    LegacyMode,
    /// The request is rejected.
    SecureFail,
}

/// What the caller observed.
#[derive(Debug, Clone, PartialEq, Eq)]
pub enum Event {
    /// Health of each node, in node order.
    Health(Vec<bool>),
    /// The key-generation call failed.
    KeygenFailed,
    /// The key-generation call answered, with or without a public key set.
    KeygenReplied { has_public_key: bool },
    /// Keys were generated and split.
    SharesPrepared,
    /// Deriving or splitting failed.
    PreparationFailed,
    /// The pending share was confirmed stored.
    ShareStored,
    /// Storing the pending share failed.
    ShareFailed,
}

/// What the caller is to do next.
#[derive(Debug, Clone, Copy, PartialEq, Eq, Structural)]
pub enum Action {
    ProbeHealth,
    RequestKeygen,
    GenerateAndSplit,
    /// Store share `share_index` on the node of the same index.
    StoreShare { share_index: usize },
    Finish,
}

pub open spec fn wf_phase(p: Phase) -> bool {
    p matches Phase::StoreShares { next, .. } ==> next < SHARE_COUNT
}

pub open spec fn is_terminal(p: Phase) -> bool {
    p == Phase::MpcMode || p == Phase::LegacyMode || p == Phase::SecureFail
}

/// The action a phase waits on.
pub open spec fn pending_action(p: Phase) -> Action {
    match p {
        Phase::CheckHealth => Action::ProbeHealth,
        Phase::RequestKeygen => Action::RequestKeygen,
        Phase::GenerateAndSplit => Action::GenerateAndSplit,
        Phase::StoreShares { next, .. } => Action::StoreShare { share_index: next },
        _ => Action::Finish,
    }
}

/// The phase after an event. An event that does not belong to the phase
/// leaves it unchanged.
pub open spec fn next_phase(p: Phase, e: Event) -> Phase {
    match (p, e) {
        (Phase::CheckHealth, Event::Health(h)) => if all_true(h@) {
            Phase::RequestKeygen
        } else {
            Phase::LegacyMode
        },
        (Phase::RequestKeygen, Event::KeygenFailed) => Phase::LegacyMode,
        (Phase::RequestKeygen, Event::KeygenReplied { has_public_key }) => if has_public_key {
            Phase::GenerateAndSplit
        } else {
            Phase::LegacyMode
        },
        (Phase::GenerateAndSplit, Event::SharesPrepared) => Phase::StoreShares { next: 0, all_stored: true },
        (Phase::GenerateAndSplit, Event::PreparationFailed) => Phase::SecureFail,
        (Phase::StoreShares { next, all_stored }, Event::ShareStored) => if next + 1 < SHARE_COUNT {
            Phase::StoreShares { next: (next + 1) as usize, all_stored }
        } else if all_stored {
            Phase::MpcMode
        } else {
            Phase::SecureFail
        },
        (Phase::StoreShares { next, all_stored }, Event::ShareFailed) => if next + 1 < SHARE_COUNT {
            Phase::StoreShares { next: (next + 1) as usize, all_stored: false }
        } else {
            Phase::SecureFail
        },
        _ => p,
    }
}

/// One transition of the lifecycle, and what the caller does next.
pub fn step(p: Phase, e: &Event) -> (r: (Phase, Action))
    requires
        wf_phase(p),
    ensures
        r.0 == next_phase(p, *e),
        r.1 == pending_action(r.0),
        wf_phase(r.0),
{
    let next = match (p, e) {
        (Phase::CheckHealth, Event::Health(h)) => if all_healthy(h.as_slice()) {
            Phase::RequestKeygen
        } else {
            Phase::LegacyMode
        },
        (Phase::RequestKeygen, Event::KeygenFailed) => Phase::LegacyMode,
        (Phase::RequestKeygen, Event::KeygenReplied { has_public_key }) => if *has_public_key {
            Phase::GenerateAndSplit
        } else {
            Phase::LegacyMode
        },
        (Phase::GenerateAndSplit, Event::SharesPrepared) => Phase::StoreShares { next: 0, all_stored: true },
        (Phase::GenerateAndSplit, Event::PreparationFailed) => Phase::SecureFail,
        (Phase::StoreShares { next, all_stored }, Event::ShareStored) => if next + 1 < SHARE_COUNT {
            Phase::StoreShares { next: next + 1, all_stored }
        } else if all_stored {
            Phase::MpcMode
        } else {
            Phase::SecureFail
        },
        (Phase::StoreShares { next, all_stored: _ }, Event::ShareFailed) => if next + 1 < SHARE_COUNT {
            Phase::StoreShares { next: next + 1, all_stored: false }
        } else {
            Phase::SecureFail
        },
        _ => p,
    };
    let action = match next {
        Phase::CheckHealth => Action::ProbeHealth,
        Phase::RequestKeygen => Action::RequestKeygen,
        Phase::GenerateAndSplit => Action::GenerateAndSplit,
        Phase::StoreShares { next, .. } => Action::StoreShare { share_index: next },
        _ => Action::Finish,
    };
    (next, action)
}

/// The phase reached from the start through a sequence of events.
pub open spec fn run(events: Seq<Event>) -> Phase
    decreases events.len(),
{
    if events.len() == 0 {
        Phase::CheckHealth
    } else {
        next_phase(run(events.drop_last()), events.last())
    }
}

/// How many shares a sequence of events confirmed: share confirmations that
/// arrive while a share is being stored.
pub open spec fn stored_count(events: Seq<Event>) -> nat
    decreases events.len(),
{
    if events.len() == 0 {
        0
    } else {
        stored_count(events.drop_last()) + if run(events.drop_last()) is StoreShares && events.last()
            == Event::ShareStored {
            1nat
        } else {
            0nat
        }
    }
}

/// Every run stays well formed, and terminal phases are never left.
pub proof fn lemma_run_wf(events: Seq<Event>)
    ensures
        wf_phase(run(events)),
        events.len() > 0 && is_terminal(run(events.drop_last())) ==> run(events) == run(
            events.drop_last(),
        ),
    decreases events.len(),
{
    if events.len() > 0 {
        lemma_run_wf(events.drop_last());
    }
}

/// Mode `MpcMode` is reached only after every share was confirmed stored.
pub proof fn lemma_mpc_mode_needs_every_share(events: Seq<Event>)
    ensures
        run(events) == Phase::MpcMode ==> stored_count(events) >= SHARE_COUNT,
        run(events) matches Phase::StoreShares { next, all_stored } ==> (all_stored ==> stored_count(
            events,
        ) >= next),
    decreases events.len(),
{
    if events.len() > 0 {
        lemma_mpc_mode_needs_every_share(events.drop_last());
    }
}

/// Why no payload key material can be produced.
#[derive(Debug, Clone, Copy, PartialEq, Eq, Structural)]
pub enum LifecycleError {
    /// Shares were only partly stored, or deriving or splitting failed.
    SecurityInvariantViolation,
    /// The run has not finished, or the material does not fit its mode.
    Incomplete,
}

/// Key material at the end of a run.
#[derive(Debug, Clone)]
pub enum KeyMaterial {
    /// The key was split; the nodes hold its shares.
    Split { key_id: String, public_key_set: Option<String>, share_indices: Option<Vec<usize>> },
    /// The hex-encoded serialized client key.
    Embedded { client_key_hex: String },
}

/// How an outgoing payload refers to its secret key.
#[derive(Debug, Clone)]
pub struct KeyReference {
    pub fhe_key_id: Option<String>,
    pub encrypted_client_key: Option<String>,
    pub mpc_public_key_set: Option<String>,
    pub mpc_share_indices: Option<Vec<usize>>,
}

/// The key reference of a finished run: the key id in `MpcMode`, the embedded
/// key in `LegacyMode`, never both; `SecureFail` rejects the request.
pub fn key_reference(p: Phase, material: KeyMaterial) -> (r: Result<KeyReference, LifecycleError>)
    ensures
        p == Phase::SecureFail ==> r == Err::<KeyReference, LifecycleError>(
            LifecycleError::SecurityInvariantViolation,
        ),
        p == Phase::MpcMode && material is Split ==> (r matches Ok(kr) && kr.fhe_key_id == Some(
            material->key_id,
        ) && kr.encrypted_client_key is None && kr.mpc_public_key_set == material->public_key_set
            && kr.mpc_share_indices == material->share_indices),
        p == Phase::LegacyMode && material is Embedded ==> (r matches Ok(kr) && kr.fhe_key_id is None
            && kr.encrypted_client_key == Some(material->client_key_hex) && kr.mpc_public_key_set is None
            && kr.mpc_share_indices is None),
        !is_terminal(p) ==> r == Err::<KeyReference, LifecycleError>(LifecycleError::Incomplete),
        r matches Ok(kr) ==> (kr.fhe_key_id is Some <==> kr.encrypted_client_key is None),
        r matches Ok(kr) ==> (kr.fhe_key_id is Some ==> p == Phase::MpcMode),
        r matches Ok(kr) ==> (kr.encrypted_client_key is Some ==> p == Phase::LegacyMode),
{
    match (p, material) {
        (Phase::SecureFail, _) => Err(LifecycleError::SecurityInvariantViolation),
        (Phase::MpcMode, KeyMaterial::Split { key_id, public_key_set, share_indices }) => Ok(KeyReference {
            fhe_key_id: Some(key_id),
            encrypted_client_key: None,
            mpc_public_key_set: public_key_set,
            mpc_share_indices: share_indices,
        }),
        (Phase::LegacyMode, KeyMaterial::Embedded { client_key_hex }) => Ok(KeyReference {
            fhe_key_id: None,
            encrypted_client_key: Some(client_key_hex),
            mpc_public_key_set: None,
            mpc_share_indices: None,
        }),
        _ => Err(LifecycleError::Incomplete),
    }
}

/// Keys generated for MPC mode: the secret half split into two hex shares.
pub struct PreparedKeys {
    pub client_key: RadixClientKey,
    pub server_key: ServerKey,
    pub shares: Vec<String>,
    pub key_id: String,
}

/// Derives the seed from the nodes' public key set, generates a key pair,
/// serializes the secret half once, and splits and identifies those bytes.
/// Hex that does not decode rejects the request.
pub fn prepare_mpc_keys(pubkey_hex: &str) -> (r: Result<PreparedKeys, LifecycleError>)
    ensures
        r is Ok <==> is_hex_text(pubkey_hex@),
        r matches Err(e) ==> e == LifecycleError::SecurityInvariantViolation,
        r matches Ok(pk) ==> {
            let k = client_key_bytes(pk.client_key);
            &&& pk.shares@.len() == 2
            &&& exists|s0: Seq<u8>, s1: Seq<u8>|
                is_split_of(k, s0, s1) && pk.shares@[0]@ == hex_of(s0) && pk.shares@[1]@ == hex_of(s1)
            &&& pk.key_id@ == key_id_of(k)
        },
{
    let seed = match derive_seed_from_mpc_pubkey(pubkey_hex) {
        Ok(s) => s,
        Err(_) => return Err(LifecycleError::SecurityInvariantViolation),
    };
    let (client_key, server_key) = generate_fhe_keys_from_seed(&seed);
    let bytes = client_key_to_bytes(&client_key);
    let shares = match split_key_hex(bytes.as_slice(), SHARE_COUNT) {
        Ok(s) => s,
        Err(_) => return Err(LifecycleError::SecurityInvariantViolation),
    };
    let key_id = derive_key_id(bytes.as_slice());
    Ok(PreparedKeys { client_key, server_key, shares, key_id })
}

/// Generates a key pair for legacy mode, with the client key's hex encoding
/// to embed in the payload.
pub fn prepare_legacy_keys() -> (r: (RadixClientKey, ServerKey, String))
    ensures
        r.2@ == hex_of(client_key_bytes(r.0)),
{
    let (client_key, server_key) = generate_fhe_keys();
    let hex = encode_hex(client_key_to_bytes(&client_key).as_slice());
    (client_key, server_key, hex)
}

} // verus!
