//! Decisions of the coordinator that talks to the key-share-holding nodes:
//! which node to address, how health gates each operation, and how replies to
//! a threshold decryption are resolved. The network calls are made by the
//! caller, which reports what each node answered.
use vstd::prelude::*;

verus! {

/// Why a node operation failed.
#[derive(Debug, Clone, PartialEq, Eq)]
pub enum MpcError {
    NoNodesConfigured,
    NetworkError,
    /// A node answered with a failure; its message is kept.
    ProtocolError(String),
    InvalidNodeIndex,
    Timeout,
    ConnectionRefused,
    AllNodesExhausted,
}

/// How a transport-level call to a node failed.
#[derive(Debug, Clone, Copy, PartialEq, Eq, Structural)]
pub enum TransportFault {
    Timeout,
    ConnectionRefused,
    Other,
}

/// What one node answered to a decryption request.
#[derive(Debug, Clone, Copy, PartialEq, Eq, Structural)]
pub enum NodeReply {
    /// The node could not be reached or its answer could not be read.
    Unreachable,
    /// The node answered with a non-success status.
    Rejected,
    /// The node answered with a body.
    Answered { success: bool, decrypted_value: Option<u64> },
}

/// What the coordinator does next during a threshold decryption.
#[derive(Debug, Clone, Copy, PartialEq, Eq, Structural)]
pub enum DecryptStep {
    /// Send the request to the node at this index.
    Contact(usize),
    /// A node produced this value; no further node is contacted.
    Decrypted(u64),
    /// Every node was tried and none produced a value.
    Exhausted,
}

/// The value a reply contributes, if it is usable.
pub open spec fn usable_value(r: NodeReply) -> Option<u64> {
    match r {
        NodeReply::Answered { success: true, decrypted_value: Some(v) } => Some(v),
        _ => None,
    }
}

/// The value of the first usable reply, in node order.
pub open spec fn first_usable(replies: Seq<NodeReply>) -> Option<u64>
    decreases replies.len(),
{
    if replies.len() == 0 {
        None
    } else if usable_value(replies[0]) is Some {
        usable_value(replies[0])
    } else {
        first_usable(replies.drop_first())
    }
}

pub open spec fn all_true(h: Seq<bool>) -> bool {
    forall|i: int| 0 <= i < h.len() ==> #[trigger] h[i]
}

pub open spec fn any_true(h: Seq<bool>) -> bool {
    exists|i: int| 0 <= i < h.len() && #[trigger] h[i]
}

/// Key distribution is attempted only when every node is healthy.
pub fn all_healthy(health: &[bool]) -> (r: bool)
    ensures
        r == all_true(health@),
{
    let mut i: usize = 0;
    while i < health.len()
        invariant
            i <= health@.len(),
            forall|j: int| 0 <= j < i ==> health@[j],
        decreases health@.len() - i,
    {
        if !health[i] {
            return false;
        }
        i = i + 1;
    }
    true
}

/// Decryption is attempted when at least one node is healthy.
pub fn any_healthy(health: &[bool]) -> (r: bool)
    ensures
        r == any_true(health@),
{
    let mut i: usize = 0;
    while i < health.len()
        invariant
            i <= health@.len(),
            forall|j: int| 0 <= j < i ==> !health@[j],
        decreases health@.len() - i,
    {
        if health[i] {
            return true;
        }
        i = i + 1;
    }
    false
}

/// The value a reply contributes, if it is usable.
pub fn reply_value(r: &NodeReply) -> (v: Option<u64>)
    ensures
        v == usable_value(*r),
{
    match r {
        NodeReply::Answered { success: true, decrypted_value: Some(v) } => Some(*v),
        _ => None,
    }
}

/// The error a failed share-storage call is reported as.
pub fn store_fault_error(fault: TransportFault) -> (e: MpcError)
    ensures
        fault == TransportFault::Timeout ==> e == MpcError::Timeout,
        fault == TransportFault::ConnectionRefused ==> e == MpcError::ConnectionRefused,
        fault == TransportFault::Other ==> e == MpcError::NetworkError,
{
    match fault {
        TransportFault::Timeout => MpcError::Timeout,
        TransportFault::ConnectionRefused => MpcError::ConnectionRefused,
        TransportFault::Other => MpcError::NetworkError,
    }
}

/// The ordered endpoints of the key-share-holding nodes.
pub struct MPCClient {
    pub server_urls: Vec<String>,
}

impl MPCClient {
    pub fn new(server_urls: Vec<String>) -> (r: Self)
        ensures
            r.server_urls@ == server_urls@,
    {
        MPCClient { server_urls }
    }

    /// Key generation goes to the first configured node only.
    pub fn keygen_target(&self) -> (r: Result<usize, MpcError>)
        ensures
            self.server_urls@.len() == 0 ==> r == Err::<usize, MpcError>(MpcError::NoNodesConfigured),
            self.server_urls@.len() > 0 ==> r == Ok::<usize, MpcError>(0),
    {
        if self.server_urls.len() == 0 {
            Err(MpcError::NoNodesConfigured)
        } else {
            Ok(0)
        }
    }

    /// A share is stored on the node at `server_index`, which must exist.
    pub fn store_target(&self, server_index: usize) -> (r: Result<usize, MpcError>)
        ensures
            server_index >= self.server_urls@.len() ==> r == Err::<usize, MpcError>(MpcError::InvalidNodeIndex),
            server_index < self.server_urls@.len() ==> r == Ok::<usize, MpcError>(server_index),
    {
        if server_index >= self.server_urls.len() {
            Err(MpcError::InvalidNodeIndex)
        } else {
            Ok(server_index)
        }
    }

    /// The first step of a threshold decryption: the first node, if any.
    pub fn first_decrypt_step(&self) -> (s: DecryptStep)
        ensures
            self.server_urls@.len() == 0 ==> s == DecryptStep::Exhausted,
            self.server_urls@.len() > 0 ==> s == DecryptStep::Contact(0),
    {
        if self.server_urls.len() == 0 {
            DecryptStep::Exhausted
        } else {
            DecryptStep::Contact(0)
        }
    }

    /// After node `node` replied: its value wins if usable, else the next node
    /// is tried, and after the last node the request is exhausted.
    pub fn next_decrypt_step(&self, node: usize, reply: &NodeReply) -> (s: DecryptStep)
        requires
            node < self.server_urls@.len(),
        ensures
            usable_value(*reply) matches Some(v) ==> s == DecryptStep::Decrypted(v),
            usable_value(*reply) is None && node + 1 < self.server_urls@.len() ==> s
                == DecryptStep::Contact((node + 1) as usize),
            usable_value(*reply) is None && node + 1 == self.server_urls@.len() ==> s
                == DecryptStep::Exhausted,
    {
        match reply_value(reply) {
            Some(v) => DecryptStep::Decrypted(v),
            None => {
                if node < self.server_urls.len() - 1 {
                    DecryptStep::Contact(node + 1)
                } else {
                    DecryptStep::Exhausted
                }
            },
        }
    }
}

/// The outcome of a threshold decryption given each node's reply in order:
/// the first usable value, or `AllNodesExhausted`.
pub fn resolve_decryption(replies: &[NodeReply]) -> (r: Result<u64, MpcError>)
    ensures
        first_usable(replies@) matches Some(v) ==> r == Ok::<u64, MpcError>(v),
        first_usable(replies@) is None ==> r == Err::<u64, MpcError>(MpcError::AllNodesExhausted),
{
    let mut i: usize = 0;
    assert(replies@.skip(0) =~= replies@);
    while i < replies.len()
        invariant
            i <= replies@.len(),
            first_usable(replies@) == first_usable(replies@.skip(i as int)),
        decreases replies@.len() - i,
    {
        let ghost rest = replies@.skip(i as int);
        assert(rest.drop_first() =~= replies@.skip(i + 1));
        match reply_value(&replies[i]) {
            Some(v) => {
                return Ok(v);
            },
            None => {},
        }
        i = i + 1;
    }
    assert(replies@.skip(i as int) =~= Seq::<NodeReply>::empty());
    Err(MpcError::AllNodesExhausted)
}

/// Driving the coordinator step by step over the nodes' replies stops at the
/// first usable reply with its value, or is exhausted when none is usable.
pub proof fn lemma_steps_follow_first_usable(n: nat, replies: Seq<NodeReply>, k: int)
    requires
        replies.len() == n,
        0 <= k < n,
        forall|j: int| 0 <= j < k ==> usable_value(#[trigger] replies[j]) is None,
    ensures
        usable_value(replies[k]) matches Some(v) ==> first_usable(replies) == Some(v),
        k + 1 == n && usable_value(replies[k]) is None ==> first_usable(replies) is None,
    decreases k,
{
    if k > 0 {
        let rest = replies.drop_first();
        assert forall|j: int| 0 <= j < k - 1 implies usable_value(#[trigger] rest[j]) is None by {
            assert(rest[j] == replies[j + 1]);
        }
        assert(rest[k - 1] == replies[k]);
        lemma_steps_follow_first_usable((n - 1) as nat, rest, k - 1);
    } else if n > 1 && usable_value(replies[k]) is None {
    } else if usable_value(replies[k]) is None {
        assert(replies.drop_first().len() == 0);
        assert(first_usable(replies.drop_first()) is None);
    }
}

} // verus!
