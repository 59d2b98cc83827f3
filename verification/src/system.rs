//! The state of the system application, and how a chain gets its identifier.
//!
//! The dispatcher does not interpret the state of the system application: it
//! keeps it for the system application and the registry, which its driver
//! runs. The one thing it derives from it is the identifier of the chain,
//! which is the digest of the description of the chain.

use vstd::prelude::*;
use crate::base::{ChainId, ChannelId, CryptoHash, UserApplicationId};
use crate::data::UserApplicationDescription;

verus! {

/// The longest encoding of a chain description that can be digested.
pub const MAX_DESCRIPTION_LENGTH: usize = 0x7fff_ffff;

/// The description of a chain, in its canonical encoding.
#[derive(Clone, Debug, PartialEq, Eq)]
pub struct ChainDescription {
    pub encoding: Vec<u8>,
}

/// The identifier of the chain whose description has the canonical encoding
/// `encoding`.
pub uninterp spec fn description_digest(encoding: Seq<u8>) -> ChainId;

/// Calls `linera_base::crypto::CryptoHash::new` on the blob content of a chain
/// description whose bytes are `encoding`. This is how `linera_base` derives
/// a `ChainId` from a `ChainDescription`, once the description is encoded.
/// The digest is a Keccak-256 hash: it depends on the bytes alone, which is
/// all that the contract claims. The hashing fails only where the bytes
/// cannot be serialised, which is when they are longer than
/// [`MAX_DESCRIPTION_LENGTH`].
#[verifier::external_body]
fn digest_description(encoding: &Vec<u8>) -> (chain_id: ChainId)
    requires
        encoding@.len() <= MAX_DESCRIPTION_LENGTH,
    ensures
        chain_id == description_digest(encoding@),
{
    let content = linera_base::data_types::BlobContent::new(
        linera_base::identifiers::BlobType::ChainDescription,
        encoding.clone(),
    );
    let digest = linera_base::crypto::CryptoHash::new(&content);
    let [part1, part2, part3, part4]: [u64; 4] = digest.into();
    ChainId(CryptoHash { part1, part2, part3, part4 })
}

impl ChainDescription {
    /// The identifier of the chain that is described.
    pub fn id(&self) -> (chain_id: ChainId)
        requires
            self.encoding@.len() <= MAX_DESCRIPTION_LENGTH,
        ensures
            chain_id == description_digest(self.encoding@),
    {
        digest_description(&self.encoding)
    }
}

/// The state of the system application of a chain.
#[derive(Clone, Debug, PartialEq, Eq)]
pub struct SystemExecutionState {
    /// How the chain was created. It is set before anything is executed.
    pub description: Option<ChainDescription>,
    /// The number of the current configuration of validators.
    pub epoch: Option<u64>,
    /// The chain that administers the validators.
    pub admin_id: Option<ChainId>,
    /// The channels that the chain has subscribed to.
    pub subscriptions: Vec<ChannelId>,
    /// The configurations of validators that the chain trusts, encoded, each
    /// with its number.
    pub committees: Vec<(u64, Vec<u8>)>,
    /// Who may propose blocks on the chain, encoded.
    pub ownership: Vec<u8>,
    /// The balance of the chain.
    pub balance: u128,
    /// The time of the latest block, in microseconds.
    pub timestamp: u64,
    /// The applications that the chain knows, each with its description.
    pub registry: Vec<(UserApplicationId, UserApplicationDescription)>,
}

impl SystemExecutionState {
    /// The state of a chain that has no description yet.
    pub fn new() -> (state: SystemExecutionState)
        ensures
            state.description is None,
            state.epoch is None,
            state.admin_id is None,
            state.subscriptions@.len() == 0,
            state.committees@.len() == 0,
            state.ownership@.len() == 0,
            state.balance == 0,
            state.timestamp == 0,
            state.registry@.len() == 0,
    {
        SystemExecutionState {
            description: None,
            epoch: None,
            admin_id: None,
            subscriptions: Vec::new(),
            committees: Vec::new(),
            ownership: Vec::new(),
            balance: 0,
            timestamp: 0,
            registry: Vec::new(),
        }
    }
}

} // verus!
