//! Identifiers and call contexts.
//!
//! Every type here is a plain record of integers: it is `Copy`, compares by
//! its fields, and is its own mathematical model.

use vstd::prelude::*;

verus! {

/// A 256-bit digest, held as four 64-bit words (most significant first).
#[derive(Clone, Copy, Debug, PartialEq, Eq, Hash, Structural)]
pub struct CryptoHash {
    pub part1: u64,
    pub part2: u64,
    pub part3: u64,
    pub part4: u64,
}

impl CryptoHash {
    /// The digest made of the four given words.
    pub fn new(part1: u64, part2: u64, part3: u64, part4: u64) -> (hash: CryptoHash)
        ensures
            hash == (CryptoHash { part1, part2, part3, part4 }),
    {
        CryptoHash { part1, part2, part3, part4 }
    }
}

/// The unique identifier of a chain: the digest of its description.
#[derive(Clone, Copy, Debug, PartialEq, Eq, Hash, Structural)]
pub struct ChainId(pub CryptoHash);

/// A reference to the bytecode of a user application.
#[derive(Clone, Copy, Debug, PartialEq, Eq, Hash, Structural)]
pub struct BytecodeId(pub CryptoHash);

/// The stable identifier of a user application. It never changes once the
/// application has been created.
#[derive(Clone, Copy, Debug, PartialEq, Eq, Hash, Structural)]
pub struct UserApplicationId(pub CryptoHash);

/// The target of an operation, an effect or a query.
#[derive(Clone, Copy, Debug, PartialEq, Eq, Hash, Structural)]
pub enum ApplicationId {
    /// The fixed application that administers the chain.
    System,
    /// A pluggable application.
    User(UserApplicationId),
}

/// A channel that other chains may subscribe to.
#[derive(Clone, Copy, Debug, PartialEq, Eq, Hash, Structural)]
pub struct ChannelId {
    /// The chain that publishes on the channel.
    pub chain_id: ChainId,
    /// The number of the channel on that chain.
    pub name: u64,
}

/// Where an effect is sent.
#[derive(Clone, Copy, Debug, PartialEq, Eq, Hash, Structural)]
pub enum Destination {
    /// Directly to one chain.
    Recipient(ChainId),
    /// To every subscriber of a channel of the sending chain.
    Subscribers(u64),
}

/// The identifier of a session. Identifiers are handed out by the session
/// manager of a call tree and are never reused within that tree.
#[derive(Clone, Copy, Debug, PartialEq, Eq, Hash, Structural)]
pub struct SessionId {
    /// The application that opened the session.
    pub application_id: UserApplicationId,
    /// The rank of the session among those opened in the call tree.
    pub index: u64,
}

/// The position of an effect in the chain that produced it.
#[derive(Clone, Copy, Debug, PartialEq, Eq, Hash, Structural)]
pub struct EffectId {
    pub chain_id: ChainId,
    pub height: u64,
    pub index: u64,
}

/// The context of the execution of an operation.
#[derive(Clone, Copy, Debug, PartialEq, Eq, Structural)]
pub struct OperationContext {
    /// The chain on which the operation is executed.
    pub chain_id: ChainId,
    /// The height of the block that holds the operation.
    pub height: u64,
    /// The rank of the operation in its block.
    pub index: u64,
}

/// The context of the execution of an incoming effect.
#[derive(Clone, Copy, Debug, PartialEq, Eq, Structural)]
pub struct EffectContext {
    /// The chain on which the effect is executed.
    pub chain_id: ChainId,
    /// The height of the block that receives the effect.
    pub height: u64,
    /// Where the effect was produced.
    pub effect_id: EffectId,
}

/// The context of a query.
#[derive(Clone, Copy, Debug, PartialEq, Eq, Structural)]
pub struct QueryContext {
    /// The chain that is queried.
    pub chain_id: ChainId,
}

} // verus!
