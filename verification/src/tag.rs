//! The closed universe of message type tags.
//!
//! A tag identifies a wire message's protocol purpose and is the sole key the
//! router uses to pick the subscription that must receive the message; no
//! payload inspection is needed to route. The universe is a closed, versioned
//! enumeration: adding a message kind means adding exactly one variant here
//! and claiming it in exactly one subscription (a flow's, or the drain's).

use vstd::prelude::*;

verus! {

/// The protocol purpose of a wire message, used purely for routing.
#[derive(Clone, Copy, Debug, PartialEq, Eq, Hash, Structural)]
pub enum TypeTag {
    Addresses,
    Block,
    Transaction,
    BlockLocator,
    RequestAddresses,
    RequestRelayBlocks,
    RequestTransactions,
    IbdBlock,
    InvRelayBlock,
    InvTransactions,
    Ping,
    Pong,
    Verack,
    Version,
    Ready,
    TransactionNotFound,
    Reject,
    PruningPointUtxoSetChunk,
    RequestIbdBlocks,
    UnexpectedPruningPoint,
    IbdBlockLocatorHighestHash,
    RequestNextPruningPointUtxoSetChunk,
    DonePruningPointUtxoSetChunks,
    IbdBlockLocatorHighestHashNotFound,
    BlockWithTrustedData,
    IbdBlockLocator,
    DoneBlocksWithTrustedData,
    RequestPruningPointAndItsAnticone,
    BlockHeaders,
    RequestNextHeaders,
    DoneHeaders,
    RequestPruningPointUtxoSet,
    RequestHeaders,
    RequestBlockLocator,
    PruningPoints,
    RequestPruningPointProof,
    PruningPointProof,
    BlockWithTrustedDataV4,
    TrustedData,
    RequestIbdChainBlockLocator,
    IbdChainBlockLocator,
    RequestAnticone,
    RequestNextPruningPointAndItsAnticoneBlocks,
}

/// How many distinct tags the universe holds.
pub const TAG_COUNT: usize = 43;

/// The position of a tag in the universe's fixed enumeration order.
pub open spec fn tag_ordinal(t: TypeTag) -> int {
    match t {
        TypeTag::Addresses => 0,
        TypeTag::Block => 1,
        TypeTag::Transaction => 2,
        TypeTag::BlockLocator => 3,
        TypeTag::RequestAddresses => 4,
        TypeTag::RequestRelayBlocks => 5,
        TypeTag::RequestTransactions => 6,
        TypeTag::IbdBlock => 7,
        TypeTag::InvRelayBlock => 8,
        TypeTag::InvTransactions => 9,
        TypeTag::Ping => 10,
        TypeTag::Pong => 11,
        TypeTag::Verack => 12,
        TypeTag::Version => 13,
        TypeTag::Ready => 14,
        TypeTag::TransactionNotFound => 15,
        TypeTag::Reject => 16,
        TypeTag::PruningPointUtxoSetChunk => 17,
        TypeTag::RequestIbdBlocks => 18,
        TypeTag::UnexpectedPruningPoint => 19,
        TypeTag::IbdBlockLocatorHighestHash => 20,
        TypeTag::RequestNextPruningPointUtxoSetChunk => 21,
        TypeTag::DonePruningPointUtxoSetChunks => 22,
        TypeTag::IbdBlockLocatorHighestHashNotFound => 23,
        TypeTag::BlockWithTrustedData => 24,
        TypeTag::IbdBlockLocator => 25,
        TypeTag::DoneBlocksWithTrustedData => 26,
        TypeTag::RequestPruningPointAndItsAnticone => 27,
        TypeTag::BlockHeaders => 28,
        TypeTag::RequestNextHeaders => 29,
        TypeTag::DoneHeaders => 30,
        TypeTag::RequestPruningPointUtxoSet => 31,
        TypeTag::RequestHeaders => 32,
        TypeTag::RequestBlockLocator => 33,
        TypeTag::PruningPoints => 34,
        TypeTag::RequestPruningPointProof => 35,
        TypeTag::PruningPointProof => 36,
        TypeTag::BlockWithTrustedDataV4 => 37,
        TypeTag::TrustedData => 38,
        TypeTag::RequestIbdChainBlockLocator => 39,
        TypeTag::IbdChainBlockLocator => 40,
        TypeTag::RequestAnticone => 41,
        TypeTag::RequestNextPruningPointAndItsAnticoneBlocks => 42,
    }
}

/// The tag standing at a given position of the enumeration order.
pub open spec fn tag_of_ordinal(i: int) -> TypeTag {
    if i == 0 { TypeTag::Addresses }
    else if i == 1 { TypeTag::Block }
    else if i == 2 { TypeTag::Transaction }
    else if i == 3 { TypeTag::BlockLocator }
    else if i == 4 { TypeTag::RequestAddresses }
    else if i == 5 { TypeTag::RequestRelayBlocks }
    else if i == 6 { TypeTag::RequestTransactions }
    else if i == 7 { TypeTag::IbdBlock }
    else if i == 8 { TypeTag::InvRelayBlock }
    else if i == 9 { TypeTag::InvTransactions }
    else if i == 10 { TypeTag::Ping }
    else if i == 11 { TypeTag::Pong }
    else if i == 12 { TypeTag::Verack }
    else if i == 13 { TypeTag::Version }
    else if i == 14 { TypeTag::Ready }
    else if i == 15 { TypeTag::TransactionNotFound }
    else if i == 16 { TypeTag::Reject }
    else if i == 17 { TypeTag::PruningPointUtxoSetChunk }
    else if i == 18 { TypeTag::RequestIbdBlocks }
    else if i == 19 { TypeTag::UnexpectedPruningPoint }
    else if i == 20 { TypeTag::IbdBlockLocatorHighestHash }
    else if i == 21 { TypeTag::RequestNextPruningPointUtxoSetChunk }
    else if i == 22 { TypeTag::DonePruningPointUtxoSetChunks }
    else if i == 23 { TypeTag::IbdBlockLocatorHighestHashNotFound }
    else if i == 24 { TypeTag::BlockWithTrustedData }
    else if i == 25 { TypeTag::IbdBlockLocator }
    else if i == 26 { TypeTag::DoneBlocksWithTrustedData }
    else if i == 27 { TypeTag::RequestPruningPointAndItsAnticone }
    else if i == 28 { TypeTag::BlockHeaders }
    else if i == 29 { TypeTag::RequestNextHeaders }
    else if i == 30 { TypeTag::DoneHeaders }
    else if i == 31 { TypeTag::RequestPruningPointUtxoSet }
    else if i == 32 { TypeTag::RequestHeaders }
    else if i == 33 { TypeTag::RequestBlockLocator }
    else if i == 34 { TypeTag::PruningPoints }
    else if i == 35 { TypeTag::RequestPruningPointProof }
    else if i == 36 { TypeTag::PruningPointProof }
    else if i == 37 { TypeTag::BlockWithTrustedDataV4 }
    else if i == 38 { TypeTag::TrustedData }
    else if i == 39 { TypeTag::RequestIbdChainBlockLocator }
    else if i == 40 { TypeTag::IbdChainBlockLocator }
    else if i == 41 { TypeTag::RequestAnticone }
    else { TypeTag::RequestNextPruningPointAndItsAnticoneBlocks }
}

/// The enumeration order is a bijection between tags and `0..TAG_COUNT`.
pub proof fn lemma_tag_ordinal_inverse(t: TypeTag)
    ensures
        0 <= tag_ordinal(t) < TAG_COUNT,
        tag_of_ordinal(tag_ordinal(t)) == t,
{
}

/// Distinct tags stand at distinct positions of the enumeration order.
pub proof fn lemma_tag_ordinal_injective()
    ensures
        forall|a: TypeTag, b: TypeTag|
            tag_ordinal(a) == tag_ordinal(b) ==> a == b,
{
    assert forall|a: TypeTag, b: TypeTag|
        tag_ordinal(a) == tag_ordinal(b) implies a == b by {
        lemma_tag_ordinal_inverse(a);
        lemma_tag_ordinal_inverse(b);
    }
}

impl TypeTag {
    /// The position of this tag in the universe's enumeration order.
    pub fn index(self) -> (i: usize)
        ensures
            i == tag_ordinal(self),
    {
        match self {
            TypeTag::Addresses => 0,
            TypeTag::Block => 1,
            TypeTag::Transaction => 2,
            TypeTag::BlockLocator => 3,
            TypeTag::RequestAddresses => 4,
            TypeTag::RequestRelayBlocks => 5,
            TypeTag::RequestTransactions => 6,
            TypeTag::IbdBlock => 7,
            TypeTag::InvRelayBlock => 8,
            TypeTag::InvTransactions => 9,
            TypeTag::Ping => 10,
            TypeTag::Pong => 11,
            TypeTag::Verack => 12,
            TypeTag::Version => 13,
            TypeTag::Ready => 14,
            TypeTag::TransactionNotFound => 15,
            TypeTag::Reject => 16,
            TypeTag::PruningPointUtxoSetChunk => 17,
            TypeTag::RequestIbdBlocks => 18,
            TypeTag::UnexpectedPruningPoint => 19,
            TypeTag::IbdBlockLocatorHighestHash => 20,
            TypeTag::RequestNextPruningPointUtxoSetChunk => 21,
            TypeTag::DonePruningPointUtxoSetChunks => 22,
            TypeTag::IbdBlockLocatorHighestHashNotFound => 23,
            TypeTag::BlockWithTrustedData => 24,
            TypeTag::IbdBlockLocator => 25,
            TypeTag::DoneBlocksWithTrustedData => 26,
            TypeTag::RequestPruningPointAndItsAnticone => 27,
            TypeTag::BlockHeaders => 28,
            TypeTag::RequestNextHeaders => 29,
            TypeTag::DoneHeaders => 30,
            TypeTag::RequestPruningPointUtxoSet => 31,
            TypeTag::RequestHeaders => 32,
            TypeTag::RequestBlockLocator => 33,
            TypeTag::PruningPoints => 34,
            TypeTag::RequestPruningPointProof => 35,
            TypeTag::PruningPointProof => 36,
            TypeTag::BlockWithTrustedDataV4 => 37,
            TypeTag::TrustedData => 38,
            TypeTag::RequestIbdChainBlockLocator => 39,
            TypeTag::IbdChainBlockLocator => 40,
            TypeTag::RequestAnticone => 41,
            TypeTag::RequestNextPruningPointAndItsAnticoneBlocks => 42,
        }
    }
}

/// Every tag of the universe, in enumeration order.
pub fn all_tags() -> (tags: Vec<TypeTag>)
    ensures
        tags@.len() == TAG_COUNT,
        forall|i: int| 0 <= i < tags@.len() ==> tag_ordinal(tags@[i]) == i,
{
    let tags: Vec<TypeTag> = vec![
        TypeTag::Addresses,
        TypeTag::Block,
        TypeTag::Transaction,
        TypeTag::BlockLocator,
        TypeTag::RequestAddresses,
        TypeTag::RequestRelayBlocks,
        TypeTag::RequestTransactions,
        TypeTag::IbdBlock,
        TypeTag::InvRelayBlock,
        TypeTag::InvTransactions,
        TypeTag::Ping,
        TypeTag::Pong,
        TypeTag::Verack,
        TypeTag::Version,
        TypeTag::Ready,
        TypeTag::TransactionNotFound,
        TypeTag::Reject,
        TypeTag::PruningPointUtxoSetChunk,
        TypeTag::RequestIbdBlocks,
        TypeTag::UnexpectedPruningPoint,
        TypeTag::IbdBlockLocatorHighestHash,
        TypeTag::RequestNextPruningPointUtxoSetChunk,
        TypeTag::DonePruningPointUtxoSetChunks,
        TypeTag::IbdBlockLocatorHighestHashNotFound,
        TypeTag::BlockWithTrustedData,
        TypeTag::IbdBlockLocator,
        TypeTag::DoneBlocksWithTrustedData,
        TypeTag::RequestPruningPointAndItsAnticone,
        TypeTag::BlockHeaders,
        TypeTag::RequestNextHeaders,
        TypeTag::DoneHeaders,
        TypeTag::RequestPruningPointUtxoSet,
        TypeTag::RequestHeaders,
        TypeTag::RequestBlockLocator,
        TypeTag::PruningPoints,
        TypeTag::RequestPruningPointProof,
        TypeTag::PruningPointProof,
        TypeTag::BlockWithTrustedDataV4,
        TypeTag::TrustedData,
        TypeTag::RequestIbdChainBlockLocator,
        TypeTag::IbdChainBlockLocator,
        TypeTag::RequestAnticone,
        TypeTag::RequestNextPruningPointAndItsAnticoneBlocks,
    ];
    tags
}

} // verus!
