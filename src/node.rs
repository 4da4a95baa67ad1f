//! Choices handed to node start-up: consensus mode, block announcements,
//! and the parachain's account.

use vstd::prelude::*;
use polkadot_parachain_primitives::primitives::Id as ParaId;
use sp_core::crypto::AccountId32;
use sp_runtime::traits::AccountIdConversion;

verus! {

/// How the test node reaches consensus.
#[derive(Debug, Clone, Copy, PartialEq, Eq, Structural)]
pub enum Consensus {
    /// No block-production consensus: nothing drives block authoring.
    Null,
    /// The normal consensus, driven by the relay chain.
    RelayChain,
}

/// The consensus mode that the null-consensus flag selects.
pub open spec fn consensus_for(use_null_consensus: bool) -> Consensus {
    if use_null_consensus {
        Consensus::Null
    } else {
        Consensus::RelayChain
    }
}

/// Null consensus when the flag is set, the relay-chain consensus otherwise.
pub fn select_consensus(use_null_consensus: bool) -> (r: Consensus)
    ensures
        r == consensus_for(use_null_consensus),
{
    if use_null_consensus {
        Consensus::Null
    } else {
        Consensus::RelayChain
    }
}

/// A block announcement: the block's hash and the data sent along with it.
#[derive(Debug, Clone)]
pub struct BlockAnnouncement {
    pub hash: [u8; 32],
    pub data: Option<Vec<u8>>,
}

/// What becomes of the node's block announcements.
#[derive(Debug, Clone, Copy, PartialEq, Eq, Structural)]
pub enum Announcer {
    /// Each announcement is handed on to the node's own announcement function.
    Default,
    /// No announcement is ever handed on.
    Silent,
}

/// The announcement handed on, if any, when `a` is asked to announce.
pub open spec fn announce_spec(a: Announcer, hash: [u8; 32], data: Option<Vec<u8>>) -> Option<
    BlockAnnouncement,
> {
    match a {
        Announcer::Default => Some(BlockAnnouncement { hash, data }),
        Announcer::Silent => None,
    }
}

/// How many of the announcements in `reqs` reach the node's announcement
/// function through `a`.
pub open spec fn invocations(a: Announcer, reqs: Seq<BlockAnnouncement>) -> nat
    decreases reqs.len(),
{
    if reqs.len() == 0 {
        0
    } else {
        let last = reqs.last();
        invocations(a, reqs.drop_last()) + if announce_spec(a, last.hash, last.data) is Some {
            1nat
        } else {
            0nat
        }
    }
}

impl Announcer {
    /// Asks for a block to be announced; returns what is to be handed on to
    /// the node's announcement function, if anything.
    pub fn announce(&self, hash: [u8; 32], data: Option<Vec<u8>>) -> (r: Option<BlockAnnouncement>)
        ensures
            r == announce_spec(*self, hash, data),
    {
        match self {
            Announcer::Default => Some(BlockAnnouncement { hash, data }),
            Announcer::Silent => None,
        }
    }
}

/// A one-shot replacement for the node's announcer: `apply` consumes it, so
/// it is used at most once.
#[derive(Debug)]
pub struct AnnounceWrapper;

/// The announcer that results from applying the wrapper to `inner`.
pub open spec fn wrapped(inner: Announcer) -> Announcer {
    Announcer::Silent
}

impl AnnounceWrapper {
    /// Replaces the node's announcer by one that never announces.
    pub fn apply(self, inner: Announcer) -> (r: Announcer)
        ensures
            r == wrapped(inner),
    {
        Announcer::Silent
    }
}

/// The wrapper that disables block announcements.
pub fn wrap_announce_block() -> (r: AnnounceWrapper)
    ensures
        r == AnnounceWrapper,
{
    AnnounceWrapper
}

/// The wrapper handed to node start-up: present exactly when block
/// announcements are disabled.
pub fn announce_wrapper(disable_block_announcements: bool) -> (r: Option<AnnounceWrapper>)
    ensures
        r is Some <==> disable_block_announcements,
{
    if disable_block_announcements {
        Some(wrap_announce_block())
    } else {
        None
    }
}

/// With block announcements disabled, no announcement of any run reaches the
/// node's announcement function; without the wrapper, every one does.
pub proof fn lemma_disabled_announcements_silent(inner: Announcer, reqs: Seq<BlockAnnouncement>)
    ensures
        invocations(wrapped(inner), reqs) == 0,
        invocations(Announcer::Default, reqs) == reqs.len(),
    decreases reqs.len(),
{
    if reqs.len() > 0 {
        lemma_disabled_announcements_silent(inner, reqs.drop_last());
    }
}

/// The account of parachain `id`: the bytes `para`, the identifier in four
/// little-endian bytes, then zeros up to 32 bytes.
pub open spec fn para_account_spec(id: u32) -> Seq<u8> {
    seq![112u8, 97u8, 114u8, 97u8] + seq![
        (id % 256) as u8,
        (id / 256 % 256) as u8,
        (id / 65536 % 256) as u8,
        (id / 16777216) as u8,
    ] + Seq::new(24, |i: int| 0u8)
}

/// Relies on `sp_runtime::traits::AccountIdConversion::into_account_truncating`
/// for `polkadot_parachain_primitives::primitives::Id`: the SCALE encoding of
/// the type id `*b"para"` and the `u32` (little-endian), read into an
/// `AccountId32` with trailing zeros.
#[verifier::external_body]
fn account_of_para(id: u32) -> (r: [u8; 32])
    ensures
        r@ == para_account_spec(id),
{
    let account: AccountId32 = ParaId::from(id).into_account_truncating();
    account.into()
}

/// The parachain's derived account, logged at start-up.
pub fn parachain_account(parachain_id: u32) -> (r: [u8; 32])
    ensures
        r@ == para_account_spec(parachain_id),
{
    account_of_para(parachain_id)
}

} // verus!
