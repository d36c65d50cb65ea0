//! The per-invocation view of a storage account handed in by the external
//! storage subsystem.

use crate::identity::Identity;
use vstd::prelude::*;

verus! {

/// One storage account, as resolved by the external storage subsystem for
/// the duration of a single invocation.
///
/// The processor reads and overwrites `data` and `native_balance` in place;
/// it never allocates, resizes or frees the underlying storage.
#[derive(Debug)]
pub struct Participant {
    /// The account's own identity.
    pub identity: Identity,
    /// Whether the caller cryptographically authorized this invocation as
    /// this account.
    pub is_signer: bool,
    /// Whether the storage subsystem allows this invocation to mutate the
    /// account.
    pub is_writable: bool,
    /// The account's balance in the smallest native unit.
    pub native_balance: u64,
    /// The account's raw data buffer.
    pub data: Vec<u8>,
    /// The identity of the program that owns the storage region.
    pub owner: Identity,
}

impl Participant {
    /// A well-formed participant carries well-formed identities.
    pub open spec fn wf(&self) -> bool {
        &&& self.identity.wf()
        &&& self.owner.wf()
    }
}

/// Holds when `post` is `pre` with its data buffer replaced by `data` and
/// its native balance replaced by `native_balance`, every other field kept.
pub open spec fn participant_updated(
    post: Participant,
    pre: Participant,
    data: Seq<u8>,
    native_balance: u64,
) -> bool {
    &&& post.identity == pre.identity
    &&& post.is_signer == pre.is_signer
    &&& post.is_writable == pre.is_writable
    &&& post.owner == pre.owner
    &&& post.data@ == data
    &&& post.native_balance == native_balance
}

} // verus!
