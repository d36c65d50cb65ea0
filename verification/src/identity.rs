//! The 32-byte principal identities that name authorities, programs and
//! storage accounts.

use vstd::prelude::*;

verus! {

/// Width in bytes of an identity.
pub const IDENTITY_LEN: usize = 32;

/// A 32-byte principal: the identity of an authority, a program, or a
/// storage account.
#[derive(Debug)]
pub struct Identity {
    pub bytes: Vec<u8>,
}

impl Identity {
    /// A well-formed identity holds exactly `IDENTITY_LEN` bytes.
    pub open spec fn wf(&self) -> bool {
        self.bytes@.len() == IDENTITY_LEN
    }

    pub open spec fn view(&self) -> Seq<u8> {
        self.bytes@
    }

    pub fn new(bytes: Vec<u8>) -> (r: Identity)
        requires
            bytes@.len() == IDENTITY_LEN,
        ensures
            r.wf(),
            r@ == bytes@,
    {
        Identity { bytes }
    }

    /// A fresh identity holding the same bytes.
    pub fn duplicate(&self) -> (r: Identity)
        requires
            self.wf(),
        ensures
            r.wf(),
            r@ == self@,
    {
        let mut bytes: Vec<u8> = Vec::new();
        let mut i: usize = 0;
        while i < IDENTITY_LEN
            invariant
                self.wf(),
                i <= IDENTITY_LEN,
                bytes@ == self@.take(i as int),
            decreases IDENTITY_LEN - i,
        {
            bytes.push(self.bytes[i]);
            i += 1;
        }
        proof {
            assert(bytes@ =~= self@);
        }
        Identity { bytes }
    }

    /// Byte-for-byte equality of two identities.
    pub fn equals(&self, other: &Identity) -> (r: bool)
        requires
            self.wf(),
            other.wf(),
        ensures
            r == (self@ == other@),
    {
        let mut i: usize = 0;
        while i < IDENTITY_LEN
            invariant
                self.wf(),
                other.wf(),
                i <= IDENTITY_LEN,
                forall|j: int| 0 <= j < i ==> self@[j] == other@[j],
            decreases IDENTITY_LEN - i,
        {
            if self.bytes[i] != other.bytes[i] {
                return false;
            }
            i += 1;
        }
        proof {
            assert(self@ =~= other@);
        }
        true
    }
}

} // verus!
