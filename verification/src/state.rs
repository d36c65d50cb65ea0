//! The persisted account record and its fixed-layout byte codec.
//!
//! The record occupies the first `RECORD_LEN` bytes of its storage buffer:
//! a one-byte initialization flag, the 32-byte authority identity, a
//! one-byte nonce, and the balance as eight little-endian bytes.  This
//! layout is the on-buffer contract and round-trips byte for byte.

use crate::error::GasPassError;
use crate::identity::{Identity, IDENTITY_LEN};
use vstd::bytes::{
    lemma_auto_spec_u64_to_from_le_bytes, spec_u64_from_le_bytes, spec_u64_to_le_bytes,
    u64_from_le_bytes, u64_to_le_bytes,
};
use vstd::prelude::*;
use vstd::slice::slice_subrange;

verus! {

/// Serialized size of the record in bytes: flag, authority, nonce, balance.
pub const RECORD_LEN: usize = 42;

/// The balance-ledger record stored in an account's data buffer.
#[derive(Debug)]
pub struct GasPassInfo {
    /// Lifecycle gate: false until InitializeAccount succeeds, never reset
    /// thereafter.
    pub is_initialized: bool,
    /// The principal permitted to top up and withdraw; set exactly once, at
    /// initialization.
    pub authority: Identity,
    /// Opaque caller-supplied tag stored at initialization.
    pub nonce: u8,
    /// Balance in the smallest native unit.
    pub balance: u64,
}

/// The mathematical value of a record.
#[verifier::ext_equal]
pub ghost struct RecordView {
    pub is_initialized: bool,
    pub authority: Seq<u8>,
    pub nonce: u8,
    pub balance: u64,
}

impl RecordView {
    /// A well-formed record carries a 32-byte authority.
    pub open spec fn wf(&self) -> bool {
        self.authority.len() == IDENTITY_LEN
    }
}

impl GasPassInfo {
    pub open spec fn view(&self) -> RecordView {
        RecordView {
            is_initialized: self.is_initialized,
            authority: self.authority@,
            nonce: self.nonce,
            balance: self.balance,
        }
    }

    pub open spec fn wf(&self) -> bool {
        self.authority.wf()
    }

    /// Length of the record's serialized form; also the minimum allocation
    /// the storage subsystem must provide, and the size whose rent-exemption
    /// threshold InitializeAccount checks.
    pub fn get_account_len() -> (r: usize)
        ensures
            r == RECORD_LEN,
    {
        RECORD_LEN
    }

    /// Serializes the record into its fixed 42-byte layout.
    pub fn encode(&self) -> (r: Vec<u8>)
        requires
            self.wf(),
        ensures
            r@ == spec_record_bytes(self@),
            r@.len() == RECORD_LEN,
    {
        let mut out: Vec<u8> = Vec::new();
        if self.is_initialized {
            out.push(1u8);
        } else {
            out.push(0u8);
        }
        let mut i: usize = 0;
        while i < IDENTITY_LEN
            invariant
                self.wf(),
                i <= IDENTITY_LEN,
                out@.len() == 1 + i,
                out@[0] == (if self.is_initialized { 1u8 } else { 0u8 }),
                forall|j: int| 0 <= j < i ==> out@[1 + j] == self.authority@[j],
            decreases IDENTITY_LEN - i,
        {
            out.push(self.authority.bytes[i]);
            i += 1;
        }
        out.push(self.nonce);
        let bal = u64_to_le_bytes(self.balance);
        let mut k: usize = 0;
        while k < 8
            invariant
                self.wf(),
                k <= 8,
                bal@ == spec_u64_to_le_bytes(self.balance),
                bal@.len() == 8,
                out@.len() == 34 + k,
                out@[0] == (if self.is_initialized { 1u8 } else { 0u8 }),
                forall|j: int| 0 <= j < IDENTITY_LEN ==> out@[1 + j] == self.authority@[j],
                out@[33] == self.nonce,
                forall|j: int| 0 <= j < k ==> out@[34 + j] == bal@[j],
            decreases 8 - k,
        {
            out.push(bal[k]);
            k += 1;
        }
        proof {
            lemma_auto_spec_u64_to_from_le_bytes();
            assert(out@ =~= spec_record_bytes(self@));
        }
        out
    }

    /// Decodes a record from the first `RECORD_LEN` bytes of a buffer.
    ///
    /// Fails with `MalformedInput` on an undersized buffer or a flag byte
    /// other than 0 or 1; succeeds on every other buffer.
    pub fn decode_record(src: &[u8]) -> (r: Result<GasPassInfo, GasPassError>)
        ensures
            r is Ok <==> record_bytes_wf(src@),
            r is Ok ==> r->Ok_0@ == spec_parse_record(src@) && r->Ok_0.wf(),
            r is Err ==> r->Err_0 == GasPassError::MalformedInput,
    {
        if src.len() < RECORD_LEN {
            return Err(GasPassError::MalformedInput);
        }
        let flag = src[0];
        if flag > 1 {
            return Err(GasPassError::MalformedInput);
        }
        let mut auth: Vec<u8> = Vec::new();
        let mut i: usize = 1;
        while i < 1 + IDENTITY_LEN
            invariant
                src@.len() >= RECORD_LEN,
                1 <= i <= 1 + IDENTITY_LEN,
                auth@.len() == i - 1,
                forall|j: int| 0 <= j < i - 1 ==> auth@[j] == src@[1 + j],
            decreases 1 + IDENTITY_LEN - i,
        {
            auth.push(src[i]);
            i += 1;
        }
        let nonce = src[33];
        let balance = u64_from_le_bytes(slice_subrange(src, 34, 42));
        proof {
            assert(auth@ =~= src@.subrange(1, 33));
        }
        Ok(GasPassInfo { is_initialized: flag == 1, authority: Identity::new(auth), nonce, balance })
    }
}

/// The 42-byte serialized form of a record.
pub open spec fn spec_record_bytes(r: RecordView) -> Seq<u8> {
    seq![if r.is_initialized { 1u8 } else { 0u8 }] + r.authority + seq![r.nonce]
        + spec_u64_to_le_bytes(r.balance)
}

/// Holds when a buffer carries a decodable record image: at least
/// `RECORD_LEN` bytes, with a valid flag byte.
pub open spec fn record_bytes_wf(s: Seq<u8>) -> bool {
    &&& s.len() >= RECORD_LEN
    &&& (s[0] == 0 || s[0] == 1)
}

/// The record read from the first `RECORD_LEN` bytes of a buffer.
pub open spec fn spec_parse_record(s: Seq<u8>) -> RecordView {
    RecordView {
        is_initialized: s[0] == 1,
        authority: s.subrange(1, 33),
        nonce: s[33],
        balance: spec_u64_from_le_bytes(s.subrange(34, 42)),
    }
}

/// Round trip: every well-formed record decodes back from its own encoding.
pub proof fn lemma_record_round_trip(r: RecordView)
    requires
        r.wf(),
    ensures
        spec_record_bytes(r).len() == RECORD_LEN,
        record_bytes_wf(spec_record_bytes(r)),
        spec_parse_record(spec_record_bytes(r)) == r,
{
    lemma_auto_spec_u64_to_from_le_bytes();
    let s = spec_record_bytes(r);
    assert(s.subrange(1, 33) =~= r.authority);
    assert(s.subrange(34, 42) =~= spec_u64_to_le_bytes(r.balance));
    assert(spec_parse_record(s) =~= r);
}

/// Decoding reads only the record image at the head of the buffer: a
/// buffer that starts with a record's encoding parses back to that record,
/// whatever follows it.
pub proof fn lemma_parse_record_prefix(r: RecordView, tail: Seq<u8>)
    requires
        r.wf(),
    ensures
        record_bytes_wf(spec_record_bytes(r) + tail),
        spec_parse_record(spec_record_bytes(r) + tail) == r,
{
    lemma_record_round_trip(r);
    let s = spec_record_bytes(r);
    let full = s + tail;
    assert(full[0] == s[0]);
    assert(full[33] == s[33]);
    assert(full.subrange(1, 33) =~= s.subrange(1, 33));
    assert(full.subrange(34, 42) =~= s.subrange(34, 42));
    assert(spec_parse_record(full) =~= spec_parse_record(s));
}

} // verus!
