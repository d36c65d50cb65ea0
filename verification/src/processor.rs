//! The instruction processor: dispatch, validation, and atomic balance
//! mutation.
//!
//! Each operation validates every participant before any mutation, then
//! applies the value move and the record update as one unit: a failing
//! invocation returns exactly one error code and leaves every participant
//! untouched.

use crate::account::{participant_updated, Participant};
use crate::error::GasPassError;
use crate::identity::Identity;
use crate::instruction::{spec_parse_instruction, GasPassInstruction, InstructionView};
use crate::ledger::{spec_apply_op, LedgerOp, FEE};
use crate::state::{
    lemma_parse_record_prefix, record_bytes_wf, spec_parse_record, spec_record_bytes, GasPassInfo,
    RecordView, RECORD_LEN,
};
use crate::validation::{
    require_authority_match, require_initialized, require_owned_by, require_rent_exempt,
    require_signer, require_sufficient_balance, require_uninitialized,
};
use vstd::prelude::*;

verus! {

/// The stateless instruction processor.
pub struct Processor;

/// All participant identities are well formed.
pub open spec fn participants_wf(accounts: Seq<Participant>) -> bool {
    forall|i: int| 0 <= i < accounts.len() ==> (#[trigger] accounts[i]).wf()
}

/// The record InitializeAccount writes: initialized, owned by the
/// authority participant's identity, carrying the supplied nonce and a
/// zero balance.
pub open spec fn spec_initialized_record(accounts: Seq<Participant>, nonce: u8) -> RecordView {
    RecordView {
        is_initialized: true,
        authority: accounts[1].identity@,
        nonce,
        balance: 0,
    }
}

/// The exact outcome of InitializeAccount on the given pre-state, with the
/// checks in their declared order: participant count, signer, owner,
/// rent exemption, record decode, initialization gate.
pub open spec fn spec_initialize_result(
    accounts: Seq<Participant>,
    program_id: Seq<u8>,
    min_balance: u64,
) -> Result<(), GasPassError> {
    if accounts.len() < 3 {
        Err(GasPassError::MalformedInput)
    } else if !accounts[1].is_signer {
        Err(GasPassError::MissingAuthorization)
    } else if accounts[0].owner@ != program_id {
        Err(GasPassError::WrongOwner)
    } else if accounts[0].native_balance < min_balance {
        Err(GasPassError::InsufficientFunding)
    } else if !record_bytes_wf(accounts[0].data@) {
        Err(GasPassError::MalformedInput)
    } else if spec_parse_record(accounts[0].data@).is_initialized {
        Err(GasPassError::AlreadyInitialized)
    } else {
        Ok(())
    }
}

/// The post-state of a successful InitializeAccount: the target's buffer
/// carries the fresh record image, everything else is untouched.
pub open spec fn spec_initialize_effect(
    pre: Seq<Participant>,
    post: Seq<Participant>,
    nonce: u8,
) -> bool {
    &&& post.len() == pre.len()
    &&& participant_updated(
        post[0],
        pre[0],
        spec_record_bytes(spec_initialized_record(pre, nonce)) + pre[0].data@.skip(
            RECORD_LEN as int,
        ),
        pre[0].native_balance,
    )
    &&& forall|i: int| 1 <= i < pre.len() ==> post[i] == pre[i]
}

/// The exact outcome of Topup on the given pre-state: participant count,
/// signer, owner, record decode, initialization, authority match, then the
/// arithmetic guards on the record balance, the target's native balance
/// and the payer's native balance.
pub open spec fn spec_topup_result(
    accounts: Seq<Participant>,
    amount: u64,
    program_id: Seq<u8>,
) -> Result<(), GasPassError> {
    if accounts.len() < 3 {
        Err(GasPassError::MalformedInput)
    } else if !accounts[1].is_signer {
        Err(GasPassError::MissingAuthorization)
    } else if accounts[0].owner@ != program_id {
        Err(GasPassError::WrongOwner)
    } else if !record_bytes_wf(accounts[0].data@) {
        Err(GasPassError::MalformedInput)
    } else if !spec_parse_record(accounts[0].data@).is_initialized {
        Err(GasPassError::NotInitialized)
    } else if spec_parse_record(accounts[0].data@).authority != accounts[1].identity@ {
        Err(GasPassError::AuthorityMismatch)
    } else if spec_parse_record(accounts[0].data@).balance + amount > u64::MAX {
        Err(GasPassError::AmountOverflow)
    } else if accounts[0].native_balance + amount > u64::MAX {
        Err(GasPassError::AmountOverflow)
    } else if accounts[2].native_balance < amount {
        Err(GasPassError::AmountOverflow)
    } else {
        Ok(())
    }
}

/// The post-state of a successful Topup: `amount` moves from the payer's
/// native balance to the target's, and the stored record's balance grows
/// by `amount`.
pub open spec fn spec_topup_effect(
    pre: Seq<Participant>,
    post: Seq<Participant>,
    amount: u64,
) -> bool {
    let rec = spec_parse_record(pre[0].data@);
    let new_rec = RecordView { balance: (rec.balance + amount) as u64, ..rec };
    &&& post.len() == pre.len()
    &&& participant_updated(
        post[0],
        pre[0],
        spec_record_bytes(new_rec) + pre[0].data@.skip(RECORD_LEN as int),
        (pre[0].native_balance + amount) as u64,
    )
    &&& participant_updated(post[2], pre[2], pre[2].data@, (pre[2].native_balance - amount) as u64)
    &&& forall|i: int| 1 <= i < pre.len() && i != 2 ==> post[i] == pre[i]
}

/// The exact outcome of SubmitTransaction on the given pre-state:
/// participant count, owner, record decode, initialization, fee coverage,
/// then the arithmetic guards on the two native balances.  No signer is
/// required: the operation self-limits through the stored balance.
pub open spec fn spec_submit_result(
    accounts: Seq<Participant>,
    program_id: Seq<u8>,
) -> Result<(), GasPassError> {
    if accounts.len() < 2 {
        Err(GasPassError::MalformedInput)
    } else if accounts[0].owner@ != program_id {
        Err(GasPassError::WrongOwner)
    } else if !record_bytes_wf(accounts[0].data@) {
        Err(GasPassError::MalformedInput)
    } else if !spec_parse_record(accounts[0].data@).is_initialized {
        Err(GasPassError::NotInitialized)
    } else if spec_parse_record(accounts[0].data@).balance < FEE {
        Err(GasPassError::InsufficientBalance)
    } else if accounts[0].native_balance < FEE {
        Err(GasPassError::AmountOverflow)
    } else if accounts[1].native_balance + FEE > u64::MAX {
        Err(GasPassError::AmountOverflow)
    } else {
        Ok(())
    }
}

/// The post-state of a successful SubmitTransaction: the fixed fee leaves
/// the stored balance and the target's native balance, and reaches the
/// executor's native balance.
pub open spec fn spec_submit_effect(pre: Seq<Participant>, post: Seq<Participant>) -> bool {
    let rec = spec_parse_record(pre[0].data@);
    let new_rec = RecordView { balance: (rec.balance - FEE) as u64, ..rec };
    &&& post.len() == pre.len()
    &&& participant_updated(
        post[0],
        pre[0],
        spec_record_bytes(new_rec) + pre[0].data@.skip(RECORD_LEN as int),
        (pre[0].native_balance - FEE) as u64,
    )
    &&& participant_updated(post[1], pre[1], pre[1].data@, (pre[1].native_balance + FEE) as u64)
    &&& forall|i: int| 2 <= i < pre.len() ==> post[i] == pre[i]
}

/// The exact outcome of Withdraw on the given pre-state: participant
/// count, signer, owner, record decode, initialization, authority match,
/// balance coverage, then the arithmetic guards on the two native
/// balances.
pub open spec fn spec_withdraw_result(
    accounts: Seq<Participant>,
    amount: u64,
    program_id: Seq<u8>,
) -> Result<(), GasPassError> {
    if accounts.len() < 2 {
        Err(GasPassError::MalformedInput)
    } else if !accounts[1].is_signer {
        Err(GasPassError::MissingAuthorization)
    } else if accounts[0].owner@ != program_id {
        Err(GasPassError::WrongOwner)
    } else if !record_bytes_wf(accounts[0].data@) {
        Err(GasPassError::MalformedInput)
    } else if !spec_parse_record(accounts[0].data@).is_initialized {
        Err(GasPassError::NotInitialized)
    } else if spec_parse_record(accounts[0].data@).authority != accounts[1].identity@ {
        Err(GasPassError::AuthorityMismatch)
    } else if spec_parse_record(accounts[0].data@).balance < amount {
        Err(GasPassError::InsufficientBalance)
    } else if accounts[0].native_balance < amount {
        Err(GasPassError::AmountOverflow)
    } else if accounts[1].native_balance + amount > u64::MAX {
        Err(GasPassError::AmountOverflow)
    } else {
        Ok(())
    }
}

/// The post-state of a successful Withdraw: `amount` leaves the stored
/// balance and the target's native balance, and reaches the authority's
/// native balance.
pub open spec fn spec_withdraw_effect(
    pre: Seq<Participant>,
    post: Seq<Participant>,
    amount: u64,
) -> bool {
    let rec = spec_parse_record(pre[0].data@);
    let new_rec = RecordView { balance: (rec.balance - amount) as u64, ..rec };
    &&& post.len() == pre.len()
    &&& participant_updated(
        post[0],
        pre[0],
        spec_record_bytes(new_rec) + pre[0].data@.skip(RECORD_LEN as int),
        (pre[0].native_balance - amount) as u64,
    )
    &&& participant_updated(post[1], pre[1], pre[1].data@, (pre[1].native_balance + amount) as u64)
    &&& forall|i: int| 2 <= i < pre.len() ==> post[i] == pre[i]
}

/// The exact outcome of a whole invocation: decode the payload, then run
/// the selected operation's checks.
pub open spec fn spec_process_result(
    accounts: Seq<Participant>,
    payload: Seq<u8>,
    program_id: Seq<u8>,
    min_balance: u64,
) -> Result<(), GasPassError> {
    match spec_parse_instruction(payload) {
        None => Err(GasPassError::MalformedInput),
        Some(InstructionView::InitializeAccount { nonce }) => {
            spec_initialize_result(accounts, program_id, min_balance)
        },
        Some(InstructionView::Topup { amount }) => {
            spec_topup_result(accounts, amount, program_id)
        },
        Some(InstructionView::SubmitTransaction { transaction }) => {
            spec_submit_result(accounts, program_id)
        },
        Some(InstructionView::Withdraw { amount }) => {
            spec_withdraw_result(accounts, amount, program_id)
        },
    }
}

/// The post-state of a successful invocation, per decoded instruction.
pub open spec fn spec_process_effect(
    pre: Seq<Participant>,
    post: Seq<Participant>,
    payload: Seq<u8>,
) -> bool {
    match spec_parse_instruction(payload) {
        None => false,
        Some(InstructionView::InitializeAccount { nonce }) => {
            spec_initialize_effect(pre, post, nonce)
        },
        Some(InstructionView::Topup { amount }) => spec_topup_effect(pre, post, amount),
        Some(InstructionView::SubmitTransaction { transaction }) => spec_submit_effect(pre, post),
        Some(InstructionView::Withdraw { amount }) => spec_withdraw_effect(pre, post, amount),
    }
}

/// The target's buffer with the record image at its head replaced by
/// `rec`'s encoding, the tail kept.
fn rebuild_data(old_data: &Vec<u8>, rec: &GasPassInfo) -> (r: Vec<u8>)
    requires
        rec.wf(),
        old_data@.len() >= RECORD_LEN,
    ensures
        r@ == spec_record_bytes(rec@) + old_data@.skip(RECORD_LEN as int),
        r@.len() == old_data@.len(),
{
    let mut out = rec.encode();
    let mut i: usize = RECORD_LEN;
    while i < old_data.len()
        invariant
            RECORD_LEN <= i <= old_data@.len(),
            out@.len() == i,
            out@.subrange(0, RECORD_LEN as int) == spec_record_bytes(rec@),
            forall|j: int| RECORD_LEN <= j < i ==> out@[j] == old_data@[j],
        decreases old_data@.len() - i,
    {
        let b = old_data[i];
        out.push(b);
        proof {
            assert(out@.subrange(0, RECORD_LEN as int) =~= spec_record_bytes(rec@));
        }
        i += 1;
    }
    proof {
        assert(out@ =~= spec_record_bytes(rec@) + old_data@.skip(RECORD_LEN as int));
    }
    out
}

impl Processor {
    /// Decodes the payload and runs the selected operation.
    pub fn process(
        program_id: &Identity,
        accounts: &mut Vec<Participant>,
        instruction_data: &[u8],
        min_balance: u64,
    ) -> (r: Result<(), GasPassError>)
        requires
            program_id.wf(),
            participants_wf(old(accounts)@),
        ensures
            r == spec_process_result(
                old(accounts)@,
                instruction_data@,
                program_id@,
                min_balance,
            ),
            r is Ok ==> spec_process_effect(old(accounts)@, final(accounts)@, instruction_data@),
            r is Err ==> final(accounts)@ == old(accounts)@,
            participants_wf(final(accounts)@),
    {
        let instruction = match GasPassInstruction::deserialize(instruction_data) {
            Ok(instruction) => instruction,
            Err(e) => {
                return Err(e);
            },
        };
        match instruction {
            GasPassInstruction::InitializeAccount { nonce } => {
                Self::process_initialize_account(accounts, nonce, program_id, min_balance)
            },
            GasPassInstruction::Topup { amount } => {
                Self::process_topup(accounts, amount, program_id)
            },
            GasPassInstruction::SubmitTransaction { transaction } => {
                Self::process_submit_transaction(accounts, transaction, program_id)
            },
            GasPassInstruction::Withdraw { amount } => {
                Self::process_withdraw(accounts, amount, program_id)
            },
        }
    }

    /// Initializes the record in the target's buffer: sets the flag, stores
    /// the authority's identity and the nonce, and zeroes the balance.
    ///
    /// Participants: target storage, authority (signer), rent context.
    /// `min_balance` is the externally supplied rent-exemption threshold
    /// for the record's size.
    pub fn process_initialize_account(
        accounts: &mut Vec<Participant>,
        nonce: u8,
        program_id: &Identity,
        min_balance: u64,
    ) -> (r: Result<(), GasPassError>)
        requires
            program_id.wf(),
            participants_wf(old(accounts)@),
        ensures
            r == spec_initialize_result(old(accounts)@, program_id@, min_balance),
            r is Ok ==> spec_initialize_effect(old(accounts)@, final(accounts)@, nonce),
            r is Err ==> final(accounts)@ == old(accounts)@,
            participants_wf(final(accounts)@),
    {
        if accounts.len() < 3 {
            return Err(GasPassError::MalformedInput);
        }
        match require_signer(&accounts[1]) {
            Ok(()) => (),
            Err(e) => {
                return Err(e);
            },
        }
        match require_owned_by(&accounts[0], program_id) {
            Ok(()) => (),
            Err(e) => {
                return Err(e);
            },
        }
        match require_rent_exempt(accounts[0].native_balance, min_balance) {
            Ok(()) => (),
            Err(e) => {
                return Err(e);
            },
        }
        let mut rec = match GasPassInfo::decode_record(accounts[0].data.as_slice()) {
            Ok(rec) => rec,
            Err(e) => {
                return Err(e);
            },
        };
        match require_uninitialized(&rec) {
            Ok(()) => (),
            Err(e) => {
                return Err(e);
            },
        }
        rec.is_initialized = true;
        rec.authority = accounts[1].identity.duplicate();
        rec.nonce = nonce;
        rec.balance = 0;
        proof {
            assert(rec@ =~= spec_initialized_record(old(accounts)@, nonce));
        }
        let d = rebuild_data(&accounts[0].data, &rec);
        accounts[0].data = d;
        Ok(())
    }

    /// Moves `amount` from the payer's native balance to the target's, and
    /// grows the stored record's balance by `amount`.
    ///
    /// Participants: target storage, authority (signer), payer.
    pub fn process_topup(
        accounts: &mut Vec<Participant>,
        amount: u64,
        program_id: &Identity,
    ) -> (r: Result<(), GasPassError>)
        requires
            program_id.wf(),
            participants_wf(old(accounts)@),
        ensures
            r == spec_topup_result(old(accounts)@, amount, program_id@),
            r is Ok ==> spec_topup_effect(old(accounts)@, final(accounts)@, amount),
            r is Err ==> final(accounts)@ == old(accounts)@,
            participants_wf(final(accounts)@),
    {
        if accounts.len() < 3 {
            return Err(GasPassError::MalformedInput);
        }
        match require_signer(&accounts[1]) {
            Ok(()) => (),
            Err(e) => {
                return Err(e);
            },
        }
        match require_owned_by(&accounts[0], program_id) {
            Ok(()) => (),
            Err(e) => {
                return Err(e);
            },
        }
        let mut rec = match GasPassInfo::decode_record(accounts[0].data.as_slice()) {
            Ok(rec) => rec,
            Err(e) => {
                return Err(e);
            },
        };
        match require_initialized(&rec) {
            Ok(()) => (),
            Err(e) => {
                return Err(e);
            },
        }
        match require_authority_match(&rec, &accounts[1].identity) {
            Ok(()) => (),
            Err(e) => {
                return Err(e);
            },
        }
        if amount > u64::MAX - rec.balance {
            return Err(GasPassError::AmountOverflow);
        }
        if amount > u64::MAX - accounts[0].native_balance {
            return Err(GasPassError::AmountOverflow);
        }
        if accounts[2].native_balance < amount {
            return Err(GasPassError::AmountOverflow);
        }
        accounts[0].native_balance = accounts[0].native_balance + amount;
        accounts[2].native_balance = accounts[2].native_balance - amount;
        rec.balance = rec.balance + amount;
        let d = rebuild_data(&accounts[0].data, &rec);
        accounts[0].data = d;
        Ok(())
    }

    /// Charges the fixed fee for one submitted transaction body: the fee
    /// leaves the stored balance and the target's native balance, and
    /// reaches the executor.  The body itself is metered, never
    /// interpreted.
    ///
    /// Participants: target storage, executor.
    #[allow(unused_variables)]
    pub fn process_submit_transaction(
        accounts: &mut Vec<Participant>,
        transaction: Vec<u8>,
        program_id: &Identity,
    ) -> (r: Result<(), GasPassError>)
        requires
            program_id.wf(),
            participants_wf(old(accounts)@),
        ensures
            r == spec_submit_result(old(accounts)@, program_id@),
            r is Ok ==> spec_submit_effect(old(accounts)@, final(accounts)@),
            r is Err ==> final(accounts)@ == old(accounts)@,
            participants_wf(final(accounts)@),
    {
        if accounts.len() < 2 {
            return Err(GasPassError::MalformedInput);
        }
        match require_owned_by(&accounts[0], program_id) {
            Ok(()) => (),
            Err(e) => {
                return Err(e);
            },
        }
        let mut rec = match GasPassInfo::decode_record(accounts[0].data.as_slice()) {
            Ok(rec) => rec,
            Err(e) => {
                return Err(e);
            },
        };
        match require_initialized(&rec) {
            Ok(()) => (),
            Err(e) => {
                return Err(e);
            },
        }
        match require_sufficient_balance(&rec, FEE) {
            Ok(()) => (),
            Err(e) => {
                return Err(e);
            },
        }
        if accounts[0].native_balance < FEE {
            return Err(GasPassError::AmountOverflow);
        }
        if FEE > u64::MAX - accounts[1].native_balance {
            return Err(GasPassError::AmountOverflow);
        }
        accounts[0].native_balance = accounts[0].native_balance - FEE;
        accounts[1].native_balance = accounts[1].native_balance + FEE;
        rec.balance = rec.balance - FEE;
        let d = rebuild_data(&accounts[0].data, &rec);
        accounts[0].data = d;
        Ok(())
    }

    /// Moves `amount` from the stored balance and the target's native
    /// balance to the authority's native balance.
    ///
    /// Participants: target storage, authority (signer).
    pub fn process_withdraw(
        accounts: &mut Vec<Participant>,
        amount: u64,
        program_id: &Identity,
    ) -> (r: Result<(), GasPassError>)
        requires
            program_id.wf(),
            participants_wf(old(accounts)@),
        ensures
            r == spec_withdraw_result(old(accounts)@, amount, program_id@),
            r is Ok ==> spec_withdraw_effect(old(accounts)@, final(accounts)@, amount),
            r is Err ==> final(accounts)@ == old(accounts)@,
            participants_wf(final(accounts)@),
    {
        if accounts.len() < 2 {
            return Err(GasPassError::MalformedInput);
        }
        match require_signer(&accounts[1]) {
            Ok(()) => (),
            Err(e) => {
                return Err(e);
            },
        }
        match require_owned_by(&accounts[0], program_id) {
            Ok(()) => (),
            Err(e) => {
                return Err(e);
            },
        }
        let mut rec = match GasPassInfo::decode_record(accounts[0].data.as_slice()) {
            Ok(rec) => rec,
            Err(e) => {
                return Err(e);
            },
        };
        match require_initialized(&rec) {
            Ok(()) => (),
            Err(e) => {
                return Err(e);
            },
        }
        match require_authority_match(&rec, &accounts[1].identity) {
            Ok(()) => (),
            Err(e) => {
                return Err(e);
            },
        }
        match require_sufficient_balance(&rec, amount) {
            Ok(()) => (),
            Err(e) => {
                return Err(e);
            },
        }
        if accounts[0].native_balance < amount {
            return Err(GasPassError::AmountOverflow);
        }
        if amount > u64::MAX - accounts[1].native_balance {
            return Err(GasPassError::AmountOverflow);
        }
        accounts[0].native_balance = accounts[0].native_balance - amount;
        accounts[1].native_balance = accounts[1].native_balance + amount;
        rec.balance = rec.balance - amount;
        let d = rebuild_data(&accounts[0].data, &rec);
        accounts[0].data = d;
        Ok(())
    }
}

/// Idempotence of rejection: after a successful InitializeAccount, running
/// InitializeAccount again on the resulting state, with the same
/// participant inputs, fails with `AlreadyInitialized`.  The operation's
/// error postcondition then leaves every participant untouched, so the
/// stored authority and balance survive the rejected call unchanged.
pub proof fn lemma_initialize_rejected_after_success(
    pre: Seq<Participant>,
    post: Seq<Participant>,
    nonce: u8,
    program_id: Seq<u8>,
    min_balance: u64,
)
    requires
        participants_wf(pre),
        spec_initialize_result(pre, program_id, min_balance) is Ok,
        spec_initialize_effect(pre, post, nonce),
    ensures
        spec_initialize_result(post, program_id, min_balance) == Err::<(), GasPassError>(
            GasPassError::AlreadyInitialized,
        ),
{
    let rec = spec_initialized_record(pre, nonce);
    assert(pre[1].wf());
    lemma_parse_record_prefix(rec, pre[0].data@.skip(RECORD_LEN as int));
    assert(post[1] == pre[1]);
    assert(post[0].owner@ == pre[0].owner@);
}

/// Authorization gate: where the signer, owner, decode and initialization
/// checks pass but the signing identity differs from the stored authority,
/// Topup and Withdraw fail with `AuthorityMismatch`.  The operations'
/// error postconditions then leave the stored balance and every native
/// balance untouched.
pub proof fn lemma_authority_gate(accounts: Seq<Participant>, amount: u64, program_id: Seq<u8>)
    requires
        accounts.len() >= 3,
        accounts[1].is_signer,
        accounts[0].owner@ == program_id,
        record_bytes_wf(accounts[0].data@),
        spec_parse_record(accounts[0].data@).is_initialized,
        spec_parse_record(accounts[0].data@).authority != accounts[1].identity@,
    ensures
        spec_topup_result(accounts, amount, program_id) == Err::<(), GasPassError>(
            GasPassError::AuthorityMismatch,
        ),
        spec_withdraw_result(accounts, amount, program_id) == Err::<(), GasPassError>(
            GasPassError::AuthorityMismatch,
        ),
{
}

/// Boundary: withdrawing exactly the stored balance succeeds and leaves a
/// zero balance in the rewritten record; withdrawing one unit more fails
/// with `InsufficientBalance`.
pub proof fn lemma_withdraw_boundary(accounts: Seq<Participant>, program_id: Seq<u8>)
    requires
        accounts.len() >= 2,
        accounts[1].is_signer,
        accounts[0].owner@ == program_id,
        record_bytes_wf(accounts[0].data@),
        spec_parse_record(accounts[0].data@).is_initialized,
        spec_parse_record(accounts[0].data@).authority == accounts[1].identity@,
        accounts[0].native_balance >= spec_parse_record(accounts[0].data@).balance,
        accounts[1].native_balance + spec_parse_record(accounts[0].data@).balance <= u64::MAX,
    ensures
        spec_withdraw_result(
            accounts,
            spec_parse_record(accounts[0].data@).balance,
            program_id,
        ) is Ok,
        forall|post: Seq<Participant>|
            #[trigger] spec_withdraw_effect(
                accounts,
                post,
                spec_parse_record(accounts[0].data@).balance,
            ) ==> spec_parse_record(post[0].data@).balance == 0,
        spec_parse_record(accounts[0].data@).balance < u64::MAX
            ==> spec_withdraw_result(
            accounts,
            (spec_parse_record(accounts[0].data@).balance + 1) as u64,
            program_id,
        ) == Err::<(), GasPassError>(GasPassError::InsufficientBalance),
{
    let rec = spec_parse_record(accounts[0].data@);
    let bal = rec.balance;
    assert forall|post: Seq<Participant>| #[trigger] spec_withdraw_effect(
        accounts,
        post,
        bal,
    ) implies spec_parse_record(post[0].data@).balance == 0 by {
        let new_rec = RecordView { balance: (bal - bal) as u64, ..rec };
        assert(rec.authority =~= accounts[0].data@.subrange(1, 33));
        lemma_parse_record_prefix(new_rec, accounts[0].data@.skip(RECORD_LEN as int));
    }
}

/// Each successful operation steps the stored balance exactly as the
/// abstract ledger does — a top-up adds its amount, a submitted
/// transaction charges the fixed fee, a withdrawal subtracts its amount —
/// and rewrites the record with its authority and nonce untouched.
/// Chained with `lemma_conservation`, the stored balance after any run of
/// successful operations from a zero balance equals the run's net total.
pub proof fn lemma_operations_step_ledger(
    pre: Seq<Participant>,
    post: Seq<Participant>,
    amount: u64,
    program_id: Seq<u8>,
)
    ensures
        spec_topup_result(pre, amount, program_id) is Ok && spec_topup_effect(pre, post, amount)
            ==> spec_apply_op(
            spec_parse_record(pre[0].data@).balance,
            LedgerOp::Topup { amount },
        ) == Some(spec_parse_record(post[0].data@).balance)
            && spec_parse_record(post[0].data@).authority == spec_parse_record(
            pre[0].data@,
        ).authority && spec_parse_record(post[0].data@).nonce == spec_parse_record(
            pre[0].data@,
        ).nonce && spec_parse_record(post[0].data@).is_initialized,
        spec_submit_result(pre, program_id) is Ok && spec_submit_effect(pre, post)
            ==> spec_apply_op(
            spec_parse_record(pre[0].data@).balance,
            LedgerOp::SubmitTransaction,
        ) == Some(spec_parse_record(post[0].data@).balance)
            && spec_parse_record(post[0].data@).authority == spec_parse_record(
            pre[0].data@,
        ).authority && spec_parse_record(post[0].data@).nonce == spec_parse_record(
            pre[0].data@,
        ).nonce && spec_parse_record(post[0].data@).is_initialized,
        spec_withdraw_result(pre, amount, program_id) is Ok && spec_withdraw_effect(
            pre,
            post,
            amount,
        ) ==> spec_apply_op(
            spec_parse_record(pre[0].data@).balance,
            LedgerOp::Withdraw { amount },
        ) == Some(spec_parse_record(post[0].data@).balance)
            && spec_parse_record(post[0].data@).authority == spec_parse_record(
            pre[0].data@,
        ).authority && spec_parse_record(post[0].data@).nonce == spec_parse_record(
            pre[0].data@,
        ).nonce && spec_parse_record(post[0].data@).is_initialized,
{
    let rec = spec_parse_record(pre[0].data@);
    let tail = pre[0].data@.skip(RECORD_LEN as int);
    if spec_topup_result(pre, amount, program_id) is Ok && spec_topup_effect(pre, post, amount) {
        assert(rec.authority =~= pre[0].data@.subrange(1, 33));
        lemma_parse_record_prefix(RecordView { balance: (rec.balance + amount) as u64, ..rec }, tail);
    }
    if spec_submit_result(pre, program_id) is Ok && spec_submit_effect(pre, post) {
        assert(rec.authority =~= pre[0].data@.subrange(1, 33));
        lemma_parse_record_prefix(RecordView { balance: (rec.balance - FEE) as u64, ..rec }, tail);
    }
    if spec_withdraw_result(pre, amount, program_id) is Ok && spec_withdraw_effect(
        pre,
        post,
        amount,
    ) {
        assert(rec.authority =~= pre[0].data@.subrange(1, 33));
        lemma_parse_record_prefix(RecordView { balance: (rec.balance - amount) as u64, ..rec }, tail);
    }
}

} // verus!
