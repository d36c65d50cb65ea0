//! The instruction set and its wire codec.
//!
//! An instruction payload is one discriminant byte followed by the
//! variant's fields: fixed-width little-endian numbers, or, for a
//! transaction body, a 32-bit little-endian length prefix and that many
//! bytes.  Decoding consumes the whole payload; trailing bytes are
//! malformed.

use crate::error::GasPassError;
use vstd::bytes::{
    spec_u32_from_le_bytes, spec_u64_from_le_bytes, u32_from_le_bytes, u64_from_le_bytes,
};
use vstd::prelude::*;
use vstd::slice::slice_subrange;

verus! {

/// Instructions supported by the processor.
#[derive(Debug)]
pub enum GasPassInstruction {
    /// Initialize a new account record.
    ///
    /// Participants expected: the account to initialize (writable), the
    /// account's authority (signer), and the rent context.
    InitializeAccount {
        /// Caller-supplied tag stored in the record.
        nonce: u8,
    },
    /// Top up the account's balance.
    ///
    /// Participants expected: the account (writable), its authority
    /// (signer), and the payer (writable).
    Topup {
        /// Amount to add, in the smallest native unit.
        amount: u64,
    },
    /// Submit a transaction body for execution by a relayer, charging the
    /// fixed fee to the account.
    ///
    /// Participants expected: the account (writable) and the executor
    /// (writable).  The body is metered and charged for, never interpreted.
    SubmitTransaction {
        /// The opaque transaction body.
        transaction: Vec<u8>,
    },
    /// Withdraw from the account's balance.
    ///
    /// Participants expected: the account (writable) and its authority
    /// (signer, writable).
    Withdraw {
        /// Amount to withdraw, in the smallest native unit.
        amount: u64,
    },
}

/// The mathematical value of a decoded instruction.
#[verifier::ext_equal]
pub ghost enum InstructionView {
    InitializeAccount { nonce: u8 },
    Topup { amount: u64 },
    SubmitTransaction { transaction: Seq<u8> },
    Withdraw { amount: u64 },
}

impl GasPassInstruction {
    pub open spec fn view(&self) -> InstructionView {
        match self {
            GasPassInstruction::InitializeAccount { nonce } => {
                InstructionView::InitializeAccount { nonce: *nonce }
            },
            GasPassInstruction::Topup { amount } => InstructionView::Topup { amount: *amount },
            GasPassInstruction::SubmitTransaction { transaction } => {
                InstructionView::SubmitTransaction { transaction: transaction@ }
            },
            GasPassInstruction::Withdraw { amount } => {
                InstructionView::Withdraw { amount: *amount }
            },
        }
    }

    /// Decodes an instruction payload.
    ///
    /// Fails with `MalformedInput` exactly when the payload is not a
    /// complete encoding of one variant.
    pub fn deserialize(input: &[u8]) -> (r: Result<GasPassInstruction, GasPassError>)
        ensures
            r is Ok <==> spec_parse_instruction(input@) is Some,
            r is Ok ==> r->Ok_0@ == spec_parse_instruction(input@)->Some_0,
            r is Err ==> r->Err_0 == GasPassError::MalformedInput,
    {
        if input.len() == 0 {
            return Err(GasPassError::MalformedInput);
        }
        let disc = input[0];
        if disc == 0 {
            if input.len() == 2 {
                Ok(GasPassInstruction::InitializeAccount { nonce: input[1] })
            } else {
                Err(GasPassError::MalformedInput)
            }
        } else if disc == 1 {
            match TopupAgrs::decode(input) {
                Ok(args) => Ok(GasPassInstruction::Topup { amount: args.amount }),
                Err(e) => Err(e),
            }
        } else if disc == 2 {
            if input.len() < 5 {
                return Err(GasPassError::MalformedInput);
            }
            let n = u32_from_le_bytes(slice_subrange(input, 1, 5));
            if (n as usize) != input.len() - 5 {
                return Err(GasPassError::MalformedInput);
            }
            let body = slice_subrange(input, 5, input.len());
            let mut transaction: Vec<u8> = Vec::new();
            let mut i: usize = 0;
            while i < body.len()
                invariant
                    i <= body@.len(),
                    transaction@ == body@.take(i as int),
                decreases body@.len() - i,
            {
                transaction.push(body[i]);
                i += 1;
            }
            proof {
                assert(transaction@ =~= input@.subrange(5, input@.len() as int));
            }
            Ok(GasPassInstruction::SubmitTransaction { transaction })
        } else if disc == 3 {
            match TopupAgrs::decode(input) {
                Ok(args) => Ok(GasPassInstruction::Withdraw { amount: args.amount }),
                Err(e) => Err(e),
            }
        } else {
            Err(GasPassError::MalformedInput)
        }
    }
}

/// The fixed-argument block of a value-bearing instruction: the eight
/// little-endian amount bytes that follow the discriminant.
#[derive(Clone, Debug, PartialEq, Eq, Structural)]
pub struct TopupAgrs {
    /// Amount carried by the instruction, in the smallest native unit.
    pub amount: u64,
}

impl TopupAgrs {
    /// Decodes the amount that follows the discriminant byte.
    ///
    /// Fails with `MalformedInput` unless the payload is exactly one
    /// discriminant byte followed by eight amount bytes.
    pub fn decode(input: &[u8]) -> (r: Result<TopupAgrs, GasPassError>)
        ensures
            r is Ok <==> input@.len() == 9,
            r is Ok ==> r->Ok_0.amount == spec_u64_from_le_bytes(input@.subrange(1, 9)),
            r is Err ==> r->Err_0 == GasPassError::MalformedInput,
    {
        if input.len() != 9 {
            return Err(GasPassError::MalformedInput);
        }
        let amount = u64_from_le_bytes(slice_subrange(input, 1, 9));
        Ok(TopupAgrs { amount })
    }
}

/// The instruction encoded by a payload, if the payload is a complete
/// encoding of one variant.
pub open spec fn spec_parse_instruction(s: Seq<u8>) -> Option<InstructionView> {
    if s.len() == 0 {
        None
    } else if s[0] == 0 {
        if s.len() == 2 {
            Some(InstructionView::InitializeAccount { nonce: s[1] })
        } else {
            None
        }
    } else if s[0] == 1 {
        if s.len() == 9 {
            Some(InstructionView::Topup { amount: spec_u64_from_le_bytes(s.subrange(1, 9)) })
        } else {
            None
        }
    } else if s[0] == 2 {
        if s.len() >= 5 && spec_u32_from_le_bytes(s.subrange(1, 5)) == s.len() - 5 {
            Some(InstructionView::SubmitTransaction { transaction: s.subrange(5, s.len() as int) })
        } else {
            None
        }
    } else if s[0] == 3 {
        if s.len() == 9 {
            Some(InstructionView::Withdraw { amount: spec_u64_from_le_bytes(s.subrange(1, 9)) })
        } else {
            None
        }
    } else {
        None
    }
}

} // verus!
