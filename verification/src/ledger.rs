//! The abstract ledger: what a sequence of successful balance mutations
//! does to the record's balance.

use vstd::prelude::*;

verus! {

/// Fixed fee charged for each submitted transaction, in the smallest
/// native unit.
pub const FEE: u64 = 50000;

/// One balance mutation, abstracted from the operation that performs it.
#[derive(Clone, Copy, Debug, PartialEq, Eq, Structural)]
pub enum LedgerOp {
    /// Adds the amount to the balance.
    Topup { amount: u64 },
    /// Charges the fixed fee.
    SubmitTransaction,
    /// Subtracts the amount from the balance.
    Withdraw { amount: u64 },
}

/// The balance after one successful mutation, or `None` where the mutation
/// must be refused: an addition past `u64::MAX`, or a debit past zero.
pub open spec fn spec_apply_op(balance: u64, op: LedgerOp) -> Option<u64> {
    match op {
        LedgerOp::Topup { amount } => if balance + amount <= u64::MAX {
            Some((balance + amount) as u64)
        } else {
            None
        },
        LedgerOp::SubmitTransaction => if balance >= FEE {
            Some((balance - FEE) as u64)
        } else {
            None
        },
        LedgerOp::Withdraw { amount } => if balance >= amount {
            Some((balance - amount) as u64)
        } else {
            None
        },
    }
}

/// The balance after a sequence of mutations, or `None` as soon as one of
/// them must be refused.
pub open spec fn spec_apply_ops(balance: u64, ops: Seq<LedgerOp>) -> Option<u64>
    decreases ops.len(),
{
    if ops.len() == 0 {
        Some(balance)
    } else {
        match spec_apply_op(balance, ops[0]) {
            Some(b) => spec_apply_ops(b, ops.drop_first()),
            None => None,
        }
    }
}

/// The net value of a sequence of mutations: the sum of the top-up amounts,
/// minus the fee for each submitted transaction, minus the sum of the
/// withdrawn amounts.
pub open spec fn spec_net_total(ops: Seq<LedgerOp>) -> int
    decreases ops.len(),
{
    if ops.len() == 0 {
        0
    } else {
        (match ops[0] {
            LedgerOp::Topup { amount } => amount as int,
            LedgerOp::SubmitTransaction => -(FEE as int),
            LedgerOp::Withdraw { amount } => -(amount as int),
        }) + spec_net_total(ops.drop_first())
    }
}

proof fn lemma_apply_ops_net(balance: u64, ops: Seq<LedgerOp>)
    requires
        spec_apply_ops(balance, ops) is Some,
    ensures
        spec_apply_ops(balance, ops)->Some_0 == balance + spec_net_total(ops),
    decreases ops.len(),
{
    if ops.len() != 0 {
        let b = spec_apply_op(balance, ops[0])->Some_0;
        lemma_apply_ops_net(b, ops.drop_first());
    }
}

proof fn lemma_apply_ops_prefix(balance: u64, ops: Seq<LedgerOp>, i: int)
    requires
        spec_apply_ops(balance, ops) is Some,
        0 <= i <= ops.len(),
    ensures
        spec_apply_ops(balance, ops.take(i)) is Some,
    decreases i,
{
    if i > 0 {
        let b = spec_apply_op(balance, ops[0])->Some_0;
        lemma_apply_ops_prefix(b, ops.drop_first(), i - 1);
        assert(ops.take(i).drop_first() =~= ops.drop_first().take(i - 1));
        assert(ops.take(i)[0] == ops[0]);
    } else {
        assert(ops.take(0) =~= Seq::<LedgerOp>::empty());
    }
}

/// Conservation: along any sequence of successful mutations starting from
/// balance 0, the balance after every prefix equals the prefix's net total
/// — the sum of the top-up amounts, minus the fee for each submitted
/// transaction, minus the withdrawn amounts — and that total is never
/// negative.
pub proof fn lemma_conservation(ops: Seq<LedgerOp>)
    requires
        spec_apply_ops(0, ops) is Some,
    ensures
        forall|i: int|
            0 <= i <= ops.len() ==> spec_apply_ops(0, #[trigger] ops.take(i)) == Some(
                spec_net_total(ops.take(i)) as u64,
            ),
        forall|i: int| 0 <= i <= ops.len() ==> 0 <= spec_net_total(#[trigger] ops.take(i)),
{
    assert forall|i: int| 0 <= i <= ops.len() implies spec_apply_ops(0, #[trigger] ops.take(i))
        == Some(spec_net_total(ops.take(i)) as u64) && 0 <= spec_net_total(ops.take(i)) by {
        lemma_apply_ops_prefix(0, ops, i);
        lemma_apply_ops_net(0, ops.take(i));
        let b = spec_apply_ops(0, ops.take(i))->Some_0;
        assert(b == 0 + spec_net_total(ops.take(i)));
    }
}

} // verus!
