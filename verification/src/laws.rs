//! Ledger-wide laws, stated over the models that the operations' contracts
//! use and proved once and for all.

use vstd::prelude::*;

use crate::ledger::has_owner;
use crate::vault::{
    after_deposit, after_withdraw, deposit_fits, fresh_vault, vault_inv, withdraw_fits, VaultModel,
};

verus! {

/// One successful-or-refused step of a vault's life after creation.
pub ghost enum VaultOp {
    Deposit { amount: int },
    Withdraw { amount: int },
}

/// The vault after one operation, or `None` when the operation is refused:
/// a deposit is refused when the lifetime deposit total would leave the
/// representable range, a withdrawal when it is not covered by the balance
/// or its lifetime total would leave the range. A refused operation is the
/// identity on the vault, so only the successful ones appear in a run.
pub open spec fn apply_op(m: VaultModel, op: VaultOp) -> Option<VaultModel> {
    match op {
        VaultOp::Deposit { amount } => if 0 <= amount && deposit_fits(m, amount) {
            Some(after_deposit(m, amount))
        } else {
            None
        },
        VaultOp::Withdraw { amount } => if 0 <= amount <= m.balance && withdraw_fits(m, amount) {
            Some(after_withdraw(m, amount))
        } else {
            None
        },
    }
}

/// The vault after a sequence of operations, all of which succeed.
pub open spec fn apply_ops(m: VaultModel, ops: Seq<VaultOp>) -> Option<VaultModel>
    decreases ops.len(),
{
    if ops.len() == 0 {
        Some(m)
    } else {
        match apply_op(m, ops[0]) {
            Some(m2) => apply_ops(m2, ops.drop_first()),
            None => None,
        }
    }
}

/// Law: after every sequence of successful deposit and withdraw operations
/// on a vault, the spendable balance equals the lifetime deposit total
/// minus the lifetime withdrawal total, both counters stay representable,
/// and the owner is the one set at creation.
pub proof fn lemma_accounting_invariant(m: VaultModel, ops: Seq<VaultOp>)
    requires
        vault_inv(m),
    ensures
        apply_ops(m, ops) matches Some(m2) ==> vault_inv(m2) && m2.balance
            == m2.total_deposited - m2.total_withdrawn && m2.owner == m.owner,
    decreases ops.len(),
{
    if ops.len() > 0 {
        match apply_op(m, ops[0]) {
            Some(m2) => {
                lemma_accounting_invariant(m2, ops.drop_first());
            },
            None => {},
        }
    }
}

/// Law: a vault freshly created for an owner satisfies the accounting
/// invariant, holds nothing, and its totals are zero.
pub proof fn lemma_fresh_vault_inv(owner: Seq<u8>)
    ensures
        vault_inv(fresh_vault(owner)),
        fresh_vault(owner).balance == 0,
        fresh_vault(owner).total_deposited == 0,
        fresh_vault(owner).total_withdrawn == 0,
{
}

/// Law: creating a vault makes its owner present, so a second creation for
/// the same owner meets the `AlreadyExists` arm of `initialize`'s contract
/// and leaves every record unchanged.
pub proof fn lemma_create_is_insert_once(s: Seq<VaultModel>, owner: Seq<u8>)
    ensures
        has_owner(s.push(fresh_vault(owner)), owner),
{
    let s2 = s.push(fresh_vault(owner));
    assert(s2[s.len() as int].owner == owner);
}

/// Law: deposits and withdrawals change no owner, so the set of owners
/// present in the ledger is unchanged by them, and creation stays
/// insert-once across any run of them.
pub proof fn lemma_ops_preserve_owners(s: Seq<VaultModel>, i: int, m2: VaultModel, owner: Seq<u8>)
    requires
        0 <= i < s.len(),
        m2.owner == s[i].owner,
    ensures
        has_owner(s.update(i, m2), owner) == has_owner(s, owner),
{
    let s2 = s.update(i, m2);
    if has_owner(s, owner) {
        let k = choose|k: int| 0 <= k < s.len() && s[k].owner == owner;
        assert(s2[k].owner == owner);
    }
    if has_owner(s2, owner) {
        let k = choose|k: int| 0 <= k < s2.len() && s2[k].owner == owner;
        assert(s[k].owner == owner);
    }
}

/// Law: under the accounting invariant, a withdrawal that is covered by
/// the spendable balance can never push the lifetime withdrawal total past
/// its representable range: the balance check subsumes the overflow check.
pub proof fn lemma_covered_withdraw_fits(m: VaultModel, amount: int)
    requires
        vault_inv(m),
        0 <= amount <= m.balance,
    ensures
        withdraw_fits(m, amount),
{
}

} // verus!
