//! The vault ledger: an insert-once keyed store of vault records, one per
//! owner, enforcing authorization and the accounting invariant on every
//! transition. Each operation either applies in full or returns a typed
//! error and leaves every record unchanged.

use vstd::prelude::*;

use crate::errors::ErrorCode;
use crate::vault::{
    after_deposit, after_withdraw, deposit_fits, fresh_vault, vault_inv, withdraw_fits, Identity,
    Vault, VaultModel,
};

verus! {

/// Whether some vault in `s` belongs to `owner`.
pub open spec fn has_owner(s: Seq<VaultModel>, owner: Seq<u8>) -> bool {
    exists|i: int| 0 <= i < s.len() && (#[trigger] s[i]).owner == owner
}

/// The index of the vault belonging to `owner`; meaningful only when
/// `has_owner` holds, and unique under `ledger_inv`.
pub open spec fn owner_index(s: Seq<VaultModel>, owner: Seq<u8>) -> int {
    choose|i: int| 0 <= i < s.len() && (#[trigger] s[i]).owner == owner
}

/// The ledger invariant: at most one vault per owner, and every vault
/// satisfies the accounting invariant.
pub open spec fn ledger_inv(s: Seq<VaultModel>) -> bool {
    &&& forall|i: int, j: int|
        0 <= i < j < s.len() ==> (#[trigger] s[i]).owner != (#[trigger] s[j]).owner
    &&& forall|i: int| 0 <= i < s.len() ==> vault_inv(#[trigger] s[i])
}

/// Under the ledger invariant, an index holding `owner` is the one that
/// `owner_index` denotes.
pub proof fn lemma_owner_index_unique(s: Seq<VaultModel>, owner: Seq<u8>, i: int)
    requires
        ledger_inv(s),
        0 <= i < s.len(),
        s[i].owner == owner,
    ensures
        has_owner(s, owner),
        owner_index(s, owner) == i,
{
    assert(has_owner(s, owner));
    let j = owner_index(s, owner);
    if j < i {
        assert(s[j].owner != s[i].owner);
    } else if i < j {
        assert(s[i].owner != s[j].owner);
    }
}

/// The vault ledger. Its model is the sequence of vault records it holds.
pub struct Ledger {
    vaults: Vec<Vault>,
}

impl View for Ledger {
    type V = Seq<VaultModel>;

    closed spec fn view(&self) -> Seq<VaultModel> {
        self.vaults@.map_values(|v: Vault| v@)
    }
}

impl Ledger {
    /// The ledger's invariant, stated over its model.
    pub open spec fn wf(&self) -> bool {
        ledger_inv(self@)
    }

    /// An empty ledger: no vault exists yet.
    pub fn new() -> (r: Ledger)
        ensures
            r.wf(),
            r@ =~= Seq::<VaultModel>::empty(),
    {
        let r = Ledger { vaults: Vec::new() };
        proof {
            assert(r@ =~= Seq::<VaultModel>::empty());
        }
        r
    }

    /// Locate the vault belonging to `owner`, if any.
    fn find(&self, owner: &Identity) -> (r: Option<usize>)
        ensures
            match r {
                Some(i) => 0 <= i < self@.len() && self@[i as int].owner == owner@,
                None => !has_owner(self@, owner@),
            },
    {
        let mut i: usize = 0;
        while i < self.vaults.len()
            invariant
                i <= self.vaults.len(),
                forall|k: int| 0 <= k < i ==> (#[trigger] self@[k]).owner != owner@,
            decreases self.vaults.len() - i,
        {
            if self.vaults[i].owner == *owner {
                return Some(i);
            }
            i += 1;
        }
        None
    }

    /// Create the vault for `owner`, with zero balance and zeroed lifetime
    /// totals. Creation is insert-once: if a vault for this owner is
    /// already present, the call fails with `AlreadyExists` and the ledger
    /// is unchanged.
    pub fn initialize(&mut self, owner: Identity) -> (r: Result<(), ErrorCode>)
        requires
            old(self).wf(),
        ensures
            final(self).wf(),
            has_owner(old(self)@, owner@) ==> r == Err::<(), ErrorCode>(
                ErrorCode::AlreadyExists,
            ) && final(self)@ =~= old(self)@,
            !has_owner(old(self)@, owner@) ==> r == Ok::<(), ErrorCode>(()) && final(self)@ =~= old(
                self,
            )@.push(fresh_vault(owner@)),
    {
        match self.find(&owner) {
            Some(_) => Err(ErrorCode::AlreadyExists),
            None => {
                let ghost prior = self@;
                let ghost owner_bytes = owner@;
                let vault = Vault { owner, balance: 0, total_deposited: 0, total_withdrawn: 0 };
                self.vaults.push(vault);
                proof {
                    assert(self@ =~= prior.push(fresh_vault(owner_bytes)));
                    assert forall|i: int, j: int|
                        0 <= i < j < self@.len() implies (#[trigger] self@[i]).owner != (
                    #[trigger] self@[j]).owner by {
                        if j == self@.len() - 1 {
                            assert(prior[i].owner != owner_bytes);
                        }
                    }
                    assert(self.wf());
                }
                Ok(())
            },
        }
    }

    /// Overwrite the balance and the lifetime totals of the record at `i`,
    /// keeping its owner.
    fn set_totals(&mut self, i: usize, balance: u64, total_deposited: u64, total_withdrawn: u64)
        requires
            old(self).wf(),
            i < old(self)@.len(),
            total_withdrawn <= total_deposited,
            balance == total_deposited - total_withdrawn,
        ensures
            final(self).wf(),
            final(self)@ =~= old(self)@.update(
                i as int,
                (VaultModel {
                    owner: old(self)@[i as int].owner,
                    balance: balance as int,
                    total_deposited: total_deposited as int,
                    total_withdrawn: total_withdrawn as int,
                }),
            ),
    {
        let ghost prior = self@;
        let mut vault = self.vaults.remove(i);
        vault.balance = balance;
        vault.total_deposited = total_deposited;
        vault.total_withdrawn = total_withdrawn;
        self.vaults.insert(i, vault);
        proof {
            assert(self@ =~= prior.update(i as int, vault@));
            assert forall|p: int, q: int|
                0 <= p < q < self@.len() implies (#[trigger] self@[p]).owner != (
            #[trigger] self@[q]).owner by {
                assert(prior[p].owner != prior[q].owner);
            }
            assert forall|p: int| 0 <= p < self@.len() implies vault_inv(#[trigger] self@[p]) by {
                assert(vault_inv(prior[p]));
            }
        }
    }

    /// Deposit `amount` units into the vault belonging to `vault_owner`.
    /// Any actor may deposit into any existing vault: the result does not
    /// depend on `depositor`. The caller performs the external transfer of
    /// the actual units from the depositor's balance and reports its
    /// outcome as `transfer_ok`; a reported failure is propagated as
    /// `TransferFailed`, and an `Overflow` of the lifetime deposit total
    /// means the transfer must not be left committed, since the ledger
    /// records nothing of it.
    pub fn deposit(
        &mut self,
        vault_owner: &Identity,
        depositor: &Identity,
        amount: u64,
        transfer_ok: bool,
    ) -> (r: Result<(), ErrorCode>)
        requires
            old(self).wf(),
            has_owner(old(self)@, vault_owner@),
        ensures
            final(self).wf(),
            ({
                let i = owner_index(old(self)@, vault_owner@);
                let m = old(self)@[i];
                if !transfer_ok {
                    r == Err::<(), ErrorCode>(ErrorCode::TransferFailed) && final(self)@ =~= old(
                        self,
                    )@
                } else if !deposit_fits(m, amount as int) {
                    r == Err::<(), ErrorCode>(ErrorCode::Overflow) && final(self)@ =~= old(self)@
                } else {
                    r == Ok::<(), ErrorCode>(()) && final(self)@ =~= old(self)@.update(
                        i,
                        after_deposit(m, amount as int),
                    )
                }
            }),
    {
        if !transfer_ok {
            return Err(ErrorCode::TransferFailed);
        }
        let i = match self.find(vault_owner) {
            Some(i) => i,
            None => {
                return vstd::pervasive::unreached();
            },
        };
        proof {
            lemma_owner_index_unique(self@, vault_owner@, i as int);
            assert(vault_inv(self@[i as int]));
        }
        let total = self.vaults[i].total_deposited;
        match total.checked_add(amount) {
            None => Err(ErrorCode::Overflow),
            Some(new_total) => {
                let ghost prior = self@;
                let balance = self.vaults[i].balance;
                let withdrawn = self.vaults[i].total_withdrawn;
                self.set_totals(i, balance + amount, new_total, withdrawn);
                proof {
                    assert(self@ =~= prior.update(
                        i as int,
                        after_deposit(prior[i as int], amount as int),
                    ));
                }
                Ok(())
            },
        }
    }

    /// Withdraw `amount` units from the vault belonging to `vault_owner`,
    /// for the benefit of `recipient`. The checks apply in order: only the
    /// vault owner may withdraw, and the request must be covered by the
    /// spendable balance. On success the caller owes the external transfer
    /// of `amount` units to the recipient's balance; on any error nothing
    /// changed and nothing is owed. The recipient may be anyone, including
    /// a non-owner: the result does not depend on `recipient`.
    pub fn withdraw(
        &mut self,
        vault_owner: &Identity,
        caller: &Identity,
        recipient: &Identity,
        amount: u64,
    ) -> (r: Result<(), ErrorCode>)
        requires
            old(self).wf(),
            has_owner(old(self)@, vault_owner@),
        ensures
            final(self).wf(),
            ({
                let i = owner_index(old(self)@, vault_owner@);
                let m = old(self)@[i];
                if caller@ != vault_owner@ {
                    r == Err::<(), ErrorCode>(ErrorCode::Unauthorized) && final(self)@ =~= old(
                        self,
                    )@
                } else if m.balance < amount {
                    r == Err::<(), ErrorCode>(ErrorCode::InsufficientFunds) && final(self)@ =~= old(
                        self,
                    )@
                } else if !withdraw_fits(m, amount as int) {
                    r == Err::<(), ErrorCode>(ErrorCode::Overflow) && final(self)@ =~= old(self)@
                } else {
                    r == Ok::<(), ErrorCode>(()) && final(self)@ =~= old(self)@.update(
                        i,
                        after_withdraw(m, amount as int),
                    )
                }
            }),
    {
        let i = match self.find(vault_owner) {
            Some(i) => i,
            None => {
                return vstd::pervasive::unreached();
            },
        };
        proof {
            lemma_owner_index_unique(self@, vault_owner@, i as int);
            assert(vault_inv(self@[i as int]));
        }
        if !(self.vaults[i].owner == *caller) {
            return Err(ErrorCode::Unauthorized);
        }
        let balance = self.vaults[i].balance;
        if balance < amount {
            return Err(ErrorCode::InsufficientFunds);
        }
        let withdrawn = self.vaults[i].total_withdrawn;
        match withdrawn.checked_add(amount) {
            None => Err(ErrorCode::Overflow),
            Some(new_total) => {
                let ghost prior = self@;
                let deposited = self.vaults[i].total_deposited;
                self.set_totals(i, balance - amount, deposited, new_total);
                proof {
                    assert(self@ =~= prior.update(
                        i as int,
                        after_withdraw(prior[i as int], amount as int),
                    ));
                }
                Ok(())
            },
        }
    }

    /// Whether a vault for `owner` exists.
    pub fn contains(&self, owner: &Identity) -> (r: bool)
        ensures
            r == has_owner(self@, owner@),
    {
        match self.find(owner) {
            Some(i) => {
                proof {
                    assert(has_owner(self@, owner@));
                }
                true
            },
            None => false,
        }
    }

    /// The vault record for `owner`, if one exists.
    pub fn get(&self, owner: &Identity) -> (r: Option<&Vault>)
        requires
            self.wf(),
        ensures
            match r {
                Some(v) => has_owner(self@, owner@) && v@ == self@[owner_index(self@, owner@)],
                None => !has_owner(self@, owner@),
            },
    {
        match self.find(owner) {
            Some(i) => {
                proof {
                    lemma_owner_index_unique(self@, owner@, i as int);
                }
                Some(&self.vaults[i])
            },
            None => None,
        }
    }

    /// How many vaults exist.
    pub fn vault_count(&self) -> (r: usize)
        ensures
            r == self@.len(),
    {
        self.vaults.len()
    }
}

} // verus!
