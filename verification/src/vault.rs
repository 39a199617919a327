//! The vault record, the identities that act on it, and its mathematical
//! model: one record per owner, tracking the spendable balance and the
//! lifetime accounting totals.

use vstd::prelude::*;

verus! {

/// An account identity: the raw bytes of an account key. The ledger reads
/// nothing of an identity but equality.
#[derive(Debug)]
pub struct Identity {
    bytes: Vec<u8>,
}

impl View for Identity {
    type V = Seq<u8>;

    closed spec fn view(&self) -> Seq<u8> {
        self.bytes@
    }
}

impl Identity {
    pub fn new(bytes: Vec<u8>) -> (r: Identity)
        ensures
            r@ == bytes@,
    {
        Identity { bytes }
    }

    pub fn as_bytes(&self) -> (r: &Vec<u8>)
        ensures
            r@ == self@,
    {
        &self.bytes
    }
}

impl PartialEq for Identity {
    fn eq(&self, other: &Identity) -> (r: bool) {
        let r = self.bytes == other.bytes;
        proof {
            if r {
                assert(self.bytes@ =~= other.bytes@);
            } else {
                assert(self.bytes@ != other.bytes@);
            }
        }
        r
    }
}

impl vstd::std_specs::cmp::PartialEqSpecImpl for Identity {
    open spec fn obeys_eq_spec() -> bool {
        true
    }

    open spec fn eq_spec(&self, other: &Identity) -> bool {
        self@ == other@
    }
}

/// One per-owner vault record: the owner's key, the currently spendable
/// balance, and the monotone lifetime totals of everything ever deposited
/// and withdrawn.
#[derive(Debug)]
pub struct Vault {
    pub owner: Identity,
    pub balance: u64,
    pub total_deposited: u64,
    pub total_withdrawn: u64,
}

/// The mathematical model of a vault record.
#[verifier::ext_equal]
pub ghost struct VaultModel {
    pub owner: Seq<u8>,
    pub balance: int,
    pub total_deposited: int,
    pub total_withdrawn: int,
}

impl View for Vault {
    type V = VaultModel;

    open spec fn view(&self) -> VaultModel {
        VaultModel {
            owner: self.owner@,
            balance: self.balance as int,
            total_deposited: self.total_deposited as int,
            total_withdrawn: self.total_withdrawn as int,
        }
    }
}

/// The accounting invariant of a single vault: the counters stay in the
/// representable range and the spendable balance is exactly the net of the
/// lifetime totals.
pub open spec fn vault_inv(m: VaultModel) -> bool {
    &&& 0 <= m.total_withdrawn <= m.total_deposited <= u64::MAX
    &&& m.balance == m.total_deposited - m.total_withdrawn
}

/// A newly created vault: empty, with zeroed accounting totals.
pub open spec fn fresh_vault(owner: Seq<u8>) -> VaultModel {
    VaultModel { owner: owner, balance: 0, total_deposited: 0, total_withdrawn: 0 }
}

/// Whether a deposit of `amount` keeps the lifetime deposit total
/// representable.
pub open spec fn deposit_fits(m: VaultModel, amount: int) -> bool {
    m.total_deposited + amount <= u64::MAX
}

/// The vault after a successful deposit of `amount`.
pub open spec fn after_deposit(m: VaultModel, amount: int) -> VaultModel {
    VaultModel {
        balance: m.balance + amount,
        total_deposited: m.total_deposited + amount,
        ..m
    }
}

/// Whether a withdrawal of `amount` keeps the lifetime withdrawal total
/// representable.
pub open spec fn withdraw_fits(m: VaultModel, amount: int) -> bool {
    m.total_withdrawn + amount <= u64::MAX
}

/// The vault after a successful withdrawal of `amount`.
pub open spec fn after_withdraw(m: VaultModel, amount: int) -> VaultModel {
    VaultModel {
        balance: m.balance - amount,
        total_withdrawn: m.total_withdrawn + amount,
        ..m
    }
}

} // verus!
