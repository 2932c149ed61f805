//! Accounts, contracts and amounts as the contract sees them.

use vstd::prelude::*;

verus! {

/// An account on the chain, named by its 32 address bytes.
#[derive(Clone, Copy, Debug, PartialEq, Eq)]
pub struct AccountAddress(pub [u8; 32]);

/// A contract instance, named by its index and subindex.
#[derive(Clone, Copy, Debug, PartialEq, Eq)]
pub struct ContractAddress {
    pub index: u64,
    pub subindex: u64,
}

/// Whoever invokes an entry point: an account or another contract.
#[derive(Clone, Copy, Debug, PartialEq, Eq)]
pub enum Address {
    Account(AccountAddress),
    Contract(ContractAddress),
}

/// An amount of the chain's currency, counted in micro units.
#[derive(Clone, Copy, Debug, PartialEq, Eq)]
pub struct Amount {
    pub micro_ccd: u64,
}

impl Amount {
    pub fn from_micro_ccd(micro_ccd: u64) -> (r: Amount)
        ensures
            r.micro_ccd == micro_ccd,
    {
        Amount { micro_ccd }
    }

    pub fn zero() -> (r: Amount)
        ensures
            r.micro_ccd == 0,
    {
        Amount { micro_ccd: 0 }
    }
}

/// Two account addresses are the same account when their bytes agree.
pub fn same_account(a: &AccountAddress, b: &AccountAddress) -> (r: bool)
    ensures
        r == (*a == *b),
{
    let mut i: usize = 0;
    while i < 32
        invariant
            i <= 32,
            forall|j: int| 0 <= j < i ==> a.0[j] == b.0[j],
        decreases 32 - i,
    {
        if a.0[i] != b.0[i] {
            return false;
        }
        i = i + 1;
    }
    assert(a.0 =~= b.0);
    true
}

impl Address {
    /// The address is the given account (and not a contract).
    pub fn matches_account(&self, acc: &AccountAddress) -> (r: bool)
        ensures
            r == (*self == Address::Account(*acc)),
    {
        match self {
            Address::Account(my_acc) => same_account(my_acc, acc),
            Address::Contract(_) => false,
        }
    }
}

} // verus!
