//! The piggy bank's state machine and the decisions of its entry points.
//!
//! The bank starts `Intact` and can only move to `Smashed`, never back. Each
//! entry point is a function of the call's context, the stored state and the
//! contract's balance; the host stores what comes back and performs the
//! transfer that a smash asks for.

use vstd::prelude::*;
use crate::address::{AccountAddress, Address, Amount};

verus! {

/// The stored state of the bank.
#[derive(Clone, Copy, Debug, PartialEq, Eq, Structural)]
pub enum PiggyBankState {
    Intact,
    Smashed,
}

/// Why a smash was refused.
#[derive(Clone, Copy, Debug, PartialEq, Eq, Structural)]
pub enum SmashError {
    /// The caller is not the account that owns the contract.
    NotOwner,
    /// The bank was smashed before.
    AlreadySmashed,
    /// The host could not pay the balance out to the owner.
    TransferError,
}

/// Why a deposit was refused.
#[derive(Clone, Copy, Debug, PartialEq, Eq, Structural)]
pub enum InsertError {
    /// The bank is smashed and takes no more deposits.
    AlreadySmashed,
}

/// What the host tells an entry point about the call.
#[derive(Clone, Copy, Debug, PartialEq, Eq)]
pub struct CallContext {
    /// The account that owns the contract.
    pub owner: AccountAddress,
    /// Whoever invoked the entry point.
    pub sender: Address,
}

/// A payment that the contract asks the host to make from its balance.
#[derive(Clone, Copy, Debug, PartialEq, Eq)]
pub struct Transfer {
    pub to: AccountAddress,
    pub amount: Amount,
}

impl CallContext {
    pub open spec fn sent_by_owner(self) -> bool {
        self.sender == Address::Account(self.owner)
    }
}

/// The result of a deposit into a bank in state `state`.
pub open spec fn insert_spec(state: PiggyBankState) -> Result<(), InsertError> {
    match state {
        PiggyBankState::Intact => Ok(()),
        PiggyBankState::Smashed => Err(InsertError::AlreadySmashed),
    }
}

/// The state left and the result of a smash, before any transfer is made:
/// the caller is checked first, then the state; a smash that passes both
/// marks the bank smashed and pays the whole balance to the owner.
pub open spec fn smash_spec(ctx: CallContext, state: PiggyBankState, balance: Amount) -> (
    PiggyBankState,
    Result<Transfer, SmashError>,
) {
    if !ctx.sent_by_owner() {
        (state, Err(SmashError::NotOwner))
    } else if state != PiggyBankState::Intact {
        (state, Err(SmashError::AlreadySmashed))
    } else {
        (PiggyBankState::Smashed, Ok(Transfer { to: ctx.owner, amount: balance }))
    }
}

/// The result of a smash once the host has tried the transfer.
pub open spec fn settle_spec(transfer_succeeded: bool) -> Result<(), SmashError> {
    if transfer_succeeded {
        Ok(())
    } else {
        Err(SmashError::TransferError)
    }
}

/// What a view of the bank returns.
pub open spec fn view_spec(state: PiggyBankState, balance: Amount) -> (PiggyBankState, Amount) {
    (state, balance)
}

/// A new bank is intact.
pub fn piggy_init() -> (r: PiggyBankState)
    ensures
        r == PiggyBankState::Intact,
{
    PiggyBankState::Intact
}

/// A deposit of `amount` is accepted exactly when the bank is intact. The
/// amount itself is credited by the host when the call is accepted.
pub fn piggy_insert(state: &PiggyBankState, amount: Amount) -> (r: Result<(), InsertError>)
    ensures
        r is Ok <==> *state == PiggyBankState::Intact,
        r == insert_spec(*state),
{
    match state {
        PiggyBankState::Intact => Ok(()),
        PiggyBankState::Smashed => Err(InsertError::AlreadySmashed),
    }
}

/// Smashes the bank holding `balance`. Only the owner may smash it, and only
/// once: a smash that is allowed marks the bank smashed and returns the one
/// transfer, of the whole balance to the owner, that the host is to make. A
/// refused smash leaves the state as it was.
pub fn piggy_smash(ctx: &CallContext, state: &mut PiggyBankState, balance: Amount) -> (r: Result<
    Transfer,
    SmashError,
>)
    ensures
        (*final(state), r) == smash_spec(*ctx, *old(state), balance),
        !ctx.sent_by_owner() ==> r == Err::<Transfer, SmashError>(SmashError::NotOwner)
            && *final(state) == *old(state),
        ctx.sent_by_owner() && *old(state) == PiggyBankState::Smashed ==> r == Err::<
            Transfer,
            SmashError,
        >(SmashError::AlreadySmashed) && *final(state) == PiggyBankState::Smashed,
        ctx.sent_by_owner() && *old(state) == PiggyBankState::Intact ==> r == Ok::<
            Transfer,
            SmashError,
        >(Transfer { to: ctx.owner, amount: balance }) && *final(state)
            == PiggyBankState::Smashed,
        *old(state) == PiggyBankState::Smashed ==> *final(state) == PiggyBankState::Smashed,
{
    let owner = ctx.owner;
    if !ctx.sender.matches_account(&owner) {
        return Err(SmashError::NotOwner);
    }
    match state {
        PiggyBankState::Intact => {},
        PiggyBankState::Smashed => {
            return Err(SmashError::AlreadySmashed);
        },
    }
    *state = PiggyBankState::Smashed;
    Ok(Transfer { to: owner, amount: balance })
}

/// The result of a smash, given whether the host made the transfer that
/// `piggy_smash` asked for. The bank stays smashed either way.
pub fn smash_settled(transfer_succeeded: bool) -> (r: Result<(), SmashError>)
    ensures
        r == settle_spec(transfer_succeeded),
        r is Ok <==> transfer_succeeded,
{
    if transfer_succeeded {
        Ok(())
    } else {
        Err(SmashError::TransferError)
    }
}

/// The stored state and the contract's balance, as anyone may read them.
pub fn piggy_view(state: &PiggyBankState, balance: Amount) -> (r: (PiggyBankState, Amount))
    ensures
        r == view_spec(*state, balance),
        r == (*state, balance),
{
    (*state, balance)
}

} // verus!
