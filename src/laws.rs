//! Properties of the bank over more than one call.

use vstd::prelude::*;
use crate::address::{Address, Amount};
use crate::bank::{
    insert_spec, settle_spec, smash_spec, view_spec, CallContext, InsertError, PiggyBankState,
    SmashError, Transfer,
};

verus! {

/// The contract's balance once the host has paid out `t` from `balance`.
pub open spec fn balance_after(balance: Amount, t: Transfer) -> Amount {
    Amount { micro_ccd: (balance.micro_ccd - t.amount.micro_ccd) as u64 }
}

/// A smashed bank stays smashed, whoever calls smash and whatever it holds.
pub proof fn lemma_smashed_is_final(ctx: CallContext, balance: Amount)
    ensures
        smash_spec(ctx, PiggyBankState::Smashed, balance).0 == PiggyBankState::Smashed,
        insert_spec(smash_spec(ctx, PiggyBankState::Smashed, balance).0) is Err,
{
}

/// Once a smash has gone through, the bank takes no more deposits.
pub proof fn lemma_no_deposit_after_smash(
    ctx: CallContext,
    state: PiggyBankState,
    balance: Amount,
)
    requires
        smash_spec(ctx, state, balance).1 is Ok,
    ensures
        insert_spec(smash_spec(ctx, state, balance).0) == Err::<(), InsertError>(
            InsertError::AlreadySmashed,
        ),
{
}

/// When the owner smashes the bank twice, the second smash fails with
/// `AlreadySmashed`, whatever the state before the first and whether or not
/// the first one's transfer went through.
pub proof fn lemma_second_smash_fails(
    ctx: CallContext,
    state: PiggyBankState,
    first_balance: Amount,
    second_balance: Amount,
)
    requires
        ctx.sender == Address::Account(ctx.owner),
    ensures
        smash_spec(ctx, smash_spec(ctx, state, first_balance).0, second_balance) == (
            PiggyBankState::Smashed,
            Err::<Transfer, SmashError>(SmashError::AlreadySmashed),
        ),
{
}

/// When the owner smashes an intact bank and the host makes the transfer
/// asked for, the smash succeeds and a view then shows the bank smashed and
/// empty.
pub proof fn lemma_view_after_smash(ctx: CallContext, balance: Amount)
    requires
        ctx.sender == Address::Account(ctx.owner),
    ensures
        smash_spec(ctx, PiggyBankState::Intact, balance).1 is Ok,
        settle_spec(true) is Ok,
        view_spec(
            smash_spec(ctx, PiggyBankState::Intact, balance).0,
            balance_after(balance, smash_spec(ctx, PiggyBankState::Intact, balance).1->Ok_0),
        ) == (PiggyBankState::Smashed, Amount { micro_ccd: 0 }),
{
}

} // verus!
