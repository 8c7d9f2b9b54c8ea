use vstd::prelude::*;

use crate::errors::TransferError;
use crate::identity::Identity;

verus! {

/// A fungible-token account as the token subsystem exposes it: the address it
/// is stored under, the mint it holds, the identity allowed to debit it, and
/// its balance.
#[derive(Clone, Copy, Debug)]
pub struct TokenAccount {
    /// The address under which the account is stored.
    pub id: Identity,
    /// The mint of the tokens the account holds.
    pub mint: Identity,
    /// The only identity that may authorise debits from this account.
    pub owner: Identity,
    /// The current balance.
    pub balance: u64,
    /// A frozen account can neither be debited nor credited.
    pub frozen: bool,
}

/// When the token subsystem allows `transfer(from, to, authority, amount)`:
/// the authority owns the debited account, neither account is frozen, the
/// mints agree, the source covers the amount, and the credit fits in 64 bits.
pub open spec fn transfer_allowed(
    from: TokenAccount,
    to: TokenAccount,
    authority: Identity,
    amount: u64,
) -> bool {
    &&& authority == from.owner
    &&& !from.frozen
    &&& !to.frozen
    &&& from.mint == to.mint
    &&& amount <= from.balance
    &&& to.balance + amount <= u64::MAX
}

/// The token subsystem's transfer primitive: move `amount` from `from` to
/// `to`, authorised by `authority`. It commits fully or not at all, and it is
/// the only way any account's balance changes.
pub fn transfer(
    from: &mut TokenAccount,
    to: &mut TokenAccount,
    authority: Identity,
    amount: u64,
) -> (r: Result<(), TransferError>)
    ensures
        r is Ok <==> transfer_allowed(*old(from), *old(to), authority, amount),
        r is Ok ==> (*final(from) == TokenAccount {
            balance: (old(from).balance - amount) as u64,
            ..*old(from)
        }),
        r is Ok ==> (*final(to) == TokenAccount {
            balance: (old(to).balance + amount) as u64,
            ..*old(to)
        }),
        r is Err ==> *final(from) == *old(from) && *final(to) == *old(to),
        r == Err::<(), TransferError>(TransferError::NotOwner) <==> authority != old(from).owner,
        r == Err::<(), TransferError>(TransferError::AccountFrozen) <==> (authority == old(
            from,
        ).owner && (old(from).frozen || old(to).frozen)),
        r == Err::<(), TransferError>(TransferError::MintMismatch) <==> (authority == old(
            from,
        ).owner && !old(from).frozen && !old(to).frozen && old(from).mint != old(to).mint),
        r == Err::<(), TransferError>(TransferError::InsufficientBalance) <==> (authority == old(
            from,
        ).owner && !old(from).frozen && !old(to).frozen && old(from).mint == old(to).mint && old(
            from,
        ).balance < amount),
        r == Err::<(), TransferError>(TransferError::BalanceOverflow) <==> (authority == old(
            from,
        ).owner && !old(from).frozen && !old(to).frozen && old(from).mint == old(to).mint && old(
            from,
        ).balance >= amount && old(to).balance + amount > u64::MAX),
{
    if !(authority == from.owner) {
        return Err(TransferError::NotOwner);
    }
    if from.frozen || to.frozen {
        return Err(TransferError::AccountFrozen);
    }
    if !(from.mint == to.mint) {
        return Err(TransferError::MintMismatch);
    }
    if from.balance < amount {
        return Err(TransferError::InsufficientBalance);
    }
    let credited = match to.balance.checked_add(amount) {
        Some(v) => v,
        None => {
            return Err(TransferError::BalanceOverflow);
        },
    };
    from.balance = from.balance - amount;
    to.balance = credited;
    Ok(())
}

} // verus!
