//! The game's errors, and the checks on deposits and callers that its calls share.
use vstd::prelude::*;
use crate::promise::{CallContext, Effect};
use crate::outside::{storage_byte_cost, storage_price_per_byte};

verus! {

/// Why a call was refused. A refused call changes nothing and schedules nothing; the runtime
/// reports the reason to the caller.
#[derive(Debug, PartialEq, Eq)]
pub enum ContractError {
    /// The contract's state exists already ("The contract is already initialized").
    AlreadyInitialized,
    /// No deposit was attached ("Requires attached deposit of at least 1 yoctoNEAR").
    DepositRequired,
    /// The deposit does not cover the storage used ("Must attach {required} yoctoNEAR to
    /// cover storage").
    InsufficientStorageDeposit { required: u128 },
    /// The caller is not the owner.
    OnlyOwner,
    /// An amount of 0 ("Amount must be not zero!").
    ZeroAmount,
    /// The amount is above the dealer's balance ("Amount exceeds balance").
    AmountExceedsBalance,
    /// A callback was not called with exactly one promise result ("Contract expected a
    /// result on the callback").
    ExpectedOneResult,
    /// A callback was not called with exactly one promise result ("ERR_TOO_MANY_RESULTS").
    TooManyResults,
    /// The promise was not ready.
    PromiseNotReady,
    /// The promise failed ("ERR_CALL_FAILED").
    CallFailed,
    /// A promise result that does not hold a JSON balance.
    InvalidBalance,
    /// A transfer message without the expected fields.
    InvalidMessage,
    /// The caller holds no ticket ("You need to buy a ticket to play this game").
    NoTicket,
    /// The caller has a bet in this roll already ("Already bet").
    AlreadyBet,
    /// The account is not registered.
    UnknownPlayer,
    /// No bet was placed in this roll ("No one place bet").
    NoBet,
    /// An account id that is not valid.
    InvalidAccountId,
    /// An amount or counter that would not fit its integer type.
    Overflow,
}

/// Refuses a call that has no deposit attached.
pub fn assert_at_least_one_yocto(ctx: &CallContext) -> (r: Result<(), ContractError>)
    ensures
        r is Ok <==> ctx.attached_deposit >= 1,
        r is Err ==> r == Err::<(), ContractError>(ContractError::DepositRequired),
{
    if ctx.attached_deposit >= 1 {
        Ok(())
    } else {
        Err(ContractError::DepositRequired)
    }
}

/// Refuses a call that the owner did not make.
pub fn assert_only_owner_access(ctx: &CallContext, owner: &String) -> (r: Result<(), ContractError>)
    ensures
        r is Ok <==> ctx.predecessor_account_id@ == owner@,
        r is Err ==> r == Err::<(), ContractError>(ContractError::OnlyOwner),
{
    if ctx.predecessor_account_id == *owner {
        Ok(())
    } else {
        Err(ContractError::OnlyOwner)
    }
}

/// The price of `storage_used` bytes of storage.
pub open spec fn storage_cost(storage_used: u64) -> int {
    storage_price_per_byte() * storage_used
}

/// Charges the attached deposit for `storage_used` bytes of storage and gives the rest back
/// to the caller: refused when the deposit does not cover the storage; otherwise a transfer
/// of what is left over, when that is more than 1 yoctoNEAR.
pub fn refund_deposit(ctx: &CallContext, storage_used: u64) -> (r: Result<Option<Effect>, ContractError>)
    ensures
        storage_cost(storage_used) > ctx.attached_deposit ==> r == Err::<Option<Effect>, ContractError>(
            ContractError::InsufficientStorageDeposit { required: storage_cost(storage_used) as u128 },
        ),
        storage_cost(storage_used) <= ctx.attached_deposit ==> {
            let refund = ctx.attached_deposit - storage_cost(storage_used);
            &&& refund > 1 ==> r == Ok::<Option<Effect>, ContractError>(
                Some(Effect::Transfer { receiver: ctx.predecessor_account_id, amount: refund as u128 }),
            )
            &&& refund <= 1 ==> r == Ok::<Option<Effect>, ContractError>(None)
        },
{
    let price = storage_byte_cost();
    assert(price * storage_used <= u128::MAX) by (nonlinear_arith)
        requires
            price == 10_000_000_000_000_000_000u128,
            storage_used <= u64::MAX,
    ;
    let required_cost: u128 = price * (storage_used as u128);
    if required_cost > ctx.attached_deposit {
        return Err(ContractError::InsufficientStorageDeposit { required: required_cost });
    }
    let refund: u128 = ctx.attached_deposit - required_cost;
    if refund > 1 {
        Ok(Some(Effect::Transfer { receiver: ctx.predecessor_account_id.clone(), amount: refund }))
    } else {
        Ok(None)
    }
}

} // verus!
