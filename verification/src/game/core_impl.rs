//! The contracts the game talks to, as interfaces that build the calls it makes on them, and
//! the deposit and gas it attaches to those calls.
use vstd::prelude::*;
use crate::promise::{CallContext, Effect, ExtCall, PromiseResult, RemoteContract, RemoteMethod};
use crate::util::ContractError;

verus! {

pub const FT_TRANSFER_GAS: u64 = 10_000_000_000_000;
pub const FT_CALL_GAS: u64 = 10_000_000_000_000;
pub const WITHDRAW_CALLBACK_GAS: u64 = 10_000_000_000_000;
pub const PAY_REWARD_CALLBACK_GAS: u64 = 10_000_000_000_000;
pub const NO_DEPOSIT: u128 = 0;
pub const DEPOSIT_ONE_YOCTOR: u128 = 1;

/// A contract that accepts transfers of fungible tokens with a message.
pub trait FungibleTokenReceiver {
    /// The receiver's invariant.
    spec fn receiver_inv(&self) -> bool;

    /// Handles `amount` tokens sent by `sender_id` with `msg`; gives back the amount not used
    /// and the calls to make.
    fn ft_on_transfer(
        &mut self,
        ctx: &CallContext,
        results: &Vec<PromiseResult>,
        sender_id: String,
        amount: u128,
        msg: String,
    ) -> (r: Result<(u128, Vec<Effect>), ContractError>)
        requires
            old(self).receiver_inv(),
        ensures
            final(self).receiver_inv(),
    ;
}

/// The calls of a fungible-token contract (the cash).
pub trait FungibleTokenCore {
    fn ft_transfer(&self, receiver_id: String, amount: u128, memo: Option<String>) -> ExtCall;

    fn ft_transfer_call(&self, receiver_id: String, amount: u128, msg: String, memo: Option<String>) -> ExtCall;

    fn ft_total_supply(&self) -> ExtCall;

    fn ft_balance_of(&self, account_id: String) -> ExtCall;
}

/// The calls of a non-fungible-token contract (the tickets).
pub trait NonFungibleTokenCore {
    fn nft_total_supply(&self) -> ExtCall;

    fn nft_supply_for_owner(&self, account_id: String) -> ExtCall;

    fn nft_tokens(&self, from_index: Option<u128>, limit: Option<u64>) -> ExtCall;

    fn nft_tokens_for_owner(&self, account_id: String, from_index: Option<u128>, limit: Option<u64>) -> ExtCall;
}

/// The callbacks the game makes on itself.
pub trait ExtStakingContract {
    fn ft_transfer_callback(&self, account_id: String, amount: u128, is_even: bool) -> ExtCall;

    fn ft_pay_reward_callback(&self, account_id: String, amount: u128) -> ExtCall;

    fn ft_balance_callback(&self) -> ExtCall;

    fn nft_balance_callback(&self) -> ExtCall;
}

impl FungibleTokenCore for RemoteContract {
    fn ft_transfer(&self, receiver_id: String, amount: u128, memo: Option<String>) -> (r: ExtCall)
        ensures
            r == self.spec_call(RemoteMethod::FtTransfer { receiver_id, amount, memo }),
    {
        self.call(RemoteMethod::FtTransfer { receiver_id, amount, memo })
    }

    fn ft_transfer_call(&self, receiver_id: String, amount: u128, msg: String, memo: Option<String>) -> (r: ExtCall)
        ensures
            r == self.spec_call(RemoteMethod::FtTransferCall { receiver_id, amount, memo, msg }),
    {
        self.call(RemoteMethod::FtTransferCall { receiver_id, amount, memo, msg })
    }

    fn ft_total_supply(&self) -> (r: ExtCall)
        ensures
            r == self.spec_call(RemoteMethod::FtTotalSupply),
    {
        self.call(RemoteMethod::FtTotalSupply)
    }

    fn ft_balance_of(&self, account_id: String) -> (r: ExtCall)
        ensures
            r == self.spec_call(RemoteMethod::FtBalanceOf { account_id }),
    {
        self.call(RemoteMethod::FtBalanceOf { account_id })
    }
}

impl NonFungibleTokenCore for RemoteContract {
    fn nft_total_supply(&self) -> (r: ExtCall)
        ensures
            r == self.spec_call(RemoteMethod::NftTotalSupply),
    {
        self.call(RemoteMethod::NftTotalSupply)
    }

    fn nft_supply_for_owner(&self, account_id: String) -> (r: ExtCall)
        ensures
            r == self.spec_call(RemoteMethod::NftSupplyForOwner { account_id }),
    {
        self.call(RemoteMethod::NftSupplyForOwner { account_id })
    }

    fn nft_tokens(&self, from_index: Option<u128>, limit: Option<u64>) -> (r: ExtCall)
        ensures
            r == self.spec_call(RemoteMethod::NftTokens { from_index, limit }),
    {
        self.call(RemoteMethod::NftTokens { from_index, limit })
    }

    fn nft_tokens_for_owner(&self, account_id: String, from_index: Option<u128>, limit: Option<u64>) -> (r: ExtCall)
        ensures
            r == self.spec_call(RemoteMethod::NftTokensForOwner { account_id, from_index, limit }),
    {
        self.call(RemoteMethod::NftTokensForOwner { account_id, from_index, limit })
    }
}

impl ExtStakingContract for RemoteContract {
    fn ft_transfer_callback(&self, account_id: String, amount: u128, is_even: bool) -> (r: ExtCall)
        ensures
            r == self.spec_call(RemoteMethod::FtTransferCallback { account_id, amount, is_even: Some(is_even) }),
    {
        self.call(RemoteMethod::FtTransferCallback { account_id, amount, is_even: Some(is_even) })
    }

    fn ft_pay_reward_callback(&self, account_id: String, amount: u128) -> (r: ExtCall)
        ensures
            r == self.spec_call(RemoteMethod::FtPayRewardCallback { account_id, amount }),
    {
        self.call(RemoteMethod::FtPayRewardCallback { account_id, amount })
    }

    fn ft_balance_callback(&self) -> (r: ExtCall)
        ensures
            r == self.spec_call(RemoteMethod::FtBalanceCallback),
    {
        self.call(RemoteMethod::FtBalanceCallback)
    }

    fn nft_balance_callback(&self) -> (r: ExtCall)
        ensures
            r == self.spec_call(RemoteMethod::NftBalanceCallback),
    {
        self.call(RemoteMethod::NftBalanceCallback)
    }
}

} // verus!
