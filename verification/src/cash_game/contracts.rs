//! The contracts that the cash game talks to, as interfaces that build the calls it makes on
//! them, and the amounts it uses.
use vstd::prelude::*;
use crate::promise::{CallContext, Effect, ExtCall, PromiseResult, RemoteContract, RemoteMethod};
use crate::util::ContractError;

verus! {

pub const DEPOSIT_ONE_YOCTO: u128 = 1;
pub const NO_DEPOSIT: u128 = 0;
pub const FT_TRANSFER_GAS: u64 = 10_000_000_000_000;
pub const FT_HARVEST_CALLBACK_GAS: u64 = 10_000_000_000_000;
/// 0.01 NEAR.
pub const PRICE_PER_BET: u128 = 10_000_000_000_000_000_000_000;
pub const TOTAL_SUPPLY: u128 = 1_000_000_000_000_000;

/// A contract that accepts transfers of fungible tokens with a message.
pub trait FungibleTokenReceiver {
    /// Handles `amount` tokens sent by `sender_id` with `msg`; gives back the amount not used
    /// and the calls to make.
    fn ft_on_transfer(
        &mut self,
        ctx: &CallContext,
        results: &Vec<PromiseResult>,
        sender_id: String,
        amount: u128,
        msg: String,
    ) -> Result<(u128, Vec<Effect>), ContractError>;
}

/// The transfer call of a fungible-token contract. (The cash game makes its calls on the
/// cash contract through [`TokenCash`].)
pub trait FungibleToken {
    fn ft_transfer(&self, receiver_id: String, amount: u128, memo: Option<String>) -> ExtCall;
}

/// The callbacks the cash game makes on itself.
pub trait ExtStakingContract {
    fn ft_transfer_callback(&self, amount: u128, account_id: String) -> ExtCall;

    fn ft_withdraw_callback(&self, account_id: String, old_account: String) -> ExtCall;
}

/// The calls of the ticket contract.
pub trait TokenTicket {
    fn nft_total_supply(&self) -> ExtCall;

    fn nft_tokens(&self, from_index: Option<u128>, limit: Option<u64>) -> ExtCall;

    fn nft_supply_for_owner(&self, account_id: String) -> ExtCall;

    fn nft_tokens_for_owner(&self, account_id: String, from_index: Option<u128>, limit: Option<u64>) -> ExtCall;
}

/// The calls of the cash contract.
pub trait TokenCash {
    fn ft_transfer(&self, receiver_id: String, amount: u128, memo: Option<String>) -> ExtCall;

    fn ft_transfer_call(&self, receiver_id: String, amount: u128, memo: Option<String>, msg: String) -> ExtCall;

    fn ft_total_supply(&self) -> ExtCall;

    fn ft_balance_of(&self, account_id: String) -> ExtCall;

    fn ft_resolve_transfer(&self, sender_id: String, receiver_id: String, amount: u128) -> ExtCall;
}

impl ExtStakingContract for RemoteContract {
    fn ft_transfer_callback(&self, amount: u128, account_id: String) -> (r: ExtCall)
        ensures
            r == self.spec_call(RemoteMethod::FtTransferCallback { account_id, amount, is_even: None }),
    {
        self.call(RemoteMethod::FtTransferCallback { account_id, amount, is_even: None })
    }

    fn ft_withdraw_callback(&self, account_id: String, old_account: String) -> (r: ExtCall)
        ensures
            r == self.spec_call(RemoteMethod::FtWithdrawCallback { account_id, old_account }),
    {
        self.call(RemoteMethod::FtWithdrawCallback { account_id, old_account })
    }
}

impl TokenTicket for RemoteContract {
    fn nft_total_supply(&self) -> (r: ExtCall)
        ensures
            r == self.spec_call(RemoteMethod::NftTotalSupply),
    {
        self.call(RemoteMethod::NftTotalSupply)
    }

    fn nft_tokens(&self, from_index: Option<u128>, limit: Option<u64>) -> (r: ExtCall)
        ensures
            r == self.spec_call(RemoteMethod::NftTokens { from_index, limit }),
    {
        self.call(RemoteMethod::NftTokens { from_index, limit })
    }

    fn nft_supply_for_owner(&self, account_id: String) -> (r: ExtCall)
        ensures
            r == self.spec_call(RemoteMethod::NftSupplyForOwner { account_id }),
    {
        self.call(RemoteMethod::NftSupplyForOwner { account_id })
    }

    fn nft_tokens_for_owner(&self, account_id: String, from_index: Option<u128>, limit: Option<u64>) -> (r: ExtCall)
        ensures
            r == self.spec_call(RemoteMethod::NftTokensForOwner { account_id, from_index, limit }),
    {
        self.call(RemoteMethod::NftTokensForOwner { account_id, from_index, limit })
    }
}

impl TokenCash for RemoteContract {
    fn ft_transfer(&self, receiver_id: String, amount: u128, memo: Option<String>) -> (r: ExtCall)
        ensures
            r == self.spec_call(RemoteMethod::FtTransfer { receiver_id, amount, memo }),
    {
        self.call(RemoteMethod::FtTransfer { receiver_id, amount, memo })
    }

    fn ft_transfer_call(&self, receiver_id: String, amount: u128, memo: Option<String>, msg: String) -> (r: ExtCall)
        ensures
            r == self.spec_call(RemoteMethod::FtTransferCall { receiver_id, amount, memo, msg }),
    {
        self.call(RemoteMethod::FtTransferCall { receiver_id, amount, memo, msg })
    }

    fn ft_total_supply(&self) -> (r: ExtCall)
        ensures
            r == self.spec_call(RemoteMethod::FtTotalSupply),
    {
        self.call(RemoteMethod::FtTotalSupply)
    }

    fn ft_balance_of(&self, account_id: String) -> (r: ExtCall)
        ensures
            r == self.spec_call(RemoteMethod::FtBalanceOf { account_id }),
    {
        self.call(RemoteMethod::FtBalanceOf { account_id })
    }

    fn ft_resolve_transfer(&self, sender_id: String, receiver_id: String, amount: u128) -> (r: ExtCall)
        ensures
            r == self.spec_call(RemoteMethod::FtResolveTransfer { sender_id, receiver_id, amount }),
    {
        self.call(RemoteMethod::FtResolveTransfer { sender_id, receiver_id, amount })
    }
}

} // verus!
