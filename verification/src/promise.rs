//! What a contract call receives from the runtime and what it asks the runtime to do:
//! the call context, the results of the promises it is called back with, and the
//! cross-contract calls and transfers it schedules.
use vstd::prelude::*;

verus! {

/// The facts the runtime gives every call.
#[derive(Debug)]
pub struct CallContext {
    /// The account the contract is deployed on.
    pub current_account_id: String,
    /// The account that signed the transaction.
    pub signer_account_id: String,
    /// The account that made this call (the signer, or a contract in between).
    pub predecessor_account_id: String,
    /// The deposit attached to this call, in yoctoNEAR.
    pub attached_deposit: u128,
}

/// The result of a promise that a callback is called with.
#[derive(Debug)]
pub enum PromiseResult {
    NotReady,
    Successful(Vec<u8>),
    Failed,
}

/// A method of another contract (or of the game itself, for callbacks), with its arguments.
#[derive(Debug)]
pub enum RemoteMethod {
    FtTransfer { receiver_id: String, amount: u128, memo: Option<String> },
    FtTransferCall { receiver_id: String, amount: u128, memo: Option<String>, msg: String },
    FtTotalSupply,
    FtBalanceOf { account_id: String },
    FtResolveTransfer { sender_id: String, receiver_id: String, amount: u128 },
    NftTotalSupply,
    NftSupplyForOwner { account_id: String },
    NftTokens { from_index: Option<u128>, limit: Option<u64> },
    NftTokensForOwner { account_id: String, from_index: Option<u128>, limit: Option<u64> },
    /// `ft_transfer_callback`; the game of [`crate::game`] passes the parity bet on, the
    /// game of [`crate::cash_game`] does not.
    FtTransferCallback { account_id: String, amount: u128, is_even: Option<bool> },
    FtWithdrawCallback { account_id: String, old_account: String },
    FtPayRewardCallback { account_id: String, amount: u128 },
    FtBalanceCallback,
    NftBalanceCallback,
}

/// One function call on a contract, with the deposit and gas attached to it.
#[derive(Debug)]
pub struct ExtCall {
    pub contract: String,
    pub deposit: u128,
    pub gas: u64,
    pub method: RemoteMethod,
}

/// Something a call asks the runtime to do once it returns.
#[derive(Debug)]
pub enum Effect {
    /// A cross-contract call.
    Call(ExtCall),
    /// A cross-contract call, and a second one made once the first has finished.
    Then(ExtCall, ExtCall),
    /// A transfer of NEAR to an account.
    Transfer { receiver: String, amount: u128 },
}

/// The receiving end of cross-contract calls: the contract called, and the deposit and gas
/// attached to each call made through it.
#[derive(Debug)]
pub struct RemoteContract {
    pub account_id: String,
    pub deposit: u128,
    pub gas: u64,
}

impl RemoteContract {
    pub fn new(account_id: String, deposit: u128, gas: u64) -> (r: Self)
        ensures
            r.account_id == account_id,
            r.deposit == deposit,
            r.gas == gas,
    {
        RemoteContract { account_id, deposit, gas }
    }

    /// The call of `method` on this contract.
    pub open spec fn spec_call(&self, method: RemoteMethod) -> ExtCall {
        ExtCall { contract: self.account_id, deposit: self.deposit, gas: self.gas, method }
    }

    /// Makes the call of `method` on this contract.
    pub fn call(&self, method: RemoteMethod) -> (r: ExtCall)
        ensures
            r == self.spec_call(method),
    {
        ExtCall { contract: self.account_id.clone(), deposit: self.deposit, gas: self.gas, method }
    }
}

} // verus!
