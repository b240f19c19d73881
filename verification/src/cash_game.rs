//! The cash game: the same even/odd game, settled through the cash contract's
//! `ft_resolve_transfer`, with account ids checked for validity where it hands them on.
use vstd::prelude::*;
use vstd::utf8::encode_utf8;
use crate::players::{PlayerMap, PlayerView};
use crate::promise::{CallContext, Effect, ExtCall, RemoteContract, RemoteMethod};
use crate::outside::{is_valid_account_id, random_in_range, valid_account_id};
use crate::util::ContractError;
use crate::game::{call_is, reset_players};
use self::contracts::{ExtStakingContract, TokenCash, TokenTicket, FT_TRANSFER_GAS, NO_DEPOSIT};

pub mod contracts;

verus! {

/// The gas attached to the question to the ticket contract.
pub const TICKET_QUERY_GAS: u64 = 25_000_000_000_000;

/// The cash game's state.
pub struct EvenOddContract {
    owner: String,
    cash: String,
    ticket: String,
    players_array: Vec<String>,
    players: PlayerMap,
    total_bet_amount: usize,
    total_bet_amount_per_roll: usize,
    roll_id: usize,
}

/// The mathematical value of the cash game's state.
#[verifier::ext_equal]
pub struct CashGameState {
    pub owner: Seq<char>,
    pub cash: Seq<char>,
    pub ticket: Seq<char>,
    pub players_array: Seq<Seq<char>>,
    pub players: Map<Seq<char>, PlayerView>,
    pub total_bet_amount: usize,
    pub total_bet_amount_per_roll: usize,
    pub roll_id: usize,
}

impl View for EvenOddContract {
    type V = CashGameState;

    closed spec fn view(&self) -> CashGameState {
        CashGameState {
            owner: self.owner@,
            cash: self.cash@,
            ticket: self.ticket@,
            players_array: self.players_array@.map_values(|a: String| a@),
            players: self.players@,
            total_bet_amount: self.total_bet_amount,
            total_bet_amount_per_roll: self.total_bet_amount_per_roll,
            roll_id: self.roll_id,
        }
    }
}

/// What every reachable state satisfies: every account in `players_array` has a record, and
/// every record is filed under its own account.
pub open spec fn cash_state_inv(s: CashGameState) -> bool {
    &&& forall|i: int| 0 <= i < s.players_array.len() ==> s.players.contains_key(#[trigger] s.players_array[i])
    &&& forall|k: Seq<char>| #[trigger] s.players.contains_key(k) ==> s.players[k].player == k
}

/// `id` is a valid NEAR account id.
pub open spec fn valid_account(id: Seq<char>) -> bool {
    valid_account_id(encode_utf8(id))
}

/// `c` asks the cash contract to move `amount` from `sender` to `receiver`, with `deposit`
/// attached.
pub open spec fn resolve_call(c: ExtCall, cash: Seq<char>, deposit: u128, sender: Seq<char>, receiver: Seq<char>, amount: u128) -> bool {
    &&& call_is(c, cash, deposit, FT_TRANSFER_GAS)
    &&& match c.method {
        RemoteMethod::FtResolveTransfer { sender_id, receiver_id, amount: a } => {
            sender_id@ == sender && receiver_id@ == receiver && a == amount
        },
        _ => false,
    }
}

/// `e` pays `amount` from the game's account to `receiver`.
pub open spec fn cash_payment(e: Effect, cash: Seq<char>, current: Seq<char>, receiver: Seq<char>, amount: u128) -> bool {
    match e {
        Effect::Call(c) => resolve_call(c, cash, NO_DEPOSIT, current, receiver, amount),
        _ => false,
    }
}

/// What paying `amount` to `account` comes to: the receiver (the caller when `account` is
/// the owner, else the account's record), or why it is refused.
pub open spec fn money_receiver(s: CashGameState, ctx: CallContext, account: Seq<char>) -> Result<Seq<char>, ContractError> {
    if !valid_account(ctx.current_account_id@) {
        Err(ContractError::InvalidAccountId)
    } else if account == s.owner {
        if valid_account(ctx.predecessor_account_id@) {
            Ok(ctx.predecessor_account_id@)
        } else {
            Err(ContractError::InvalidAccountId)
        }
    } else if !s.players.contains_key(account) {
        Err(ContractError::UnknownPlayer)
    } else if !valid_account(s.players[account].player) {
        Err(ContractError::InvalidAccountId)
    } else {
        Ok(s.players[account].player)
    }
}

/// The payments to the first `n` listed players of a roll whose dice add up to an even
/// number exactly when `is_even`: each winner (a player who bet on that parity) is paid
/// twice the bet; or the error that stops the roll at the first winner who cannot be paid.
pub open spec fn cash_payments(s: CashGameState, ctx: CallContext, is_even: bool, n: int) -> Result<Seq<(Seq<char>, u128)>, ContractError>
    decreases n,
{
    if n <= 0 {
        Ok(Seq::empty())
    } else {
        match cash_payments(s, ctx, is_even, n - 1) {
            Err(e) => Err(e),
            Ok(paid) => {
                let account = s.players_array[n - 1];
                let p = s.players[account];
                if p.is_even != is_even {
                    Ok(paid)
                } else if p.bet_amount * 2 > u128::MAX {
                    Err(ContractError::Overflow)
                } else {
                    match money_receiver(s, ctx, account) {
                        Err(e) => Err(e),
                        Ok(receiver) => Ok(paid.push((receiver, (p.bet_amount * 2) as u128))),
                    }
                }
            },
        }
    }
}

/// A refused payment stops the roll: later players change nothing.
pub proof fn lemma_cash_payments_stop(s: CashGameState, ctx: CallContext, is_even: bool, k: int, n: int)
    requires
        k <= n,
        cash_payments(s, ctx, is_even, k) is Err,
    ensures
        cash_payments(s, ctx, is_even, n) == cash_payments(s, ctx, is_even, k),
    decreases n - k,
{
    if k < n {
        lemma_cash_payments_stop(s, ctx, is_even, k, n - 1);
    }
}

/// The listed players who bet on the parity rolled.
pub open spec fn bet_on(players: Map<Seq<char>, PlayerView>, is_even: bool) -> spec_fn(Seq<char>) -> bool {
    |k: Seq<char>| players[k].is_even == is_even
}

/// When a roll's payments can all be made, they go, in list order, to each listed player who
/// bet on the parity rolled, as often as listed: twice the bet, to the receiver that
/// `money_receiver` names.
pub proof fn law_cash_payments_pay_the_winners(s: CashGameState, ctx: CallContext, is_even: bool, n: int)
    requires
        0 <= n <= s.players_array.len(),
        cash_payments(s, ctx, is_even, n) is Ok,
    ensures
        (cash_payments(s, ctx, is_even, n)->Ok_0) =~= s.players_array.take(n).filter(bet_on(s.players, is_even)).map_values(
            |k: Seq<char>| (money_receiver(s, ctx, k)->Ok_0, (s.players[k].bet_amount * 2) as u128),
        ),
    decreases n,
{
    reveal(Seq::filter);
    if n > 0 {
        law_cash_payments_pay_the_winners(s, ctx, is_even, n - 1);
        let f = |k: Seq<char>| (money_receiver(s, ctx, k)->Ok_0, (s.players[k].bet_amount * 2) as u128);
        let prefix = s.players_array.take(n);
        assert(prefix.drop_last() =~= s.players_array.take(n - 1));
        let rest = prefix.drop_last().filter(bet_on(s.players, is_even));
        if s.players[prefix.last()].is_even == is_even {
            assert(rest.push(prefix.last()).map_values(f) =~= rest.map_values(f).push(f(prefix.last())));
        }
    }
}

/// What a roll decided: the dice, their parity, the number of the roll, and the payments.
pub struct CashRollOutcome {
    pub dice_number_1: usize,
    pub dice_number_2: usize,
    pub is_even: bool,
    pub roll_id: usize,
    pub effects: Vec<Effect>,
}

/// What rolling the dice `d1` and `d2` does, from state `s` to state `t`.
pub open spec fn cash_settled(
    s: CashGameState,
    t: CashGameState,
    ctx: CallContext,
    d1: usize,
    d2: usize,
    r: Result<CashRollOutcome, ContractError>,
) -> bool {
    let is_even = (d1 + d2) % 2 == 0;
    if !valid_account(ctx.predecessor_account_id@) {
        r == Err::<CashRollOutcome, ContractError>(ContractError::InvalidAccountId) && t == s
    } else if s.owner != ctx.predecessor_account_id@ {
        r == Err::<CashRollOutcome, ContractError>(ContractError::OnlyOwner) && t == s
    } else if s.total_bet_amount_per_roll == 0 {
        r == Err::<CashRollOutcome, ContractError>(ContractError::NoBet) && t == s
    } else {
        match cash_payments(s, ctx, is_even, s.players_array.len() as int) {
            Err(e) => r == Err::<CashRollOutcome, ContractError>(e) && t == s,
            Ok(paid) => if s.roll_id == usize::MAX {
                r == Err::<CashRollOutcome, ContractError>(ContractError::Overflow) && t == s
            } else {
                &&& r matches Ok(o) && {
                    &&& o.dice_number_1 == d1
                    &&& o.dice_number_2 == d2
                    &&& o.is_even == is_even
                    &&& o.roll_id == s.roll_id
                    &&& o.effects@.len() == paid.len()
                    &&& forall|j: int|
                        0 <= j < paid.len() ==> cash_payment(
                            #[trigger] o.effects@[j],
                            s.cash,
                            ctx.current_account_id@,
                            paid[j].0,
                            paid[j].1,
                        )
                }
                &&& t == (CashGameState {
                    players_array: Seq::empty(),
                    total_bet_amount_per_roll: 0,
                    roll_id: (s.roll_id + 1) as usize,
                    ..s
                })
            },
        }
    }
}

/// Refuses an account id that is not valid.
fn validate_account(id: &String) -> (r: Result<(), ContractError>)
    ensures
        r is Ok <==> valid_account(id@),
        r is Err ==> r == Err::<(), ContractError>(ContractError::InvalidAccountId),
{
    if is_valid_account_id(id.as_str().as_bytes()) {
        Ok(())
    } else {
        Err(ContractError::InvalidAccountId)
    }
}

impl EvenOddContract {
    /// The cash game's invariant.
    pub closed spec fn wf(&self) -> bool {
        &&& self.players.wf()
        &&& cash_state_inv(self@)
    }

    /// Sets up a game dealt by the signer, with the given token contracts; refused when the
    /// contract's state exists already, or the signer's id is not valid. The dealer argument
    /// is not used.
    pub fn constructor(
        ctx: &CallContext,
        state_exists: bool,
        _dealer: String,
        _cash: String,
        _ticket: String,
    ) -> (r: Result<Self, ContractError>)
        ensures
            state_exists ==> r == Err::<Self, ContractError>(ContractError::AlreadyInitialized),
            !state_exists && !valid_account(ctx.signer_account_id@) ==> r == Err::<Self, ContractError>(
                ContractError::InvalidAccountId,
            ),
            !state_exists && valid_account(ctx.signer_account_id@) ==> (r matches Ok(c) && c.wf() && c@ == (
            CashGameState {
                owner: ctx.signer_account_id@,
                cash: _cash@,
                ticket: _ticket@,
                players_array: Seq::empty(),
                players: Map::empty(),
                total_bet_amount: 0,
                total_bet_amount_per_roll: 0,
                roll_id: 1,
            })),
    {
        if state_exists {
            return Err(ContractError::AlreadyInitialized);
        }
        validate_account(&ctx.signer_account_id)?;
        let c = EvenOddContract {
            owner: ctx.signer_account_id.clone(),
            cash: _cash,
            ticket: _ticket,
            players_array: Vec::new(),
            players: PlayerMap::new(),
            total_bet_amount: 0,
            total_bet_amount_per_roll: 0,
            roll_id: 1,
        };
        assert(c@.players_array =~= Seq::empty());
        Ok(c)
    }

    /// Moves `amount` cash from the caller to the game, and asks to be called back about it;
    /// refused when the caller's or the game's account id is not valid.
    pub fn transfer(&mut self, ctx: &CallContext, amount: u128) -> (r: Result<Effect, ContractError>)
        ensures
            *final(self) == *old(self),
            !valid_account(ctx.predecessor_account_id@) || !valid_account(ctx.current_account_id@) ==> r
                == Err::<Effect, ContractError>(ContractError::InvalidAccountId),
            valid_account(ctx.predecessor_account_id@) && valid_account(ctx.current_account_id@) ==> (r matches Ok(
                Effect::Then(c1, c2),
            ) && resolve_call(
                c1,
                old(self)@.cash,
                amount,
                ctx.predecessor_account_id@,
                ctx.current_account_id@,
                amount,
            ) && call_is(c2, ctx.current_account_id@, NO_DEPOSIT, FT_TRANSFER_GAS) && match c2.method {
                RemoteMethod::FtTransferCallback { account_id, amount: a, is_even } => {
                    account_id@ == ctx.predecessor_account_id@ && a == amount && is_even is None
                },
                _ => false,
            }),
    {
        validate_account(&ctx.predecessor_account_id)?;
        validate_account(&ctx.current_account_id)?;
        let cash = RemoteContract::new(self.cash.clone(), amount, FT_TRANSFER_GAS);
        let resolve = cash.ft_resolve_transfer(
            ctx.predecessor_account_id.clone(),
            ctx.current_account_id.clone(),
            amount,
        );
        let me = RemoteContract::new(ctx.current_account_id.clone(), NO_DEPOSIT, FT_TRANSFER_GAS);
        let callback = me.ft_transfer_callback(amount, ctx.predecessor_account_id.clone());
        Ok(Effect::Then(resolve, callback))
    }

    /// Moves `amount` cash from the game to the caller; refused for 0, and when the game's or
    /// the caller's account id is not valid.
    pub fn withdraw(&mut self, ctx: &CallContext, amount: u128) -> (r: Result<Effect, ContractError>)
        ensures
            *final(self) == *old(self),
            amount == 0 ==> r == Err::<Effect, ContractError>(ContractError::ZeroAmount),
            amount > 0 && (!valid_account(ctx.current_account_id@) || !valid_account(ctx.predecessor_account_id@))
                ==> r == Err::<Effect, ContractError>(ContractError::InvalidAccountId),
            amount > 0 && valid_account(ctx.current_account_id@) && valid_account(ctx.predecessor_account_id@)
                ==> (r matches Ok(Effect::Call(c)) && resolve_call(
                c,
                old(self)@.cash,
                amount,
                ctx.current_account_id@,
                ctx.predecessor_account_id@,
                amount,
            )),
    {
        if amount == 0 {
            return Err(ContractError::ZeroAmount);
        }
        validate_account(&ctx.current_account_id)?;
        validate_account(&ctx.predecessor_account_id)?;
        let cash = RemoteContract::new(self.cash.clone(), amount, FT_TRANSFER_GAS);
        let resolve = cash.ft_resolve_transfer(
            ctx.current_account_id.clone(),
            ctx.predecessor_account_id.clone(),
            amount,
        );
        Ok(Effect::Call(resolve))
    }

    /// Whether `account` has a bet in this roll; refused for an account that is not
    /// registered.
    pub fn is_already_bet(&self, account: String) -> (r: Result<bool, ContractError>)
        requires
            self.wf(),
        ensures
            !self@.players.contains_key(account@) ==> r == Err::<bool, ContractError>(ContractError::UnknownPlayer),
            self@.players.contains_key(account@) ==> r == Ok::<bool, ContractError>(self@.players[account@].bet_amount > 0),
    {
        match self.players.get(&account) {
            Some(p) => {
                if p.bet_amount > 0 {
                    return Ok(true);
                }
                Ok(false)
            },
            None => Err(ContractError::UnknownPlayer),
        }
    }

    /// Checks that the caller may bet: asks the ticket contract (on the game's own account)
    /// how many tickets the caller holds, and is refused when `ticket_balance`, its answer,
    /// is 0, when the caller is not registered, or has a bet in this roll already. Changes
    /// nothing.
    pub fn bet(&self, ctx: &CallContext, is_even: bool, amount: u128, ticket_balance: u128) -> (r: Result<
        Effect,
        ContractError,
    >)
        requires
            self.wf(),
        ensures
            ({
                let who = ctx.predecessor_account_id@;
                if !valid_account(who) || !valid_account(ctx.current_account_id@) {
                    r == Err::<Effect, ContractError>(ContractError::InvalidAccountId)
                } else if ticket_balance == 0 {
                    r == Err::<Effect, ContractError>(ContractError::NoTicket)
                } else if !self@.players.contains_key(who) {
                    r == Err::<Effect, ContractError>(ContractError::UnknownPlayer)
                } else if self@.players[who].bet_amount > 0 {
                    r == Err::<Effect, ContractError>(ContractError::AlreadyBet)
                } else {
                    r matches Ok(Effect::Call(c)) && call_is(c, ctx.current_account_id@, 0, TICKET_QUERY_GAS)
                        && match c.method {
                        RemoteMethod::NftSupplyForOwner { account_id } => account_id@ == who,
                        _ => false,
                    }
                }
            }),
    {
        validate_account(&ctx.predecessor_account_id)?;
        validate_account(&ctx.current_account_id)?;
        let ticket = RemoteContract::new(ctx.current_account_id.clone(), 0, TICKET_QUERY_GAS);
        let query = ticket.nft_supply_for_owner(ctx.predecessor_account_id.clone());
        if ticket_balance == 0 {
            return Err(ContractError::NoTicket);
        }
        if self.is_already_bet(ctx.predecessor_account_id.clone())? {
            return Err(ContractError::AlreadyBet);
        }
        Ok(Effect::Call(query))
    }

    /// Asks the cash contract for the owner's balance.
    pub fn get_dealer_balance(&self) -> (r: Effect)
        ensures
            r matches Effect::Call(c) && call_is(c, self@.cash, NO_DEPOSIT, FT_TRANSFER_GAS) && match c.method {
                RemoteMethod::FtBalanceOf { account_id } => account_id@ == self@.owner,
                _ => false,
            },
    {
        let cash = RemoteContract::new(self.cash.clone(), NO_DEPOSIT, FT_TRANSFER_GAS);
        Effect::Call(cash.ft_balance_of(self.owner.clone()))
    }

    /// The amount `account` bet in this roll; refused for an account that is not registered.
    pub fn get_bet_amount_of(&self, account: String) -> (r: Result<u128, ContractError>)
        requires
            self.wf(),
        ensures
            !self@.players.contains_key(account@) ==> r == Err::<u128, ContractError>(ContractError::UnknownPlayer),
            self@.players.contains_key(account@) ==> r == Ok::<u128, ContractError>(self@.players[account@].bet_amount),
    {
        match self.players.get(&account) {
            Some(p) => Ok(p.bet_amount),
            None => Err(ContractError::UnknownPlayer),
        }
    }

    /// The amount `account` bet in this roll and the parity bet on; refused for an account
    /// that is not registered.
    pub fn get_player_info(&self, account: String) -> (r: Result<(u128, bool), ContractError>)
        requires
            self.wf(),
        ensures
            !self@.players.contains_key(account@) ==> r == Err::<(u128, bool), ContractError>(ContractError::UnknownPlayer),
            self@.players.contains_key(account@) ==> r == Ok::<(u128, bool), ContractError>(
                (self@.players[account@].bet_amount, self@.players[account@].is_even),
            ),
    {
        match self.players.get(&account) {
            Some(p) => Ok((p.bet_amount, p.is_even)),
            None => Err(ContractError::UnknownPlayer),
        }
    }

    /// Pays `amount` from the game's account: to the caller when `account` is the owner,
    /// else to the account's record; refused when an account id is not valid or `account` is
    /// not registered.
    pub fn transfer_money(&mut self, ctx: &CallContext, account: String, amount: u128) -> (r: Result<
        Effect,
        ContractError,
    >)
        requires
            old(self).wf(),
        ensures
            *final(self) == *old(self),
            match money_receiver(old(self)@, *ctx, account@) {
                Err(e) => r == Err::<Effect, ContractError>(e),
                Ok(receiver) => r matches Ok(e) && cash_payment(
                    e,
                    old(self)@.cash,
                    ctx.current_account_id@,
                    receiver,
                    amount,
                ),
            },
    {
        validate_account(&ctx.current_account_id)?;
        let cash = RemoteContract::new(self.cash.clone(), NO_DEPOSIT, FT_TRANSFER_GAS);
        if account == self.owner {
            validate_account(&ctx.predecessor_account_id)?;
            let resolve = cash.ft_resolve_transfer(
                ctx.current_account_id.clone(),
                ctx.predecessor_account_id.clone(),
                amount,
            );
            Ok(Effect::Call(resolve))
        } else {
            let player = match self.players.get(&account) {
                Some(p) => p.player.clone(),
                None => return Err(ContractError::UnknownPlayer),
            };
            validate_account(&player)?;
            let resolve = cash.ft_resolve_transfer(ctx.current_account_id.clone(), player, amount);
            Ok(Effect::Call(resolve))
        }
    }

    /// Clears the list of players and the amount bet in this roll.
    pub fn reset_board(&mut self)
        requires
            old(self).wf(),
        ensures
            final(self).wf(),
            final(self)@ == (CashGameState {
                players_array: Seq::empty(),
                total_bet_amount_per_roll: 0,
                ..old(self)@
            }),
    {
        self.players_array = Vec::new();
        self.total_bet_amount_per_roll = 0;
        assert(self@.players_array =~= Seq::empty());
    }

    /// A die: a number from 0 to 99, drawn at random.
    pub fn generate_random_number(&self) -> (r: usize)
        ensures
            r < 100,
    {
        random_in_range(0, 100)
    }
}


impl EvenOddContract {
    /// Settles a roll of the dice `dice_number_1` and `dice_number_2`: refused when the
    /// caller's id is not valid, for any caller but the owner, and when nothing was bet.
    /// Pays each listed player who bet on the parity rolled twice the bet, as
    /// [`Self::transfer_money`] does, clears the list, and advances the roll number.
    pub fn settle_roll(&mut self, ctx: &CallContext, dice_number_1: usize, dice_number_2: usize) -> (r: Result<
        CashRollOutcome,
        ContractError,
    >)
        requires
            old(self).wf(),
            dice_number_1 + dice_number_2 <= usize::MAX,
        ensures
            final(self).wf(),
            cash_settled(old(self)@, final(self)@, *ctx, dice_number_1, dice_number_2, r),
    {
        validate_account(&ctx.predecessor_account_id)?;
        if self.owner != ctx.predecessor_account_id {
            return Err(ContractError::OnlyOwner);
        }
        if self.total_bet_amount_per_roll == 0 {
            return Err(ContractError::NoBet);
        }
        let is_even = (dice_number_1 + dice_number_2) % 2 == 0;
        let roll_id: usize = self.roll_id;
        let ghost s = self@;
        let ghost arr = s.players_array;
        let mut effects: Vec<Effect> = Vec::new();
        let mut i: usize = 0;
        while i < self.players_array.len()
            invariant
                self.wf(),
                self@ == s,
                *self == *old(self),
                valid_account(ctx.predecessor_account_id@),
                s.owner == ctx.predecessor_account_id@,
                s.total_bet_amount_per_roll != 0,
                is_even == ((dice_number_1 + dice_number_2) % 2 == 0),
                0 <= i <= arr.len(),
                arr == self.players_array@.map_values(|a: String| a@),
                cash_payments(s, *ctx, is_even, i as int) matches Ok(paid) && {
                    &&& effects@.len() == paid.len()
                    &&& forall|j: int|
                        0 <= j < paid.len() ==> cash_payment(
                            #[trigger] effects@[j],
                            s.cash,
                            ctx.current_account_id@,
                            paid[j].0,
                            paid[j].1,
                        )
                },
            decreases arr.len() - i,
        {
            let account = &self.players_array[i];
            proof {
                assert(arr.len() == self.players_array@.len());
                assert(account@ == arr[i as int]);
                assert(cash_state_inv(s));
                assert(s.players.contains_key(s.players_array[i as int]));
            }
            let p = self.players.get(account).unwrap();
            let ghost paid0 = cash_payments(s, *ctx, is_even, i as int)->Ok_0;
            let ghost e0 = effects@;
            if p.is_even == is_even {
                if p.bet_amount > u128::MAX / 2 {
                    proof {
                        lemma_cash_payments_stop(s, *ctx, is_even, i + 1, arr.len() as int);
                    }
                    return Err(ContractError::Overflow);
                }
                let amount: u128 = p.bet_amount * 2;
                let account = account.clone();
                let payment = match self.transfer_money(ctx, account, amount) {
                    Ok(e) => e,
                    Err(e) => {
                        proof {
                            lemma_cash_payments_stop(s, *ctx, is_even, i + 1, arr.len() as int);
                        }
                        return Err(e);
                    },
                };
                effects.push(payment);
                proof {
                    let paid1 = cash_payments(s, *ctx, is_even, i + 1)->Ok_0;
                    assert forall|j: int| 0 <= j < paid1.len() implies cash_payment(
                        #[trigger] effects@[j],
                        s.cash,
                        ctx.current_account_id@,
                        paid1[j].0,
                        paid1[j].1,
                    ) by {
                        if j < paid0.len() {
                            assert(effects@[j] == e0[j]);
                        }
                    }
                }
            }
            i = i + 1;
        }
        if self.roll_id == usize::MAX {
            return Err(ContractError::Overflow);
        }
        self.reset_board();
        self.roll_id = self.roll_id + 1;
        Ok(CashRollOutcome { dice_number_1, dice_number_2, is_even, roll_id, effects })
    }

    /// Rolls two dice, then settles the roll as [`Self::settle_roll`] does.
    pub fn roll_dice(&mut self, ctx: &CallContext) -> (r: Result<CashRollOutcome, ContractError>)
        requires
            old(self).wf(),
        ensures
            final(self).wf(),
            exists|d1: usize, d2: usize|
                d1 < 100 && d2 < 100 && #[trigger] cash_settled(old(self)@, final(self)@, *ctx, d1, d2, r),
    {
        let dice_number_1: usize = self.generate_random_number();
        let dice_number_2: usize = self.generate_random_number();
        let r = self.settle_roll(ctx, dice_number_1, dice_number_2);
        assert(cash_settled(old(self)@, self@, *ctx, dice_number_1, dice_number_2, r));
        r
    }
}


impl EvenOddContract {
    /// The dealer.
    pub fn owner(&self) -> (r: &String)
        ensures
            r@ == self@.owner,
    {
        &self.owner
    }

    /// The cash contract.
    pub fn cash(&self) -> (r: &String)
        ensures
            r@ == self@.cash,
    {
        &self.cash
    }

    /// The ticket contract.
    pub fn ticket(&self) -> (r: &String)
        ensures
            r@ == self@.ticket,
    {
        &self.ticket
    }

    /// The listed players, in order.
    pub fn players_array(&self) -> (r: &Vec<String>)
        ensures
            r@.map_values(|a: String| a@) == self@.players_array,
    {
        &self.players_array
    }

    /// The players' records.
    pub fn players(&self) -> (r: &PlayerMap)
        requires
            self.wf(),
        ensures
            r.wf(),
            r@ == self@.players,
    {
        &self.players
    }

    /// The total of all bets placed.
    pub fn total_bet_amount(&self) -> (r: usize)
        ensures
            r == self@.total_bet_amount,
    {
        self.total_bet_amount
    }

    /// The total of the bets placed in this roll.
    pub fn total_bet_amount_per_roll(&self) -> (r: usize)
        ensures
            r == self@.total_bet_amount_per_roll,
    {
        self.total_bet_amount_per_roll
    }

    /// The number of the current roll.
    pub fn roll_id(&self) -> (r: usize)
        ensures
            r == self@.roll_id,
    {
        self.roll_id
    }

    /// Rebuilds a game from its parts, as stored; `None` when they break the game's
    /// invariant.
    pub fn from_parts(
        owner: String,
        cash: String,
        ticket: String,
        players_array: Vec<String>,
        players: PlayerMap,
        total_bet_amount: usize,
        total_bet_amount_per_roll: usize,
        roll_id: usize,
    ) -> (r: Option<Self>)
        requires
            players.wf(),
        ensures
            ({
                let s = CashGameState {
                    owner: owner@,
                    cash: cash@,
                    ticket: ticket@,
                    players_array: players_array@.map_values(|a: String| a@),
                    players: players@,
                    total_bet_amount,
                    total_bet_amount_per_roll,
                    roll_id,
                };
                &&& r is Some <==> cash_state_inv(s)
                &&& r matches Some(c) ==> c.wf() && c@ == s
            }),
    {
        let ghost arr = players_array@.map_values(|a: String| a@);
        let keys_match = players.records_match_keys();
        let all_listed = players.contains_all(&players_array);
        if !keys_match || !all_listed {
            proof {
                let s = CashGameState {
                    owner: owner@,
                    cash: cash@,
                    ticket: ticket@,
                    players_array: arr,
                    players: players@,
                    total_bet_amount,
                    total_bet_amount_per_roll,
                    roll_id,
                };
                if !all_listed {
                    let i = choose|i: int| 0 <= i < players_array@.len() && !players@.contains_key(#[trigger] players_array@[i]@);
                    assert(arr.len() == players_array@.len());
                    assert(arr[i] == players_array@[i]@);
                    assert(!s.players.contains_key(s.players_array[i]));
                } else {
                    let k = choose|k: Seq<char>| #[trigger] players@.contains_key(k) && players@[k].player != k;
                    assert(s.players.contains_key(k) && s.players[k].player != k);
                }
            }
            return None;
        }
        let c = EvenOddContract {
            owner,
            cash,
            ticket,
            players_array,
            players,
            total_bet_amount,
            total_bet_amount_per_roll,
            roll_id,
        };
        assert forall|i: int| 0 <= i < c@.players_array.len() implies c@.players.contains_key(
            #[trigger] c@.players_array[i],
        ) by {
            assert(c.players@.contains_key(c.players_array@[i]@));
        }
        Some(c)
    }
}

} // verus!
