//! The even/odd game: players register, hold a ticket, bet cash tokens on the parity of two
//! dice, and the owner rolls; winners are paid twice their bet.
use vstd::prelude::*;
use crate::players::{PlayerMap, PlayerMetadata, PlayerView};
use crate::promise::{CallContext, Effect, ExtCall, PromiseResult, RemoteContract, RemoteMethod};
use crate::outside::{
    has_json_member, json_bool_at, json_bool_member, json_has_member, json_u128, json_u64_at, json_u64_member,
    parse_json_u128, random_in_range,
};
use crate::util::{assert_at_least_one_yocto, assert_only_owner_access, ContractError};
use self::core_impl::{
    ExtStakingContract, FungibleTokenCore, FungibleTokenReceiver, NonFungibleTokenCore, FT_CALL_GAS,
    FT_TRANSFER_GAS, NO_DEPOSIT, PAY_REWARD_CALLBACK_GAS,
};

pub mod core_impl;
pub mod laws;

verus! {

/// The game's state.
pub struct EvenOddContract {
    /// The dealer: the account that deployed the game, which rolls the dice.
    pub owner: String,
    /// The fungible-token contract in which bets are made and paid.
    pub cash: String,
    /// The non-fungible-token contract whose tokens are the tickets.
    pub ticket: String,
    /// The registered accounts and the bettors of this roll, in order, with repeats.
    players_array: Vec<String>,
    players: PlayerMap,
    total_bet_amount: u128,
    total_bet_amount_per_roll: u128,
    roll_id: u32,
}

/// The mathematical value of the game's state.
#[verifier::ext_equal]
pub struct GameState {
    pub owner: Seq<char>,
    pub cash: Seq<char>,
    pub ticket: Seq<char>,
    pub players_array: Seq<Seq<char>>,
    pub players: Map<Seq<char>, PlayerView>,
    pub total_bet_amount: u128,
    pub total_bet_amount_per_roll: u128,
    pub roll_id: u32,
}

impl View for EvenOddContract {
    type V = GameState;

    closed spec fn view(&self) -> GameState {
        GameState {
            owner: self.owner@,
            cash: self.cash@,
            ticket: self.ticket@,
            players_array: self.players_array@.map_values(|a: String| a@),
            players: self.players@,
            total_bet_amount: self.total_bet_amount,
            total_bet_amount_per_roll: self.total_bet_amount_per_roll,
            roll_id: self.roll_id,
        }
    }
}

/// What every reachable state satisfies: every account in `players_array` has a record,
/// every record is filed under its own account, and the bets of this roll are part of all
/// bets.
pub open spec fn state_inv(s: GameState) -> bool {
    &&& forall|i: int| 0 <= i < s.players_array.len() ==> s.players.contains_key(#[trigger] s.players_array[i])
    &&& forall|k: Seq<char>| #[trigger] s.players.contains_key(k) ==> s.players[k].player == k
    &&& s.total_bet_amount_per_roll <= s.total_bet_amount
}

/// A record with no bet.
pub open spec fn fresh_player(account: Seq<char>) -> PlayerView {
    PlayerView { bet_amount: 0, player: account, is_even: false }
}

/// What a roll decided: the dice, their parity, the new roll number, and the payments to
/// make.
pub struct RollOutcome {
    pub dice_number_1: usize,
    pub dice_number_2: usize,
    pub is_even: bool,
    pub roll_id: u32,
    pub effects: Vec<Effect>,
}

/// `c` is a call on `contract` with `deposit` and `gas` attached.
pub open spec fn call_is(c: ExtCall, contract: Seq<char>, deposit: u128, gas: u64) -> bool {
    c.contract@ == contract && c.deposit == deposit && c.gas == gas
}

/// `effects` are the question to the ticket contract of how many tickets `account` holds,
/// and the game's callback that reads the answer.
pub open spec fn ticket_query(effects: Seq<Effect>, ticket: Seq<char>, current: Seq<char>, account: Seq<char>) -> bool {
    &&& effects.len() == 2
    &&& match effects[0] {
        Effect::Call(c) => call_is(c, ticket, NO_DEPOSIT, FT_CALL_GAS) && match c.method {
            RemoteMethod::NftSupplyForOwner { account_id } => account_id@ == account,
            _ => false,
        },
        _ => false,
    }
    &&& match effects[1] {
        Effect::Call(c) => call_is(c, current, NO_DEPOSIT, FT_CALL_GAS) && c.method is NftBalanceCallback,
        _ => false,
    }
}

/// `e` asks the cash contract for the dealer's balance, then calls the game back with it.
pub open spec fn dealer_balance_query(e: Effect, cash: Seq<char>, current: Seq<char>, owner: Seq<char>) -> bool {
    match e {
        Effect::Then(c1, c2) => {
            &&& call_is(c1, cash, NO_DEPOSIT, FT_TRANSFER_GAS)
            &&& match c1.method {
                RemoteMethod::FtBalanceOf { account_id } => account_id@ == owner,
                _ => false,
            }
            &&& call_is(c2, current, NO_DEPOSIT, FT_CALL_GAS)
            &&& c2.method is FtBalanceCallback
        },
        _ => false,
    }
}

/// `e` transfers `amount` cash to `account` with the memo "Withdraw !".
pub open spec fn withdrawal(e: Effect, cash: Seq<char>, account: Seq<char>, amount: u128) -> bool {
    match e {
        Effect::Call(c) => {
            &&& call_is(c, cash, amount, FT_TRANSFER_GAS)
            &&& match c.method {
                RemoteMethod::FtTransfer { receiver_id, amount: a, memo } => {
                    &&& receiver_id@ == account
                    &&& a == amount
                    &&& memo matches Some(m) && m@ == "Withdraw !"@
                },
                _ => false,
            }
        },
        _ => false,
    }
}

/// `e` pays `amount` cash to `account` with the memo "Pay reward for players !", then
/// calls the game back about the payment.
pub open spec fn reward_payment(e: Effect, cash: Seq<char>, current: Seq<char>, account: Seq<char>, amount: u128) -> bool {
    match e {
        Effect::Then(c1, c2) => {
            &&& call_is(c1, cash, amount, FT_TRANSFER_GAS)
            &&& match c1.method {
                RemoteMethod::FtTransfer { receiver_id, amount: a, memo } => {
                    &&& receiver_id@ == account
                    &&& a == amount
                    &&& memo matches Some(m) && m@ == "Pay reward for players !"@
                },
                _ => false,
            }
            &&& call_is(c2, current, NO_DEPOSIT, PAY_REWARD_CALLBACK_GAS)
            &&& match c2.method {
                RemoteMethod::FtPayRewardCallback { account_id, amount: a } => account_id@ == account && a == amount,
                _ => false,
            }
        },
        _ => false,
    }
}

/// What the ticket callback's result says: whether the caller holds a ticket.
pub open spec fn ticket_result(results: Seq<PromiseResult>) -> Result<bool, ContractError> {
    if results.len() != 1 {
        Err(ContractError::ExpectedOneResult)
    } else {
        match results[0] {
            PromiseResult::Successful(v) => match json_u128(v@) {
                Some(n) => Ok(n > 0),
                None => Err(ContractError::InvalidBalance),
            },
            _ => Ok(false),
        }
    }
}

/// What the balance callback's result says: the balance, 0 when the call did not succeed.
pub open spec fn balance_result(results: Seq<PromiseResult>) -> Result<u128, ContractError> {
    if results.len() != 1 {
        Err(ContractError::ExpectedOneResult)
    } else {
        match results[0] {
            PromiseResult::Successful(v) => match json_u128(v@) {
                Some(n) => Ok(n),
                None => Err(ContractError::InvalidBalance),
            },
            _ => Ok(0),
        }
    }
}

/// What the balance callbacks answer: the balance, 0 when the call did not succeed.
pub open spec fn callback_balance(results: Seq<PromiseResult>) -> Result<u128, ContractError> {
    if results.len() != 1 {
        Err(ContractError::TooManyResults)
    } else {
        match results[0] {
            PromiseResult::Successful(v) => match json_u128(v@) {
                Some(n) => Ok(n),
                None => Err(ContractError::InvalidBalance),
            },
            _ => Ok(0),
        }
    }
}

/// What a callback on a transfer reads from its result: nothing when it succeeded.
pub open spec fn transfer_result(results: Seq<PromiseResult>) -> Result<(), ContractError> {
    if results.len() != 1 {
        Err(ContractError::TooManyResults)
    } else {
        match results[0] {
            PromiseResult::NotReady => Err(ContractError::PromiseNotReady),
            PromiseResult::Successful(_) => Ok(()),
            PromiseResult::Failed => Err(ContractError::CallFailed),
        }
    }
}

/// The state after `who` bets `amount` on `is_even`.
pub open spec fn bet_state(s: GameState, who: Seq<char>, is_even: bool, amount: u128) -> GameState {
    GameState {
        players_array: s.players_array.push(who),
        players: s.players.insert(who, PlayerView { bet_amount: amount, player: who, is_even }),
        total_bet_amount: (s.total_bet_amount + amount) as u128,
        total_bet_amount_per_roll: (s.total_bet_amount_per_roll + amount) as u128,
        ..s
    }
}

/// What a bet of `amount` on `is_even` by the caller does, from state `s` to state `t`,
/// when the ticket callback's result is `results`.
pub open spec fn bet_outcome(
    s: GameState,
    t: GameState,
    ctx: CallContext,
    is_even: bool,
    amount: u128,
    results: Seq<PromiseResult>,
    r: Result<Vec<Effect>, ContractError>,
) -> bool {
    let who = ctx.predecessor_account_id@;
    match ticket_result(results) {
        Err(e) => r == Err::<Vec<Effect>, ContractError>(e) && t == s,
        Ok(has_ticket) => if !has_ticket {
            r == Err::<Vec<Effect>, ContractError>(ContractError::NoTicket) && t == s
        } else if !s.players.contains_key(who) {
            r == Err::<Vec<Effect>, ContractError>(ContractError::UnknownPlayer) && t == s
        } else if s.players[who].bet_amount > 0 {
            r == Err::<Vec<Effect>, ContractError>(ContractError::AlreadyBet) && t == s
        } else if s.total_bet_amount + amount > u128::MAX {
            r == Err::<Vec<Effect>, ContractError>(ContractError::Overflow) && t == s
        } else {
            &&& r matches Ok(effects) && ticket_query(effects@, s.ticket, ctx.current_account_id@, who)
            &&& t == bet_state(s, who, is_even, amount)
        },
    }
}

/// `p` won a roll whose dice add up to an even number exactly when `is_even`.
pub open spec fn is_winner(p: PlayerView, is_even: bool) -> bool {
    p.is_even == is_even && p.bet_amount > 0
}

/// The winners among the listed players, in list order, each as often as listed.
pub open spec fn payouts(accounts: Seq<Seq<char>>, players: Map<Seq<char>, PlayerView>, is_even: bool) -> Seq<PlayerView>
    decreases accounts.len(),
{
    if accounts.len() == 0 {
        Seq::empty()
    } else {
        let rest = payouts(accounts.drop_last(), players, is_even);
        let p = players[accounts.last()];
        if is_winner(p, is_even) {
            rest.push(p)
        } else {
            rest
        }
    }
}

/// A roll whose dice add up to an even number exactly when `is_even` cannot be settled:
/// a winner's prize, or the roll number, does not fit its type.
pub open spec fn roll_overflows(s: GameState, is_even: bool) -> bool {
    ||| s.roll_id == u32::MAX
    ||| exists|i: int|
        0 <= i < s.players_array.len() && is_winner(#[trigger] s.players[s.players_array[i]], is_even)
            && s.players[s.players_array[i]].bet_amount * 2 > u128::MAX
}

/// The state after a roll: every listed player's bet cleared, nothing bet in the new roll,
/// and the roll number advanced.
pub open spec fn rolled(s: GameState) -> GameState {
    GameState {
        players: reset_players(s.players_array, s.players),
        total_bet_amount_per_roll: 0,
        roll_id: (s.roll_id + 1) as u32,
        ..s
    }
}

/// `effects` pay each winner twice the bet, in the order of `payouts`.
pub open spec fn pays_winners(effects: Seq<Effect>, s: GameState, current: Seq<char>, is_even: bool) -> bool {
    let w = payouts(s.players_array, s.players, is_even);
    &&& effects.len() == w.len()
    &&& forall|j: int|
        0 <= j < w.len() ==> reward_payment(
            #[trigger] effects[j],
            s.cash,
            current,
            w[j].player,
            (w[j].bet_amount * 2) as u128,
        )
}

/// What rolling the dice `d1` and `d2` does, from state `s` to state `t`.
pub open spec fn settled(
    s: GameState,
    t: GameState,
    ctx: CallContext,
    d1: usize,
    d2: usize,
    r: Result<RollOutcome, ContractError>,
) -> bool {
    let is_even = (d1 + d2) % 2 == 0;
    if ctx.attached_deposit < 1 {
        r == Err::<RollOutcome, ContractError>(ContractError::DepositRequired) && t == s
    } else if ctx.predecessor_account_id@ != s.owner {
        r == Err::<RollOutcome, ContractError>(ContractError::OnlyOwner) && t == s
    } else if s.total_bet_amount_per_roll == 0 {
        r == Err::<RollOutcome, ContractError>(ContractError::NoBet) && t == s
    } else if roll_overflows(s, is_even) {
        r == Err::<RollOutcome, ContractError>(ContractError::Overflow) && t == s
    } else {
        &&& r matches Ok(o) && {
            &&& o.dice_number_1 == d1
            &&& o.dice_number_2 == d2
            &&& o.is_even == is_even
            &&& o.roll_id == s.roll_id + 1
            &&& pays_winners(o.effects@, s, ctx.current_account_id@, is_even)
        }
        &&& t == rolled(s)
    }
}

impl EvenOddContract {
    /// The game's invariant.
    pub closed spec fn wf(&self) -> bool {
        &&& self.players.wf()
        &&& state_inv(self@)
    }

    /// Sets up a game dealt by the signer, with the given token contracts; refused when the
    /// contract's state exists already. The dealer argument is not used.
    pub fn constructor(
        ctx: &CallContext,
        state_exists: bool,
        _dealer: String,
        _cash: String,
        _ticket: String,
    ) -> (r: Result<Self, ContractError>)
        ensures
            state_exists ==> r == Err::<Self, ContractError>(ContractError::AlreadyInitialized),
            !state_exists ==> (r matches Ok(c) && c.wf() && c@ == (GameState {
                owner: ctx.signer_account_id@,
                cash: _cash@,
                ticket: _ticket@,
                players_array: Seq::empty(),
                players: Map::empty(),
                total_bet_amount: 0,
                total_bet_amount_per_roll: 0,
                roll_id: 1,
            })),
    {
        if state_exists {
            return Err(ContractError::AlreadyInitialized);
        }
        let c = EvenOddContract {
            owner: ctx.signer_account_id.clone(),
            cash: _cash,
            ticket: _ticket,
            players_array: Vec::new(),
            players: PlayerMap::new(),
            total_bet_amount: 0,
            total_bet_amount_per_roll: 0,
            roll_id: 1,
        };
        assert(c@.players_array =~= Seq::empty());
        Ok(c)
    }
}

/// `players` with every account of `accounts` given a record with no bet.
pub open spec fn reset_players(
    accounts: Seq<Seq<char>>,
    players: Map<Seq<char>, PlayerView>,
) -> Map<Seq<char>, PlayerView> {
    Map::new(
        |k: Seq<char>| players.contains_key(k) || accounts.contains(k),
        |k: Seq<char>| if accounts.contains(k) { fresh_player(k) } else { players[k] },
    )
}

impl EvenOddContract {
    /// Registers `account` with no bet, and lists it among the players.
    pub(crate) fn internal_create_account(&mut self, account: String)
        requires
            old(self).wf(),
        ensures
            final(self).wf(),
            final(self)@ == (GameState {
                players_array: old(self)@.players_array.push(account@),
                players: old(self)@.players.insert(account@, fresh_player(account@)),
                ..old(self)@
            }),
    {
        let new_player_metadata = PlayerMetadata { bet_amount: 0, player: account.clone(), is_even: false };
        self.players.insert(&account, new_player_metadata);
        self.players_array.push(account);
        assert(self@.players_array =~= old(self)@.players_array.push(account@));
    }

    /// Clears the bet of every listed player.
    pub(crate) fn internal_set_default(&mut self)
        requires
            old(self).wf(),
        ensures
            final(self).wf(),
            final(self)@ == (GameState {
                players: reset_players(old(self)@.players_array, old(self)@.players),
                ..old(self)@
            }),
    {
        let ghost arr = self@.players_array;
        let ghost m0 = self@.players;
        let mut i: usize = 0;
        assert(reset_players(arr.take(0), m0) =~= m0);
        while i < self.players_array.len()
            invariant
                self.wf(),
                0 <= i <= arr.len(),
                arr == self.players_array@.map_values(|a: String| a@),
                self@ == (GameState { players: reset_players(arr.take(i as int), m0), ..old(self)@ }),
            decreases arr.len() - i,
        {
            let ghost prev = self@;
            let account = self.players_array[i].clone();
            let new_player_metadata = PlayerMetadata { bet_amount: 0, player: account.clone(), is_even: false };
            self.players.insert(&account, new_player_metadata);
            proof {
                let s1 = arr.take(i + 1);
                let s0 = arr.take(i as int);
                assert forall|k: Seq<char>| s1.contains(k) == (s0.contains(k) || k == account@) by {
                    if s1.contains(k) {
                        let j = choose|j: int| 0 <= j < s1.len() && #[trigger] s1[j] == k;
                        if j < i {
                            assert(s0[j] == k);
                        }
                    }
                    if s0.contains(k) {
                        let j = choose|j: int| 0 <= j < s0.len() && #[trigger] s0[j] == k;
                        assert(s1[j] == k);
                    }
                    if k == account@ {
                        assert(s1[i as int] == k);
                    }
                }
                assert(reset_players(arr.take(i + 1), m0) =~= reset_players(arr.take(i as int), m0).insert(
                    account@,
                    fresh_player(account@),
                ));
                assert(self@.players == prev.players.insert(account@, fresh_player(account@)));
                assert(self@.players_array == prev.players_array);
            }
            i = i + 1;
        }
        assert(arr.take(arr.len() as int) =~= arr);
    }
}


/// The balance that the bytes of a successful promise hold.
fn read_balance(bytes: &Vec<u8>) -> (r: Result<u128, ContractError>)
    ensures
        r == match json_u128(bytes@) {
            Some(n) => Ok::<u128, ContractError>(n),
            None => Err(ContractError::InvalidBalance),
        },
{
    match parse_json_u128(bytes) {
        Some(n) => Ok(n),
        None => Err(ContractError::InvalidBalance),
    }
}

impl EvenOddContract {
    /// The dealer.
    pub fn get_owner(&self) -> (r: String)
        ensures
            r@ == self@.owner,
    {
        self.owner.clone()
    }

    /// The ticket contract.
    pub fn get_ticket_address(&self) -> (r: String)
        ensures
            r@ == self@.ticket,
    {
        self.ticket.clone()
    }

    /// The cash contract.
    pub fn get_cash_address(&self) -> (r: String)
        ensures
            r@ == self@.cash,
    {
        self.cash.clone()
    }

    /// Whether the ticket callback's result says the caller holds a ticket.
    pub fn is_have_ticket(&self, results: &Vec<PromiseResult>) -> (r: Result<bool, ContractError>)
        ensures
            r == ticket_result(results@),
    {
        if results.len() != 1 {
            return Err(ContractError::ExpectedOneResult);
        }
        match &results[0] {
            PromiseResult::Successful(value) => {
                let n: u128 = read_balance(value)?;
                if n > 0 {
                    return Ok(true);
                }
                Ok(false)
            },
            _ => Ok(false),
        }
    }

    /// The balance that the balance callback's result holds.
    pub fn have(&self, results: &Vec<PromiseResult>) -> (r: Result<u128, ContractError>)
        ensures
            r == balance_result(results@),
    {
        if results.len() != 1 {
            return Err(ContractError::ExpectedOneResult);
        }
        match &results[0] {
            PromiseResult::Successful(result) => {
                let balance: u128 = read_balance(result)?;
                if balance > 0 {
                    Ok(balance)
                } else {
                    Ok(0)
                }
            },
            _ => Ok(0),
        }
    }

    /// Asks the ticket contract how many tickets the caller holds, and reads the answer
    /// from `results`.
    pub fn nft_balance_of(&self, ctx: &CallContext, results: &Vec<PromiseResult>) -> (r: Result<
        (bool, Vec<Effect>),
        ContractError,
    >)
        ensures
            match ticket_result(results@) {
                Ok(b) => r matches Ok((has, effects)) && has == b && ticket_query(
                    effects@,
                    self@.ticket,
                    ctx.current_account_id@,
                    ctx.predecessor_account_id@,
                ),
                Err(e) => r == Err::<(bool, Vec<Effect>), ContractError>(e),
            },
    {
        let ticket = RemoteContract::new(self.ticket.clone(), NO_DEPOSIT, FT_CALL_GAS);
        let query = ticket.nft_supply_for_owner(ctx.predecessor_account_id.clone());
        let me = RemoteContract::new(ctx.current_account_id.clone(), NO_DEPOSIT, FT_CALL_GAS);
        let callback = me.nft_balance_callback();
        let effects = vec![Effect::Call(query), Effect::Call(callback)];
        let has = self.is_have_ticket(results)?;
        Ok((has, effects))
    }

    /// Asks the cash contract for the dealer's balance, and reads the answer from `results`.
    pub fn get_dealer_balance(&self, ctx: &CallContext, results: &Vec<PromiseResult>) -> (r: Result<
        (u128, Effect),
        ContractError,
    >)
        ensures
            match balance_result(results@) {
                Ok(b) => r matches Ok((balance, e)) && balance == b && dealer_balance_query(
                    e,
                    self@.cash,
                    ctx.current_account_id@,
                    self@.owner,
                ),
                Err(err) => r == Err::<(u128, Effect), ContractError>(err),
            },
    {
        let cash = RemoteContract::new(self.cash.clone(), NO_DEPOSIT, FT_TRANSFER_GAS);
        let query = cash.ft_balance_of(self.owner.clone());
        let me = RemoteContract::new(ctx.current_account_id.clone(), NO_DEPOSIT, FT_CALL_GAS);
        let callback = me.ft_balance_callback();
        let balance: u128 = self.have(results)?;
        Ok((balance, Effect::Then(query, callback)))
    }

    /// Withdraws `amount` cash from the dealer's balance to the caller; refused for 0 and
    /// for more than the dealer's balance, as `results` gives it.
    pub fn withdraw(&mut self, ctx: &CallContext, amount: u128, results: &Vec<PromiseResult>) -> (r: Result<
        Vec<Effect>,
        ContractError,
    >)
        ensures
            *final(self) == *old(self),
            amount == 0 ==> r == Err::<Vec<Effect>, ContractError>(ContractError::ZeroAmount),
            amount > 0 ==> match balance_result(results@) {
                Err(e) => r == Err::<Vec<Effect>, ContractError>(e),
                Ok(balance) => if amount > balance {
                    r == Err::<Vec<Effect>, ContractError>(ContractError::AmountExceedsBalance)
                } else {
                    r matches Ok(effects) && effects@.len() == 2 && dealer_balance_query(
                        effects@[0],
                        old(self)@.cash,
                        ctx.current_account_id@,
                        old(self)@.owner,
                    ) && withdrawal(effects@[1], old(self)@.cash, ctx.predecessor_account_id@, amount)
                },
            },
    {
        if amount == 0 {
            return Err(ContractError::ZeroAmount);
        }
        let (balance, query): (u128, Effect) = self.get_dealer_balance(ctx, results)?;
        if amount > balance {
            return Err(ContractError::AmountExceedsBalance);
        }
        let cash = RemoteContract::new(self.cash.clone(), amount, FT_TRANSFER_GAS);
        let memo = "Withdraw !".to_string();
        let transfer = cash.ft_transfer(ctx.predecessor_account_id.clone(), amount, Some(memo));
        Ok(vec![query, Effect::Call(transfer)])
    }
}


impl EvenOddContract {
    /// Whether `account` has a bet in this roll; refused for an account that is not
    /// registered.
    pub fn is_already_bet(&self, account: String) -> (r: Result<bool, ContractError>)
        requires
            self.wf(),
        ensures
            !self@.players.contains_key(account@) ==> r == Err::<bool, ContractError>(ContractError::UnknownPlayer),
            self@.players.contains_key(account@) ==> r == Ok::<bool, ContractError>(self@.players[account@].bet_amount > 0),
    {
        match self.players.get(&account) {
            Some(p) => {
                if p.bet_amount > 0 {
                    return Ok(true);
                }
                Ok(false)
            },
            None => Err(ContractError::UnknownPlayer),
        }
    }

    /// The amount `account` bet in this roll; refused for an account that is not registered.
    pub fn get_bet_amount_of(&self, account: String) -> (r: Result<u128, ContractError>)
        requires
            self.wf(),
        ensures
            !self@.players.contains_key(account@) ==> r == Err::<u128, ContractError>(ContractError::UnknownPlayer),
            self@.players.contains_key(account@) ==> r == Ok::<u128, ContractError>(self@.players[account@].bet_amount),
    {
        match self.players.get(&account) {
            Some(p) => Ok(p.bet_amount),
            None => Err(ContractError::UnknownPlayer),
        }
    }

    /// The amount `account` bet in this roll and the parity bet on; refused for an account
    /// that is not registered.
    pub fn get_player_info(&self, account: String) -> (r: Result<(u128, bool), ContractError>)
        requires
            self.wf(),
        ensures
            !self@.players.contains_key(account@) ==> r == Err::<(u128, bool), ContractError>(ContractError::UnknownPlayer),
            self@.players.contains_key(account@) ==> r == Ok::<(u128, bool), ContractError>(
                (self@.players[account@].bet_amount, self@.players[account@].is_even),
            ),
    {
        match self.players.get(&account) {
            Some(p) => Ok((p.bet_amount, p.is_even)),
            None => Err(ContractError::UnknownPlayer),
        }
    }

    /// A die: a number from 0 to 99, drawn at random.
    pub fn generate_random_number(&self) -> (r: usize)
        ensures
            r < 100,
    {
        random_in_range(0, 100)
    }

    /// The game's callback on the dealer's balance.
    pub fn ft_balance_callback(&mut self, results: &Vec<PromiseResult>) -> (r: Result<u128, ContractError>)
        ensures
            *final(self) == *old(self),
            r == callback_balance(results@),
    {
        if results.len() != 1 {
            return Err(ContractError::TooManyResults);
        }
        match &results[0] {
            PromiseResult::Failed => Ok(0),
            PromiseResult::Successful(result) => {
                let balance: u128 = read_balance(result)?;
                if balance > 0 {
                    Ok(balance)
                } else {
                    Ok(0)
                }
            },
            _ => Ok(0),
        }
    }

    /// The game's callback on a player's ticket count.
    pub fn nft_balance_callback(&mut self, results: &Vec<PromiseResult>) -> (r: Result<u128, ContractError>)
        ensures
            *final(self) == *old(self),
            r == callback_balance(results@),
    {
        if results.len() != 1 {
            return Err(ContractError::TooManyResults);
        }
        match &results[0] {
            PromiseResult::Failed => Ok(0),
            PromiseResult::Successful(result) => {
                let balance: u128 = read_balance(result)?;
                if balance > 0 {
                    Ok(balance)
                } else {
                    Ok(0)
                }
            },
            _ => Ok(0),
        }
    }

    /// The game's callback on a reward paid to `account_id`: refused unless the payment
    /// succeeded.
    pub fn ft_pay_reward_callback(&mut self, results: &Vec<PromiseResult>, account_id: String, amount: u128) -> (r:
        Result<(), ContractError>)
        ensures
            *final(self) == *old(self),
            r == transfer_result(results@),
    {
        if results.len() != 1 {
            return Err(ContractError::TooManyResults);
        }
        match &results[0] {
            PromiseResult::NotReady => Err(ContractError::PromiseNotReady),
            PromiseResult::Successful(_) => Ok(()),
            PromiseResult::Failed => Err(ContractError::CallFailed),
        }
    }

    /// The game's callback on a bet paid in cash: once the payment succeeded, records the
    /// bet of `amount` on `is_even` for `account_id` and gives back the amount.
    pub fn ft_transfer_callback(
        &mut self,
        results: &Vec<PromiseResult>,
        account_id: String,
        amount: u128,
        is_even: bool,
    ) -> (r: Result<u128, ContractError>)
        requires
            old(self).wf(),
        ensures
            final(self).wf(),
            transfer_result(results@) matches Err(e) ==> r == Err::<u128, ContractError>(e) && final(self)@ == old(self)@,
            transfer_result(results@) is Ok && old(self)@.total_bet_amount + amount > u128::MAX ==> r == Err::<
                u128,
                ContractError,
            >(ContractError::Overflow) && final(self)@ == old(self)@,
            transfer_result(results@) is Ok && old(self)@.total_bet_amount + amount <= u128::MAX ==> r == Ok::<
                u128,
                ContractError,
            >(amount) && final(self)@ == (GameState {
                players: old(self)@.players.insert(
                    account_id@,
                    PlayerView { bet_amount: amount, player: account_id@, is_even },
                ),
                total_bet_amount: (old(self)@.total_bet_amount + amount) as u128,
                total_bet_amount_per_roll: (old(self)@.total_bet_amount_per_roll + amount) as u128,
                ..old(self)@
            }),
    {
        if results.len() != 1 {
            return Err(ContractError::TooManyResults);
        }
        match &results[0] {
            PromiseResult::NotReady => Err(ContractError::PromiseNotReady),
            PromiseResult::Successful(_) => {
                if amount > u128::MAX - self.total_bet_amount {
                    return Err(ContractError::Overflow);
                }
                let value = PlayerMetadata { bet_amount: amount, player: account_id.clone(), is_even };
                self.players.insert(&account_id, value);
                self.total_bet_amount = self.total_bet_amount + amount;
                self.total_bet_amount_per_roll = self.total_bet_amount_per_roll + amount;
                Ok(amount)
            },
            PromiseResult::Failed => Err(ContractError::CallFailed),
        }
    }

    /// Pays `amount` cash to `account` as a reward, and asks to be called back about it.
    pub fn transfer_cash(&mut self, ctx: &CallContext, account: String, amount: u128) -> (r: Effect)
        ensures
            *final(self) == *old(self),
            reward_payment(r, old(self)@.cash, ctx.current_account_id@, account@, amount),
    {
        let cash = RemoteContract::new(self.cash.clone(), amount, FT_TRANSFER_GAS);
        let memo = "Pay reward for players !".to_string();
        let transfer = cash.ft_transfer(account.clone(), amount, Some(memo));
        let me = RemoteContract::new(ctx.current_account_id.clone(), NO_DEPOSIT, PAY_REWARD_CALLBACK_GAS);
        let callback = me.ft_pay_reward_callback(account, amount);
        Effect::Then(transfer, callback)
    }

    /// Clears every listed player's bet and the amount bet in this roll.
    pub fn reset_board(&mut self)
        requires
            old(self).wf(),
        ensures
            final(self).wf(),
            final(self)@ == (GameState {
                players: reset_players(old(self)@.players_array, old(self)@.players),
                total_bet_amount_per_roll: 0,
                ..old(self)@
            }),
    {
        self.total_bet_amount_per_roll = 0;
        self.internal_set_default();
    }
}


/// What registering `account` does, from state `s` to state `t`: refused without a
/// deposit; nothing for an account registered already; otherwise the account is registered
/// with no bet and listed.
pub open spec fn registration(s: GameState, t: GameState, ctx: CallContext, account: Seq<char>, r: Result<bool, ContractError>) -> bool {
    if ctx.attached_deposit < 1 {
        r == Err::<bool, ContractError>(ContractError::DepositRequired) && t == s
    } else if s.players.contains_key(account) {
        r == Ok::<bool, ContractError>(false) && t == s
    } else {
        &&& r == Ok::<bool, ContractError>(true)
        &&& t == (GameState {
            players_array: s.players_array.push(account),
            players: s.players.insert(account, fresh_player(account)),
            ..s
        })
    }
}

/// The parity and amount that a transfer message asks to bet: a JSON object with an
/// `action` member, and a `params` member holding the boolean `is_even` and the integer
/// `amount`. The action's value is not read.
pub open spec fn bet_message(msg: Seq<char>) -> Option<(bool, u64)> {
    if !json_has_member(msg, "action"@) {
        None
    } else {
        match (json_bool_at(msg, "params"@, "is_even"@), json_u64_at(msg, "params"@, "amount"@)) {
            (Some(is_even), Some(amount)) => Some((is_even, amount)),
            _ => None,
        }
    }
}

/// The part of a transfer's answer that a bet decides: everything but the amount given back.
pub open spec fn bet_part(r: Result<(u128, Vec<Effect>), ContractError>) -> Result<Vec<Effect>, ContractError> {
    match r {
        Ok((_, effects)) => Ok(effects),
        Err(e) => Err(e),
    }
}

impl EvenOddContract {
    /// Registers `account_id`, or the caller when it is `None`, with no bet; refused when no
    /// deposit is attached. Gives back whether a new account was registered. (The deposit is
    /// then charged for the storage used, by [`crate::util::refund_deposit`].)
    pub fn storage_deposit(&mut self, ctx: &CallContext, account_id: Option<String>) -> (r: Result<bool, ContractError>)
        requires
            old(self).wf(),
        ensures
            final(self).wf(),
            registration(
                old(self)@,
                final(self)@,
                *ctx,
                match account_id {
                    Some(a) => a@,
                    None => ctx.predecessor_account_id@,
                },
                r,
            ),
    {
        assert_at_least_one_yocto(ctx)?;
        let account = match account_id {
            Some(a) => a,
            None => ctx.predecessor_account_id.clone(),
        };
        let existing = self.players.get(&account).is_some();
        if existing {
            Ok(false)
        } else {
            self.internal_create_account(account);
            Ok(true)
        }
    }

    /// The caller bets `amount` on the dice adding up to an even number (`is_even`) or an
    /// odd one. Refused unless the ticket callback's result (`results`) shows a ticket, the
    /// caller is registered and has no bet in this roll, and the totals stay in range.
    pub fn bet(&mut self, ctx: &CallContext, is_even: bool, amount: u128, results: &Vec<PromiseResult>) -> (r:
        Result<Vec<Effect>, ContractError>)
        requires
            old(self).wf(),
        ensures
            final(self).wf(),
            bet_outcome(old(self)@, final(self)@, *ctx, is_even, amount, results@, r),
    {
        let (has_ticket, effects) = self.nft_balance_of(ctx, results)?;
        if !has_ticket {
            return Err(ContractError::NoTicket);
        }
        if self.is_already_bet(ctx.predecessor_account_id.clone())? {
            return Err(ContractError::AlreadyBet);
        }
        if amount > u128::MAX - self.total_bet_amount {
            return Err(ContractError::Overflow);
        }
        let who = ctx.predecessor_account_id.clone();
        let new_player_metadata = PlayerMetadata { bet_amount: amount, player: who.clone(), is_even };
        self.players.insert(&who, new_player_metadata);
        self.players_array.push(who);
        self.total_bet_amount = self.total_bet_amount + amount;
        self.total_bet_amount_per_roll = self.total_bet_amount_per_roll + amount;
        assert(self@.players_array =~= old(self)@.players_array.push(ctx.predecessor_account_id@));
        Ok(effects)
    }

    /// Settles a roll of the dice `dice_number_1` and `dice_number_2`: refused without a
    /// deposit, for any caller but the owner, and when nothing was bet. Pays each listed
    /// winner twice the bet, clears the bets, and advances the roll number.
    pub fn settle_roll(&mut self, ctx: &CallContext, dice_number_1: usize, dice_number_2: usize) -> (r: Result<
        RollOutcome,
        ContractError,
    >)
        requires
            old(self).wf(),
            dice_number_1 + dice_number_2 <= usize::MAX,
        ensures
            final(self).wf(),
            settled(old(self)@, final(self)@, *ctx, dice_number_1, dice_number_2, r),
    {
        assert_at_least_one_yocto(ctx)?;
        assert_only_owner_access(ctx, &self.owner)?;
        if self.total_bet_amount_per_roll == 0 {
            return Err(ContractError::NoBet);
        }
        let is_even = (dice_number_1 + dice_number_2) % 2 == 0;
        let ghost s = self@;
        let ghost arr = s.players_array;
        let mut effects: Vec<Effect> = Vec::new();
        let mut i: usize = 0;
        assert(arr.take(0) =~= Seq::<Seq<char>>::empty());
        while i < self.players_array.len()
            invariant
                self.wf(),
                self@ == s,
                *self == *old(self),
                ctx.attached_deposit >= 1,
                ctx.predecessor_account_id@ == s.owner,
                s.total_bet_amount_per_roll != 0,
                is_even == ((dice_number_1 + dice_number_2) % 2 == 0),
                0 <= i <= arr.len(),
                arr == self.players_array@.map_values(|a: String| a@),
                effects@.len() == payouts(arr.take(i as int), s.players, is_even).len(),
                forall|j: int|
                    0 <= j < effects@.len() ==> reward_payment(
                        #[trigger] effects@[j],
                        s.cash,
                        ctx.current_account_id@,
                        payouts(arr.take(i as int), s.players, is_even)[j].player,
                        (payouts(arr.take(i as int), s.players, is_even)[j].bet_amount * 2) as u128,
                    ),
                forall|j: int|
                    0 <= j < i ==> !(is_winner(#[trigger] s.players[arr[j]], is_even)
                        && s.players[arr[j]].bet_amount * 2 > u128::MAX),
            decreases arr.len() - i,
        {
            let account = &self.players_array[i];
            proof {
                assert(arr.len() == self.players_array@.len());
                assert(s.players.contains_key(s.players_array[i as int]));
            }
            let p = self.players.get(account).unwrap();
            let ghost w0 = payouts(arr.take(i as int), s.players, is_even);
            proof {
                assert(arr.take(i + 1).drop_last() =~= arr.take(i as int));
                assert(arr.take(i + 1).last() == arr[i as int]);
            }
            let ghost e0 = effects@;
            if p.is_even == is_even && p.bet_amount > 0 {
                if p.bet_amount > u128::MAX / 2 {
                    assert(is_winner(s.players[s.players_array[i as int]], is_even));
                    return Err(ContractError::Overflow);
                }
                let player = p.player.clone();
                let amount: u128 = p.bet_amount * 2;
                let payment = self.transfer_cash(ctx, player, amount);
                effects.push(payment);
                proof {
                    let w1 = payouts(arr.take(i + 1), s.players, is_even);
                    assert(w1 == w0.push(s.players[arr[i as int]]));
                    assert forall|j: int| 0 <= j < effects@.len() implies reward_payment(
                        #[trigger] effects@[j],
                        s.cash,
                        ctx.current_account_id@,
                        w1[j].player,
                        (w1[j].bet_amount * 2) as u128,
                    ) by {
                        if j < w0.len() {
                            assert(effects@[j] == e0[j]);
                        }
                    }
                }
            }
            i = i + 1;
        }
        assert(arr.take(arr.len() as int) =~= arr);
        if self.roll_id == u32::MAX {
            return Err(ContractError::Overflow);
        }
        self.reset_board();
        self.roll_id = self.roll_id + 1;
        Ok(RollOutcome { dice_number_1, dice_number_2, is_even, roll_id: self.roll_id, effects })
    }

    /// Rolls two dice (refused without a deposit, for any caller but the owner, and when
    /// nothing was bet), then settles the roll as [`Self::settle_roll`] does.
    pub fn roll_dice(&mut self, ctx: &CallContext) -> (r: Result<RollOutcome, ContractError>)
        requires
            old(self).wf(),
        ensures
            final(self).wf(),
            exists|d1: usize, d2: usize|
                d1 < 100 && d2 < 100 && #[trigger] settled(old(self)@, final(self)@, *ctx, d1, d2, r),
    {
        let dice_number_1: usize = self.generate_random_number();
        let dice_number_2: usize = self.generate_random_number();
        let r = self.settle_roll(ctx, dice_number_1, dice_number_2);
        assert(settled(old(self)@, self@, *ctx, dice_number_1, dice_number_2, r));
        r
    }
}

impl FungibleTokenReceiver for EvenOddContract {
    open spec fn receiver_inv(&self) -> bool {
        self.wf()
    }

    /// Bets the parity and amount that `msg` names (a JSON object with an `action` and
    /// `params` holding `is_even` and `amount`), on behalf of the caller; refused when `msg`
    /// lacks them. Whatever the action, the bet is placed. Gives back 0 as the amount not
    /// used.
    fn ft_on_transfer(
        &mut self,
        ctx: &CallContext,
        results: &Vec<PromiseResult>,
        sender_id: String,
        amount: u128,
        msg: String,
    ) -> (r: Result<(u128, Vec<Effect>), ContractError>)
        ensures
            match bet_message(msg@) {
                None => r == Err::<(u128, Vec<Effect>), ContractError>(ContractError::InvalidMessage)
                    && final(self)@ == old(self)@,
                Some((is_even, bet_amount)) => {
                    &&& bet_outcome(old(self)@, final(self)@, *ctx, is_even, bet_amount as u128, results@, bet_part(r))
                    &&& r matches Ok((unused, _)) ==> unused == 0
                },
            },
    {
        if !has_json_member(&msg, "action") {
            return Err(ContractError::InvalidMessage);
        }
        let is_even = match json_bool_member(&msg, "params", "is_even") {
            Some(b) => b,
            None => return Err(ContractError::InvalidMessage),
        };
        let bet_amount: u64 = match json_u64_member(&msg, "params", "amount") {
            Some(n) => n,
            None => return Err(ContractError::InvalidMessage),
        };
        let effects = self.bet(ctx, is_even, bet_amount as u128, results)?;
        Ok((0, effects))
    }
}


impl EvenOddContract {
    /// The listed players, in order, with repeats.
    pub fn players_array(&self) -> (r: &Vec<String>)
        ensures
            r@.map_values(|a: String| a@) == self@.players_array,
    {
        &self.players_array
    }

    /// The players' records.
    pub fn players(&self) -> (r: &PlayerMap)
        requires
            self.wf(),
        ensures
            r.wf(),
            r@ == self@.players,
    {
        &self.players
    }

    /// The total of all bets placed.
    pub fn total_bet_amount(&self) -> (r: u128)
        ensures
            r == self@.total_bet_amount,
    {
        self.total_bet_amount
    }

    /// The total of the bets placed in this roll.
    pub fn total_bet_amount_per_roll(&self) -> (r: u128)
        ensures
            r == self@.total_bet_amount_per_roll,
    {
        self.total_bet_amount_per_roll
    }

    /// The number of the current roll.
    pub fn roll_id(&self) -> (r: u32)
        ensures
            r == self@.roll_id,
    {
        self.roll_id
    }

    /// Rebuilds a game from its parts, as stored; `None` when they break the game's
    /// invariant.
    pub fn from_parts(
        owner: String,
        cash: String,
        ticket: String,
        players_array: Vec<String>,
        players: PlayerMap,
        total_bet_amount: u128,
        total_bet_amount_per_roll: u128,
        roll_id: u32,
    ) -> (r: Option<Self>)
        requires
            players.wf(),
        ensures
            ({
                let s = GameState {
                    owner: owner@,
                    cash: cash@,
                    ticket: ticket@,
                    players_array: players_array@.map_values(|a: String| a@),
                    players: players@,
                    total_bet_amount,
                    total_bet_amount_per_roll,
                    roll_id,
                };
                &&& r is Some <==> state_inv(s)
                &&& r matches Some(c) ==> c.wf() && c@ == s
            }),
    {
        let ghost arr = players_array@.map_values(|a: String| a@);
        let keys_match = players.records_match_keys();
        let all_listed = players.contains_all(&players_array);
        if total_bet_amount_per_roll > total_bet_amount || !keys_match || !all_listed {
            proof {
                let s = GameState {
                    owner: owner@,
                    cash: cash@,
                    ticket: ticket@,
                    players_array: arr,
                    players: players@,
                    total_bet_amount,
                    total_bet_amount_per_roll,
                    roll_id,
                };
                if !all_listed {
                    let i = choose|i: int| 0 <= i < players_array@.len() && !players@.contains_key(#[trigger] players_array@[i]@);
                    assert(arr.len() == players_array@.len());
                    assert(arr[i] == players_array@[i]@);
                    assert(!s.players.contains_key(s.players_array[i]));
                } else if !keys_match {
                    let k = choose|k: Seq<char>| #[trigger] players@.contains_key(k) && players@[k].player != k;
                    assert(s.players.contains_key(k) && s.players[k].player != k);
                }
            }
            return None;
        }
        let c = EvenOddContract {
            owner,
            cash,
            ticket,
            players_array,
            players,
            total_bet_amount,
            total_bet_amount_per_roll,
            roll_id,
        };
        assert forall|i: int| 0 <= i < c@.players_array.len() implies c@.players.contains_key(
            #[trigger] c@.players_array[i],
        ) by {
            assert(c.players@.contains_key(c.players_array@[i]@));
        }
        Some(c)
    }
}

} // verus!
