//! What holds of the even/odd game across its calls.
use vstd::prelude::*;
use crate::players::PlayerView;
use crate::promise::{CallContext, PromiseResult, Effect};
use crate::util::ContractError;
use super::{
    bet_outcome, fresh_player, is_winner, payouts, registration, reset_players, settled, state_inv,
    ticket_result, GameState, RollOutcome,
};

verus! {

/// A successful bet is recorded: the caller's record holds the amount and the parity bet on
/// (which `get_player_info` then reads back), the caller is listed once more, and both
/// totals grow by the amount.
pub proof fn law_bet_is_recorded(
    s: GameState,
    t: GameState,
    ctx: CallContext,
    is_even: bool,
    amount: u128,
    results: Seq<PromiseResult>,
    r: Result<Vec<Effect>, ContractError>,
)
    requires
        state_inv(s),
        bet_outcome(s, t, ctx, is_even, amount, results, r),
        r is Ok,
    ensures
        ({
            let who = ctx.predecessor_account_id@;
            &&& t.players.contains_key(who)
            &&& t.players[who] == (PlayerView { bet_amount: amount, player: who, is_even })
            &&& t.players_array == s.players_array.push(who)
            &&& t.total_bet_amount == s.total_bet_amount + amount
            &&& t.total_bet_amount_per_roll == s.total_bet_amount_per_roll + amount
        }),
{
}

/// One bet per roll: once a player's bet of a positive amount is placed, a second bet by the
/// same player in the same roll is refused as "Already bet", and changes nothing.
pub proof fn law_one_bet_per_roll(
    s: GameState,
    t: GameState,
    u: GameState,
    ctx: CallContext,
    is_even1: bool,
    amount1: u128,
    results1: Seq<PromiseResult>,
    r1: Result<Vec<Effect>, ContractError>,
    is_even2: bool,
    amount2: u128,
    results2: Seq<PromiseResult>,
    r2: Result<Vec<Effect>, ContractError>,
)
    requires
        bet_outcome(s, t, ctx, is_even1, amount1, results1, r1),
        r1 is Ok,
        amount1 > 0,
        bet_outcome(t, u, ctx, is_even2, amount2, results2, r2),
        ticket_result(results2) == Ok::<bool, ContractError>(true),
    ensures
        r2 == Err::<Vec<Effect>, ContractError>(ContractError::AlreadyBet),
        u == t,
{
}

/// Registering is done once: after an account is registered, registering it again (with a
/// deposit) answers `false` and changes nothing. A registered account has a record, so the
/// queries on it are not refused; a newly registered one has no bet.
pub proof fn law_registration_is_idempotent(
    s: GameState,
    t: GameState,
    u: GameState,
    ctx1: CallContext,
    ctx2: CallContext,
    account: Seq<char>,
    r1: Result<bool, ContractError>,
    r2: Result<bool, ContractError>,
)
    requires
        registration(s, t, ctx1, account, r1),
        r1 is Ok,
        registration(t, u, ctx2, account, r2),
        ctx2.attached_deposit >= 1,
    ensures
        t.players.contains_key(account),
        r1 == Ok::<bool, ContractError>(true) ==> t.players[account].bet_amount == 0,
        r2 == Ok::<bool, ContractError>(false),
        u == t,
{
}

/// A roll clears the bets: after a successful roll every listed player's bet is 0, nothing
/// is bet in the new roll, the roll number has advanced by one, the players not listed keep
/// their records, and the total of all bets is unchanged.
pub proof fn law_roll_clears_bets(
    s: GameState,
    t: GameState,
    ctx: CallContext,
    d1: usize,
    d2: usize,
    r: Result<RollOutcome, ContractError>,
)
    requires
        state_inv(s),
        settled(s, t, ctx, d1, d2, r),
        r is Ok,
    ensures
        forall|i: int| 0 <= i < s.players_array.len() ==> #[trigger] t.players[s.players_array[i]] == fresh_player(
            s.players_array[i],
        ),
        forall|k: Seq<char>|
            s.players.contains_key(k) && !s.players_array.contains(k) ==> #[trigger] t.players[k] == s.players[k],
        t.players.dom() == s.players.dom(),
        t.total_bet_amount_per_roll == 0,
        t.roll_id == s.roll_id + 1,
        t.total_bet_amount == s.total_bet_amount,
        t.players_array == s.players_array,
{
    assert forall|i: int| 0 <= i < s.players_array.len() implies #[trigger] t.players[s.players_array[i]]
        == fresh_player(s.players_array[i]) by {
        assert(s.players_array.contains(s.players_array[i]));
    }
    assert(t.players.dom() =~= s.players.dom()) by {
        assert forall|k: Seq<char>| #[trigger] t.players.dom().contains(k) implies s.players.dom().contains(k) by {
            if s.players_array.contains(k) {
                let i = choose|i: int| 0 <= i < s.players_array.len() && s.players_array[i] == k;
                assert(s.players.contains_key(s.players_array[i]));
            }
        }
    }
}

/// After a successful roll, a listed player may bet again: with a ticket, and totals that
/// stay in range, the player's next bet is accepted.
pub proof fn law_bet_again_after_roll(
    s: GameState,
    t: GameState,
    u: GameState,
    ctx: CallContext,
    d1: usize,
    d2: usize,
    r: Result<RollOutcome, ContractError>,
    ctx2: CallContext,
    is_even: bool,
    amount: u128,
    results: Seq<PromiseResult>,
    r2: Result<Vec<Effect>, ContractError>,
)
    requires
        state_inv(s),
        settled(s, t, ctx, d1, d2, r),
        r is Ok,
        s.players_array.contains(ctx2.predecessor_account_id@),
        bet_outcome(t, u, ctx2, is_even, amount, results, r2),
        ticket_result(results) == Ok::<bool, ContractError>(true),
        t.total_bet_amount + amount <= u128::MAX,
    ensures
        r2 is Ok,
{
    let who = ctx2.predecessor_account_id@;
    let i = choose|i: int| 0 <= i < s.players_array.len() && s.players_array[i] == who;
    law_roll_clears_bets(s, t, ctx, d1, d2, r);
    assert(t.players[s.players_array[i]] == fresh_player(s.players_array[i]));
    assert(s.players.contains_key(s.players_array[i]));
}

/// The winners of a roll.
pub open spec fn winner_of(players: Map<Seq<char>, PlayerView>, is_even: bool) -> spec_fn(Seq<char>) -> bool {
    |k: Seq<char>| is_winner(players[k], is_even)
}

/// The players a roll pays are exactly the listed players who bet a positive amount on the
/// parity rolled, in list order, each as often as listed.
pub proof fn law_payouts_are_the_winners(accounts: Seq<Seq<char>>, players: Map<Seq<char>, PlayerView>, is_even: bool)
    ensures
        payouts(accounts, players, is_even) =~= accounts.filter(winner_of(players, is_even)).map_values(
            |k: Seq<char>| players[k],
        ),
    decreases accounts.len(),
{
    reveal(Seq::filter);
    if accounts.len() > 0 {
        law_payouts_are_the_winners(accounts.drop_last(), players, is_even);
        let f = |k: Seq<char>| players[k];
        let rest = accounts.drop_last().filter(winner_of(players, is_even));
        if is_winner(players[accounts.last()], is_even) {
            assert(rest.push(accounts.last()).map_values(f) =~= rest.map_values(f).push(players[accounts.last()]));
        }
    }
}

/// Clearing the bets of the listed players leaves every one of them with no bet, and every
/// other record as it was.
pub proof fn law_reset_clears_listed(accounts: Seq<Seq<char>>, players: Map<Seq<char>, PlayerView>)
    ensures
        forall|i: int| 0 <= i < accounts.len() ==> #[trigger] reset_players(accounts, players)[accounts[i]]
            == fresh_player(accounts[i]),
        forall|k: Seq<char>|
            players.contains_key(k) && !accounts.contains(k) ==> #[trigger] reset_players(accounts, players)[k]
                == players[k],
{
    assert forall|i: int| 0 <= i < accounts.len() implies #[trigger] reset_players(accounts, players)[accounts[i]]
        == fresh_player(accounts[i]) by {
        assert(accounts.contains(accounts[i]));
    }
}

} // verus!
