use even_odd::game::core_impl::FungibleTokenReceiver;
use even_odd::game::EvenOddContract;
use even_odd::promise::{CallContext, Effect, PromiseResult, RemoteMethod};
use even_odd::util::{refund_deposit, ContractError};

fn accounts(i: usize) -> String {
    ["alice", "bob", "charlie", "danny", "eugene", "fargo"][i].to_string()
}

fn get_context(predecessor_account_id: String) -> CallContext {
    CallContext {
        current_account_id: accounts(0),
        signer_account_id: predecessor_account_id.clone(),
        predecessor_account_id,
        attached_deposit: 0,
    }
}

fn with_deposit(mut ctx: CallContext, deposit: u128) -> CallContext {
    ctx.attached_deposit = deposit;
    ctx
}

fn balance_result(text: &str) -> Vec<PromiseResult> {
    vec![PromiseResult::Successful(text.as_bytes().to_vec())]
}

fn new_game() -> EvenOddContract {
    let ctx = get_context(accounts(0));
    EvenOddContract::constructor(&ctx, false, accounts(0), accounts(1), accounts(2)).unwrap()
}

fn register(game: &mut EvenOddContract, who: String) {
    let ctx = with_deposit(get_context(who), 1);
    assert_eq!(game.storage_deposit(&ctx, None), Ok(true));
}

#[test]
fn check_constructor() {
    let context = get_context(accounts(0));
    let contract = EvenOddContract::constructor(&context, false, accounts(0), accounts(1), accounts(2)).unwrap();
    println!(
        "{:?}, {:?}, {:?}",
        contract.get_owner(),
        contract.get_cash_address(),
        contract.get_ticket_address()
    );
    assert_eq!(contract.get_owner(), accounts(0));
    assert_eq!(contract.get_cash_address(), accounts(1));
    assert_eq!(contract.get_ticket_address(), accounts(2));
}

#[test]
fn constructor_owner_is_the_signer() {
    let mut context = get_context(accounts(3));
    context.signer_account_id = accounts(4);
    let contract = EvenOddContract::constructor(&context, false, accounts(0), accounts(1), accounts(2)).unwrap();
    assert_eq!(contract.get_owner(), accounts(4));
}

#[test]
fn constructor_refused_when_state_exists() {
    let context = get_context(accounts(0));
    let r = EvenOddContract::constructor(&context, true, accounts(0), accounts(1), accounts(2));
    assert!(matches!(r, Err(ContractError::AlreadyInitialized)));
}

#[test]
fn ticket_result_decoding() {
    let game = new_game();
    assert_eq!(game.is_have_ticket(&balance_result("\"3\"")), Ok(true));
    assert_eq!(game.is_have_ticket(&balance_result("\"0\"")), Ok(false));
    assert_eq!(game.is_have_ticket(&balance_result("3")), Err(ContractError::InvalidBalance));
    assert_eq!(game.is_have_ticket(&vec![PromiseResult::Failed]), Ok(false));
    assert_eq!(game.is_have_ticket(&vec![]), Err(ContractError::ExpectedOneResult));
    assert_eq!(game.have(&balance_result("\"340282366920938463463374607431768211455\"")), Ok(u128::MAX));
    assert_eq!(game.have(&vec![PromiseResult::NotReady]), Ok(0));
}

#[test]
fn storage_deposit_registers_once() {
    let mut game = new_game();
    let ctx = get_context(accounts(3));
    assert_eq!(game.storage_deposit(&ctx, None), Err(ContractError::DepositRequired));
    assert_eq!(game.is_already_bet(accounts(3)), Err(ContractError::UnknownPlayer));
    let ctx = with_deposit(ctx, 1);
    assert_eq!(game.storage_deposit(&ctx, None), Ok(true));
    assert_eq!(game.storage_deposit(&ctx, None), Ok(false));
    assert_eq!(game.storage_deposit(&ctx, Some(accounts(4))), Ok(true));
    assert_eq!(game.get_player_info(accounts(3)), Ok((0, false)));
    assert_eq!(game.get_player_info(accounts(4)), Ok((0, false)));
    assert_eq!(game.is_already_bet(accounts(3)), Ok(false));
}

#[test]
fn bet_is_recorded_and_one_bet_per_roll() {
    let mut game = new_game();
    register(&mut game, accounts(3));
    let ctx = get_context(accounts(3));
    let effects = game.bet(&ctx, true, 50, &balance_result("\"1\"")).unwrap();
    assert_eq!(effects.len(), 2);
    match &effects[0] {
        Effect::Call(c) => {
            assert_eq!(c.contract, accounts(2));
            assert_eq!(c.deposit, 0);
            match &c.method {
                RemoteMethod::NftSupplyForOwner { account_id } => assert_eq!(account_id, &accounts(3)),
                _ => panic!("wrong call"),
            }
        }
        _ => panic!("wrong effect"),
    }
    match &effects[1] {
        Effect::Call(c) => {
            assert_eq!(c.contract, accounts(0));
            assert!(matches!(c.method, RemoteMethod::NftBalanceCallback));
        }
        _ => panic!("wrong effect"),
    }
    assert_eq!(game.get_player_info(accounts(3)), Ok((50, true)));
    assert_eq!(game.get_bet_amount_of(accounts(3)), Ok(50));
    assert_eq!(game.is_already_bet(accounts(3)), Ok(true));
    let again = game.bet(&ctx, false, 10, &balance_result("\"1\""));
    assert!(matches!(again, Err(ContractError::AlreadyBet)));
    assert_eq!(game.get_player_info(accounts(3)), Ok((50, true)));
}

#[test]
fn bet_refusals() {
    let mut game = new_game();
    let ctx = get_context(accounts(3));
    assert!(matches!(game.bet(&ctx, true, 5, &balance_result("\"1\"")), Err(ContractError::UnknownPlayer)));
    register(&mut game, accounts(3));
    assert!(matches!(game.bet(&ctx, true, 5, &balance_result("\"0\"")), Err(ContractError::NoTicket)));
    assert!(matches!(game.bet(&ctx, true, 5, &vec![PromiseResult::Failed]), Err(ContractError::NoTicket)));
    assert!(matches!(game.bet(&ctx, true, 5, &vec![]), Err(ContractError::ExpectedOneResult)));
    assert!(matches!(game.bet(&ctx, true, 5, &balance_result("x")), Err(ContractError::InvalidBalance)));
    assert!(game.bet(&ctx, true, u128::MAX, &balance_result("\"1\"")).is_ok());
    register(&mut game, accounts(4));
    let ctx4 = get_context(accounts(4));
    assert!(matches!(game.bet(&ctx4, true, 1, &balance_result("\"1\"")), Err(ContractError::Overflow)));
    assert_eq!(game.get_player_info(accounts(4)), Ok((0, false)));
}

fn reward_of(e: &Effect) -> (String, u128) {
    match e {
        Effect::Then(c1, c2) => {
            assert_eq!(c1.contract, accounts(1));
            assert!(matches!(c2.method, RemoteMethod::FtPayRewardCallback { .. }));
            match &c1.method {
                RemoteMethod::FtTransfer { receiver_id, amount, memo } => {
                    assert_eq!(memo.as_deref(), Some("Pay reward for players !"));
                    assert_eq!(c1.deposit, *amount);
                    (receiver_id.clone(), *amount)
                }
                _ => panic!("wrong call"),
            }
        }
        _ => panic!("wrong effect"),
    }
}

#[test]
fn roll_pays_winners_twice_and_clears_bets() {
    let mut game = new_game();
    register(&mut game, accounts(3));
    register(&mut game, accounts(4));
    register(&mut game, accounts(5));
    game.bet(&get_context(accounts(3)), true, 10, &balance_result("\"1\"")).unwrap();
    game.bet(&get_context(accounts(4)), false, 20, &balance_result("\"1\"")).unwrap();
    let owner = with_deposit(get_context(accounts(0)), 1);
    let outcome = game.settle_roll(&owner, 2, 4).unwrap();
    assert!(outcome.is_even);
    assert_eq!(outcome.roll_id, 2);
    assert_eq!(outcome.dice_number_1, 2);
    assert_eq!(outcome.dice_number_2, 4);
    // The winner was listed twice: once when registered, once when betting.
    assert_eq!(outcome.effects.len(), 2);
    assert_eq!(reward_of(&outcome.effects[0]), (accounts(3), 20));
    assert_eq!(reward_of(&outcome.effects[1]), (accounts(3), 20));
    assert_eq!(game.get_player_info(accounts(3)), Ok((0, false)));
    assert_eq!(game.get_player_info(accounts(4)), Ok((0, false)));
    assert_eq!(game.is_already_bet(accounts(5)), Ok(false));
    // Nothing is bet in the new roll.
    assert!(matches!(game.settle_roll(&owner, 1, 1), Err(ContractError::NoBet)));
    // A listed player may bet again.
    assert!(game.bet(&get_context(accounts(4)), true, 7, &balance_result("\"1\"")).is_ok());
    let outcome = game.settle_roll(&owner, 1, 2).unwrap();
    assert!(!outcome.is_even);
    assert_eq!(outcome.roll_id, 3);
    assert_eq!(outcome.effects.len(), 0);
}

#[test]
fn roll_refusals() {
    let mut game = new_game();
    register(&mut game, accounts(3));
    let owner = get_context(accounts(0));
    assert!(matches!(game.settle_roll(&owner, 1, 1), Err(ContractError::DepositRequired)));
    let stranger = with_deposit(get_context(accounts(3)), 1);
    assert!(matches!(game.settle_roll(&stranger, 1, 1), Err(ContractError::OnlyOwner)));
    let owner = with_deposit(owner, 1);
    assert!(matches!(game.settle_roll(&owner, 1, 1), Err(ContractError::NoBet)));
    game.bet(&get_context(accounts(3)), true, u128::MAX, &balance_result("\"1\"")).unwrap();
    assert!(matches!(game.settle_roll(&owner, 1, 1), Err(ContractError::Overflow)));
    assert_eq!(game.get_player_info(accounts(3)), Ok((u128::MAX, true)));
    // An odd roll has no winner, so no prize overflows.
    assert!(game.settle_roll(&owner, 1, 2).is_ok());
}

#[test]
fn roll_dice_draws_two_dice() {
    let mut game = new_game();
    register(&mut game, accounts(3));
    game.bet(&get_context(accounts(3)), true, 10, &balance_result("\"1\"")).unwrap();
    let owner = with_deposit(get_context(accounts(0)), 1);
    let outcome = game.roll_dice(&owner).unwrap();
    assert!(outcome.dice_number_1 < 100);
    assert!(outcome.dice_number_2 < 100);
    assert_eq!(outcome.is_even, (outcome.dice_number_1 + outcome.dice_number_2) % 2 == 0);
    assert_eq!(outcome.effects.len(), if outcome.is_even { 2 } else { 0 });
    assert_eq!(game.get_player_info(accounts(3)), Ok((0, false)));
    for _ in 0..100 {
        assert!(game.generate_random_number() < 100);
    }
}

#[test]
fn withdraw_checks_the_dealer_balance() {
    let mut game = new_game();
    let ctx = get_context(accounts(3));
    assert!(matches!(game.withdraw(&ctx, 0, &balance_result("\"100\"")), Err(ContractError::ZeroAmount)));
    assert!(matches!(game.withdraw(&ctx, 200, &balance_result("\"100\"")), Err(ContractError::AmountExceedsBalance)));
    assert!(matches!(game.withdraw(&ctx, 1, &vec![]), Err(ContractError::ExpectedOneResult)));
    let effects = game.withdraw(&ctx, 100, &balance_result("\"100\"")).unwrap();
    assert_eq!(effects.len(), 2);
    match &effects[0] {
        Effect::Then(c1, c2) => {
            assert_eq!(c1.contract, accounts(1));
            match &c1.method {
                RemoteMethod::FtBalanceOf { account_id } => assert_eq!(account_id, &accounts(0)),
                _ => panic!("wrong call"),
            }
            assert!(matches!(c2.method, RemoteMethod::FtBalanceCallback));
        }
        _ => panic!("wrong effect"),
    }
    match &effects[1] {
        Effect::Call(c) => {
            assert_eq!(c.contract, accounts(1));
            assert_eq!(c.deposit, 100);
            match &c.method {
                RemoteMethod::FtTransfer { receiver_id, amount, memo } => {
                    assert_eq!(receiver_id, &accounts(3));
                    assert_eq!(*amount, 100);
                    assert_eq!(memo.as_deref(), Some("Withdraw !"));
                }
                _ => panic!("wrong call"),
            }
        }
        _ => panic!("wrong effect"),
    }
}

#[test]
fn dealer_balance_reads_the_callback_result() {
    let game = new_game();
    let ctx = get_context(accounts(3));
    let (balance, _) = game.get_dealer_balance(&ctx, &balance_result("\"42\"")).unwrap();
    assert_eq!(balance, 42);
    let (balance, _) = game.get_dealer_balance(&ctx, &vec![PromiseResult::Failed]).unwrap();
    assert_eq!(balance, 0);
    let (has, effects) = game.nft_balance_of(&ctx, &balance_result("\"2\"")).unwrap();
    assert!(has);
    assert_eq!(effects.len(), 2);
}

#[test]
fn transfer_message_places_a_bet() {
    let mut game = new_game();
    register(&mut game, accounts(3));
    let ctx = get_context(accounts(3));
    let msg = "{\"action\":\"bet\",\"params\":{\"is_even\":true,\"amount\":10}}".to_string();
    let (unused, effects) = game
        .ft_on_transfer(&ctx, &balance_result("\"1\""), accounts(3), 10, msg)
        .unwrap();
    assert_eq!(unused, 0);
    assert_eq!(effects.len(), 2);
    assert_eq!(game.get_player_info(accounts(3)), Ok((10, true)));
}

#[test]
fn transfer_message_any_action_bets() {
    let mut game = new_game();
    register(&mut game, accounts(3));
    let ctx = get_context(accounts(3));
    let msg = "{\"action\":\"deposit\",\"params\":{\"is_even\":false,\"amount\":4}}".to_string();
    assert!(game.ft_on_transfer(&ctx, &balance_result("\"1\""), accounts(3), 4, msg).is_ok());
    assert_eq!(game.get_player_info(accounts(3)), Ok((4, false)));
}

#[test]
fn transfer_message_refusals() {
    let mut game = new_game();
    register(&mut game, accounts(3));
    let ctx = get_context(accounts(3));
    for msg in [
        "not json",
        "{\"params\":{\"is_even\":true,\"amount\":10}}",
        "{\"action\":\"bet\"}",
        "{\"action\":\"bet\",\"params\":{\"amount\":10}}",
        "{\"action\":\"bet\",\"params\":{\"is_even\":\"true\",\"amount\":10}}",
        "{\"action\":\"bet\",\"params\":{\"is_even\":true,\"amount\":-1}}",
        "{\"action\":\"bet\",\"params\":{\"is_even\":true}}",
    ] {
        let r = game.ft_on_transfer(&ctx, &balance_result("\"1\""), accounts(3), 10, msg.to_string());
        assert!(matches!(r, Err(ContractError::InvalidMessage)), "{}", msg);
    }
    assert_eq!(game.get_player_info(accounts(3)), Ok((0, false)));
    let msg = "{\"action\":\"bet\",\"params\":{\"is_even\":true,\"amount\":10}}".to_string();
    let r = game.ft_on_transfer(&ctx, &balance_result("\"0\""), accounts(3), 10, msg);
    assert!(matches!(r, Err(ContractError::NoTicket)));
}

#[test]
fn balance_callbacks() {
    let mut game = new_game();
    assert_eq!(game.ft_balance_callback(&vec![PromiseResult::Failed]), Ok(0));
    assert_eq!(game.ft_balance_callback(&balance_result("\"7\"")), Ok(7));
    assert_eq!(game.ft_balance_callback(&balance_result("\"0\"")), Ok(0));
    assert_eq!(game.nft_balance_callback(&vec![PromiseResult::NotReady]), Ok(0));
    assert_eq!(game.nft_balance_callback(&balance_result("\"2\"")), Ok(2));
    assert_eq!(
        game.nft_balance_callback(&vec![PromiseResult::Failed, PromiseResult::Failed]),
        Err(ContractError::TooManyResults)
    );
    assert_eq!(game.ft_balance_callback(&balance_result("\"-2\"")), Err(ContractError::InvalidBalance));
}

#[test]
fn transfer_callback_records_the_bet() {
    let mut game = new_game();
    let ok = vec![PromiseResult::Successful(vec![])];
    assert_eq!(game.ft_transfer_callback(&vec![PromiseResult::Failed], accounts(3), 5, true), Err(ContractError::CallFailed));
    assert_eq!(
        game.ft_transfer_callback(&vec![PromiseResult::NotReady], accounts(3), 5, true),
        Err(ContractError::PromiseNotReady)
    );
    assert_eq!(game.ft_transfer_callback(&vec![], accounts(3), 5, true), Err(ContractError::TooManyResults));
    assert_eq!(game.is_already_bet(accounts(3)), Err(ContractError::UnknownPlayer));
    assert_eq!(game.ft_transfer_callback(&ok, accounts(3), 5, true), Ok(5));
    assert_eq!(game.get_player_info(accounts(3)), Ok((5, true)));
}

#[test]
fn pay_reward_callback() {
    let mut game = new_game();
    let ok = vec![PromiseResult::Successful(vec![])];
    assert_eq!(game.ft_pay_reward_callback(&ok, accounts(3), 5), Ok(()));
    assert_eq!(game.ft_pay_reward_callback(&vec![PromiseResult::Failed], accounts(3), 5), Err(ContractError::CallFailed));
}

#[test]
fn transfer_cash_builds_the_reward() {
    let mut game = new_game();
    let ctx = get_context(accounts(0));
    let e = game.transfer_cash(&ctx, accounts(4), 30);
    assert_eq!(reward_of(&e), (accounts(4), 30));
}

#[test]
fn reset_board_clears_listed_bets() {
    let mut game = new_game();
    register(&mut game, accounts(3));
    game.bet(&get_context(accounts(3)), false, 9, &balance_result("\"1\"")).unwrap();
    game.reset_board();
    assert_eq!(game.get_player_info(accounts(3)), Ok((0, false)));
    let owner = with_deposit(get_context(accounts(0)), 1);
    assert!(matches!(game.settle_roll(&owner, 1, 1), Err(ContractError::NoBet)));
}

#[test]
fn refund_deposit_charges_storage() {
    let ctx = with_deposit(get_context(accounts(3)), 1_000_000_000_000_000_000_005);
    match refund_deposit(&ctx, 100) {
        Ok(Some(Effect::Transfer { receiver, amount })) => {
            assert_eq!(receiver, accounts(3));
            assert_eq!(amount, 5);
        }
        _ => panic!("expected a refund"),
    }
    let ctx = with_deposit(get_context(accounts(3)), 1_000_000_000_000_000_000_001);
    assert!(matches!(refund_deposit(&ctx, 100), Ok(None)));
    let ctx = with_deposit(get_context(accounts(3)), 10);
    assert_eq!(
        refund_deposit(&ctx, 100).err(),
        Some(ContractError::InsufficientStorageDeposit { required: 1_000_000_000_000_000_000_000 })
    );
    assert!(matches!(refund_deposit(&ctx, 0), Ok(Some(Effect::Transfer { amount: 10, .. }))));
}
