use even_odd::cash_game::EvenOddContract;
use even_odd::players::{PlayerMap, PlayerMetadata};
use even_odd::promise::{CallContext, Effect, RemoteMethod};
use even_odd::util::ContractError;

fn ctx(current: &str, signer: &str, predecessor: &str) -> CallContext {
    CallContext {
        current_account_id: current.to_string(),
        signer_account_id: signer.to_string(),
        predecessor_account_id: predecessor.to_string(),
        attached_deposit: 0,
    }
}

fn new_game() -> EvenOddContract {
    let c = ctx("game.near", "dealer.near", "dealer.near");
    match EvenOddContract::constructor(&c, false, "dealer.near".to_string(), "cash.near".to_string(), "ticket.near".to_string()) {
        Ok(g) => g,
        Err(e) => panic!("{:?}", e),
    }
}

#[test]
fn cash_constructor_checks_the_signer() {
    let c = ctx("game.near", "Dealer.near", "dealer.near");
    let r = EvenOddContract::constructor(&c, false, "d".to_string(), "cash.near".to_string(), "ticket.near".to_string());
    assert!(matches!(r, Err(ContractError::InvalidAccountId)));
    for bad in ["a", "-ab", "ab-", "a..b", "a b", ""] {
        let c = ctx("game.near", bad, "dealer.near");
        let r = EvenOddContract::constructor(&c, false, "d".to_string(), "c".to_string(), "t".to_string());
        assert!(matches!(r, Err(ContractError::InvalidAccountId)), "{}", bad);
    }
    for good in ["ab", "a-b_c.d", "0o0", "illia.cheapaccounts.near"] {
        let c = ctx("game.near", good, "dealer.near");
        let r = EvenOddContract::constructor(&c, false, "d".to_string(), "c".to_string(), "t".to_string());
        assert!(r.is_ok(), "{}", good);
    }
    let c = ctx("game.near", "dealer.near", "dealer.near");
    let r = EvenOddContract::constructor(&c, true, "d".to_string(), "c".to_string(), "t".to_string());
    assert!(matches!(r, Err(ContractError::AlreadyInitialized)));
}

#[test]
fn cash_transfer_and_withdraw() {
    let mut game = new_game();
    let c = ctx("game.near", "bob.near", "bob.near");
    match game.transfer(&c, 40) {
        Ok(Effect::Then(resolve, callback)) => {
            assert_eq!(resolve.contract, "cash.near");
            assert_eq!(resolve.deposit, 40);
            match resolve.method {
                RemoteMethod::FtResolveTransfer { sender_id, receiver_id, amount } => {
                    assert_eq!(sender_id, "bob.near");
                    assert_eq!(receiver_id, "game.near");
                    assert_eq!(amount, 40);
                }
                _ => panic!("wrong call"),
            }
            assert_eq!(callback.contract, "game.near");
            match callback.method {
                RemoteMethod::FtTransferCallback { account_id, amount, is_even } => {
                    assert_eq!(account_id, "bob.near");
                    assert_eq!(amount, 40);
                    assert_eq!(is_even, None);
                }
                _ => panic!("wrong call"),
            }
        }
        _ => panic!("expected a chained call"),
    }
    assert!(matches!(game.withdraw(&c, 0), Err(ContractError::ZeroAmount)));
    match game.withdraw(&c, 15) {
        Ok(Effect::Call(resolve)) => match resolve.method {
            RemoteMethod::FtResolveTransfer { sender_id, receiver_id, amount } => {
                assert_eq!(sender_id, "game.near");
                assert_eq!(receiver_id, "bob.near");
                assert_eq!(amount, 15);
            }
            _ => panic!("wrong call"),
        },
        _ => panic!("expected a call"),
    }
    let bad = ctx("game.near", "bob.near", "Bob");
    assert!(matches!(game.transfer(&bad, 1), Err(ContractError::InvalidAccountId)));
    assert!(matches!(game.withdraw(&bad, 1), Err(ContractError::InvalidAccountId)));
}

#[test]
fn cash_bet_checks() {
    let game = new_game();
    let c = ctx("game.near", "bob.near", "bob.near");
    assert!(matches!(game.bet(&c, true, 5, 0), Err(ContractError::NoTicket)));
    assert!(matches!(game.bet(&c, true, 5, 1), Err(ContractError::UnknownPlayer)));
    assert!(matches!(game.is_already_bet("bob.near".to_string()), Err(ContractError::UnknownPlayer)));
    assert!(matches!(game.get_bet_amount_of("bob.near".to_string()), Err(ContractError::UnknownPlayer)));
    assert!(matches!(game.get_player_info("bob.near".to_string()), Err(ContractError::UnknownPlayer)));
}

#[test]
fn cash_roll_checks() {
    let mut game = new_game();
    let stranger = ctx("game.near", "bob.near", "bob.near");
    assert!(matches!(game.settle_roll(&stranger, 1, 2), Err(ContractError::OnlyOwner)));
    let invalid = ctx("game.near", "bob.near", "B");
    assert!(matches!(game.settle_roll(&invalid, 1, 2), Err(ContractError::InvalidAccountId)));
    let owner = ctx("game.near", "dealer.near", "dealer.near");
    assert!(matches!(game.settle_roll(&owner, 1, 2), Err(ContractError::NoBet)));
    assert!(matches!(game.roll_dice(&owner), Err(ContractError::NoBet)));
    game.reset_board();
    assert!(game.generate_random_number() < 100);
}

#[test]
fn cash_transfer_money_receivers() {
    let mut game = new_game();
    let owner = ctx("game.near", "dealer.near", "dealer.near");
    match game.transfer_money(&owner, "dealer.near".to_string(), 8) {
        Ok(Effect::Call(resolve)) => {
            assert_eq!(resolve.deposit, 0);
            match resolve.method {
                RemoteMethod::FtResolveTransfer { sender_id, receiver_id, amount } => {
                    assert_eq!(sender_id, "game.near");
                    assert_eq!(receiver_id, "dealer.near");
                    assert_eq!(amount, 8);
                }
                _ => panic!("wrong call"),
            }
        }
        _ => panic!("expected a call"),
    }
    assert!(matches!(game.transfer_money(&owner, "bob.near".to_string(), 8), Err(ContractError::UnknownPlayer)));
    let bad_game = ctx("Game", "dealer.near", "dealer.near");
    assert!(matches!(game.transfer_money(&bad_game, "dealer.near".to_string(), 8), Err(ContractError::InvalidAccountId)));
}

#[test]
fn cash_dealer_balance_query() {
    let game = new_game();
    match game.get_dealer_balance() {
        Effect::Call(c) => {
            assert_eq!(c.contract, "cash.near");
            match c.method {
                RemoteMethod::FtBalanceOf { account_id } => assert_eq!(account_id, "dealer.near"),
                _ => panic!("wrong call"),
            }
        }
        _ => panic!("expected a call"),
    }
}

#[test]
fn player_map_insert_get() {
    let mut m = PlayerMap::new();
    assert_eq!(m.len(), 0);
    let a = "alice".to_string();
    let b = "bob".to_string();
    m.insert(&a, PlayerMetadata { bet_amount: 1, player: a.clone(), is_even: true });
    m.insert(&b, PlayerMetadata { bet_amount: 2, player: b.clone(), is_even: false });
    m.insert(&a, PlayerMetadata { bet_amount: 3, player: a.clone(), is_even: false });
    assert_eq!(m.len(), 2);
    assert_eq!(m.get(&a).map(|p| p.bet_amount), Some(3));
    assert_eq!(m.get(&b).map(|p| p.is_even), Some(false));
    assert!(m.get(&"carol".to_string()).is_none());
    let (k, v) = m.entry(0);
    assert_eq!(k, &a);
    assert_eq!(v.bet_amount, 3);
    let (k, _) = m.entry(1);
    assert_eq!(k, &b);
}
