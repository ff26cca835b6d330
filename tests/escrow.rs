use poke_ledgers::address::Address;
use poke_ledgers::pvp_escrow::{
    protocol_fee, ErrorCode, EscrowEvent, EscrowLedger, LobbyCancelled, LobbyCreated,
    LobbyJoined, LobbyLocked, LobbyStatus, MatchResolved,
};
use poke_ledgers::transfer::Balances;

fn addr(b: u8) -> Address {
    Address::new([b; 32])
}

fn setup() -> (EscrowLedger, Balances, Address, Address, Address) {
    let creator = addr(1);
    let opponent = addr(2);
    let fee = addr(9);
    let mut bank = Balances::new();
    bank.deposit(&creator, 10_000).unwrap();
    bank.deposit(&opponent, 10_000).unwrap();
    (EscrowLedger::new(fee), bank, creator, opponent, fee)
}

fn id(s: &str) -> String {
    s.to_string()
}

#[test]
fn fee_of_one_thousand_is_twenty_five() {
    let fee = protocol_fee(1000);
    assert_eq!(fee, 25);
    assert_eq!(1000 - fee, 975);
}

#[test]
fn fee_truncates_and_never_overflows() {
    assert_eq!(protocol_fee(0), 0);
    assert_eq!(protocol_fee(39), 0);
    assert_eq!(protocol_fee(40), 1);
    assert_eq!(protocol_fee(79), 1);
    assert_eq!(protocol_fee(u64::MAX), 461168601842738790);
}

#[test]
fn vault_holds_both_stakes_then_empties_on_resolve() {
    let (mut ledger, mut bank, creator, opponent, fee) = setup();
    ledger.create_lobby(&mut bank, id("L1"), 500, creator).unwrap();
    assert_eq!(ledger.vault(&id("L1")).unwrap().total_deposited, 500);
    assert_eq!(bank.balance_of(&creator), 9_500);
    ledger.join_lobby(&mut bank, &id("L1"), opponent).unwrap();
    assert_eq!(ledger.vault(&id("L1")).unwrap().total_deposited, 1000);
    assert_eq!(bank.balance_of(&opponent), 9_500);
    ledger.lock_lobby(&id("L1")).unwrap();
    assert_eq!(ledger.lobby(&id("L1")).unwrap().status, LobbyStatus::InProgress);
    ledger.resolve_match(&mut bank, &id("L1"), opponent, [7u8; 32]).unwrap();
    assert_eq!(ledger.vault(&id("L1")).unwrap().total_deposited, 0);
    assert_eq!(bank.balance_of(&opponent), 9_500 + 975);
    assert_eq!(bank.balance_of(&fee), 25);
    assert_eq!(bank.balance_of(&creator), 9_500);
    let lobby = ledger.lobby(&id("L1")).unwrap();
    assert_eq!(lobby.status, LobbyStatus::Resolved);
    assert_eq!(lobby.winner, Some(opponent));
    assert_eq!(lobby.transcript_hash, Some([7u8; 32]));
}

#[test]
fn events_record_every_transition() {
    let (mut ledger, mut bank, creator, opponent, _fee) = setup();
    ledger.create_lobby(&mut bank, id("E"), 100, creator).unwrap();
    ledger.join_lobby(&mut bank, &id("E"), opponent).unwrap();
    ledger.lock_lobby(&id("E")).unwrap();
    ledger.resolve_match(&mut bank, &id("E"), creator, [0u8; 32]).unwrap();
    let expected = vec![
        EscrowEvent::LobbyCreated(LobbyCreated { lobby_id: id("E"), creator, wager_lamports: 100 }),
        EscrowEvent::LobbyJoined(LobbyJoined { lobby_id: id("E"), opponent }),
        EscrowEvent::LobbyLocked(LobbyLocked { lobby_id: id("E") }),
        EscrowEvent::MatchResolved(MatchResolved {
            lobby_id: id("E"),
            winner: creator,
            winnings: 195,
            protocol_fee: 5,
        }),
    ];
    assert_eq!(ledger.event_log(), &expected);
}

#[test]
fn joining_own_lobby_fails_and_changes_nothing() {
    let (mut ledger, mut bank, creator, _opponent, _fee) = setup();
    ledger.create_lobby(&mut bank, id("L"), 500, creator).unwrap();
    let before = ledger.lobby(&id("L")).unwrap().clone();
    let events_before = ledger.event_log().len();
    assert_eq!(
        ledger.join_lobby(&mut bank, &id("L"), creator),
        Err(ErrorCode::CannotJoinOwnLobby)
    );
    assert_eq!(ledger.lobby(&id("L")).unwrap(), &before);
    assert_eq!(ledger.vault(&id("L")).unwrap().total_deposited, 500);
    assert_eq!(bank.balance_of(&creator), 9_500);
    assert_eq!(ledger.event_log().len(), events_before);
}

#[test]
fn cancel_open_lobby_refunds_only_creator() {
    let (mut ledger, mut bank, creator, opponent, fee) = setup();
    ledger.create_lobby(&mut bank, id("C"), 700, creator).unwrap();
    ledger.cancel_lobby(&mut bank, &id("C")).unwrap();
    assert_eq!(bank.balance_of(&creator), 10_000);
    assert_eq!(bank.balance_of(&opponent), 10_000);
    assert_eq!(bank.balance_of(&fee), 0);
    assert_eq!(ledger.vault(&id("C")).unwrap().total_deposited, 0);
    assert_eq!(ledger.lobby(&id("C")).unwrap().status, LobbyStatus::Cancelled);
    assert_eq!(
        ledger.event_log().last(),
        Some(&EscrowEvent::LobbyCancelled(LobbyCancelled { lobby_id: id("C") }))
    );
}

#[test]
fn cancel_full_lobby_refunds_both() {
    let (mut ledger, mut bank, creator, opponent, _fee) = setup();
    ledger.create_lobby(&mut bank, id("C"), 700, creator).unwrap();
    ledger.join_lobby(&mut bank, &id("C"), opponent).unwrap();
    ledger.cancel_lobby(&mut bank, &id("C")).unwrap();
    assert_eq!(bank.balance_of(&creator), 10_000);
    assert_eq!(bank.balance_of(&opponent), 10_000);
    assert_eq!(ledger.vault(&id("C")).unwrap().total_deposited, 0);
}

#[test]
fn duplicate_lobby_is_refused() {
    let (mut ledger, mut bank, creator, opponent, _fee) = setup();
    ledger.create_lobby(&mut bank, id("D"), 10, creator).unwrap();
    assert_eq!(
        ledger.create_lobby(&mut bank, id("D"), 10, opponent),
        Err(ErrorCode::DuplicateLobby)
    );
    assert_eq!(bank.balance_of(&opponent), 10_000);
}

#[test]
fn unfunded_creator_is_refused() {
    let (mut ledger, mut bank, _creator, _opponent, _fee) = setup();
    let poor = addr(5);
    assert_eq!(
        ledger.create_lobby(&mut bank, id("P"), 1, poor),
        Err(ErrorCode::InsufficientFunds)
    );
    assert!(ledger.lobby(&id("P")).is_none());
    assert!(ledger.vault(&id("P")).is_none());
}

#[test]
fn unfunded_opponent_is_refused() {
    let (mut ledger, mut bank, creator, _opponent, _fee) = setup();
    ledger.create_lobby(&mut bank, id("U"), 50, creator).unwrap();
    assert_eq!(
        ledger.join_lobby(&mut bank, &id("U"), addr(6)),
        Err(ErrorCode::InsufficientFunds)
    );
    assert_eq!(ledger.lobby(&id("U")).unwrap().status, LobbyStatus::Open);
}

#[test]
fn operations_out_of_sequence_are_refused() {
    let (mut ledger, mut bank, creator, opponent, _fee) = setup();
    assert_eq!(ledger.lock_lobby(&id("X")), Err(ErrorCode::LobbyNotFound));
    ledger.create_lobby(&mut bank, id("S"), 10, creator).unwrap();
    assert_eq!(ledger.lock_lobby(&id("S")), Err(ErrorCode::LobbyNotFull));
    assert_eq!(
        ledger.resolve_match(&mut bank, &id("S"), creator, [0u8; 32]),
        Err(ErrorCode::LobbyNotInProgress)
    );
    ledger.join_lobby(&mut bank, &id("S"), opponent).unwrap();
    assert_eq!(
        ledger.join_lobby(&mut bank, &id("S"), addr(3)),
        Err(ErrorCode::LobbyNotOpen)
    );
    ledger.lock_lobby(&id("S")).unwrap();
    assert_eq!(ledger.cancel_lobby(&mut bank, &id("S")), Err(ErrorCode::CannotCancelLobby));
    assert_eq!(
        ledger.resolve_match(&mut bank, &id("S"), addr(3), [0u8; 32]),
        Err(ErrorCode::InvalidWinner)
    );
    ledger.resolve_match(&mut bank, &id("S"), creator, [0u8; 32]).unwrap();
    assert_eq!(ledger.cancel_lobby(&mut bank, &id("S")), Err(ErrorCode::CannotCancelLobby));
    assert_eq!(
        ledger.resolve_match(&mut bank, &id("S"), creator, [0u8; 32]),
        Err(ErrorCode::LobbyNotInProgress)
    );
}

#[test]
fn any_caller_may_lock_a_full_lobby() {
    // lock_lobby takes no caller identity: the open question of who may
    // start a match is left as it stands.
    let (mut ledger, mut bank, creator, opponent, _fee) = setup();
    ledger.create_lobby(&mut bank, id("K"), 10, creator).unwrap();
    ledger.join_lobby(&mut bank, &id("K"), opponent).unwrap();
    assert_eq!(ledger.lock_lobby(&id("K")), Ok(()));
}

#[test]
fn payout_that_would_overflow_is_refused() {
    let creator = addr(1);
    let opponent = addr(2);
    let fee = addr(9);
    let mut bank = Balances::new();
    bank.deposit(&creator, 1000).unwrap();
    bank.deposit(&opponent, u64::MAX).unwrap();
    let mut ledger = EscrowLedger::new(fee);
    ledger.create_lobby(&mut bank, id("O"), 1000, creator).unwrap();
    ledger.join_lobby(&mut bank, &id("O"), opponent).unwrap();
    ledger.lock_lobby(&id("O")).unwrap();
    bank.deposit(&opponent, 1000).unwrap();
    assert_eq!(
        ledger.resolve_match(&mut bank, &id("O"), opponent, [0u8; 32]),
        Err(ErrorCode::BalanceOverflow)
    );
    assert_eq!(ledger.vault(&id("O")).unwrap().total_deposited, 2000);
    assert_eq!(bank.balance_of(&fee), 0);
}
