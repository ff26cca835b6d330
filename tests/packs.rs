use poke_ledgers::address::Address;
use poke_ledgers::packs_vrf::{
    ErrorCode, PackEvent, PackLedger, PackOpened, PackPurchased, PackStatus, RewardsClaimed,
    VrfRequested, PACK_PRICE_LAMPORTS,
};
use poke_ledgers::rewards::{generate_pack_rewards, CardReward, Rarity};
use poke_ledgers::transfer::Balances;

fn buyer() -> Address {
    Address::new([4u8; 32])
}

fn funded() -> (PackLedger, Balances) {
    let mut bank = Balances::new();
    bank.deposit(&buyer(), 3 * PACK_PRICE_LAMPORTS).unwrap();
    (PackLedger::new(), bank)
}

fn id(s: &str) -> String {
    s.to_string()
}

#[test]
fn pack_lifecycle_moves_forward() {
    let (mut ledger, mut bank) = funded();
    ledger.buy_pack(&mut bank, id("P1"), buyer()).unwrap();
    assert_eq!(bank.balance_of(&buyer()), 2 * PACK_PRICE_LAMPORTS);
    assert_eq!(ledger.revenue().total_revenue, PACK_PRICE_LAMPORTS);
    assert_eq!(ledger.pack(&id("P1")).unwrap().status, PackStatus::Purchased);
    ledger.request_vrf(&id("P1"), id("req-1")).unwrap();
    let pack = ledger.pack(&id("P1")).unwrap();
    assert_eq!(pack.status, PackStatus::VrfRequested);
    assert_eq!(pack.vrf_request_id, Some(id("req-1")));
    assert!(pack.rewards.is_none());
    ledger.fulfill_vrf(&id("P1"), [0u8; 32], 1_700_000_000).unwrap();
    let pack = ledger.pack(&id("P1")).unwrap();
    assert_eq!(pack.status, PackStatus::Opened);
    assert_eq!(pack.opened_at, Some(1_700_000_000));
    assert_eq!(pack.rewards.as_ref().unwrap().len(), 5);
    assert!(!pack.claimed);
    ledger.claim_rewards(&id("P1")).unwrap();
    assert!(ledger.pack(&id("P1")).unwrap().claimed);
    assert_eq!(ledger.claim_rewards(&id("P1")), Err(ErrorCode::AlreadyClaimed));
}

#[test]
fn second_fulfill_fails_and_keeps_rewards() {
    let (mut ledger, mut bank) = funded();
    ledger.buy_pack(&mut bank, id("P"), buyer()).unwrap();
    ledger.request_vrf(&id("P"), id("r")).unwrap();
    let mut first = [0u8; 32];
    first[0] = 1;
    ledger.fulfill_vrf(&id("P"), first, 10).unwrap();
    let rewards = ledger.pack(&id("P")).unwrap().rewards.clone();
    assert_eq!(
        ledger.fulfill_vrf(&id("P"), [0xffu8; 32], 20),
        Err(ErrorCode::VrfNotRequested)
    );
    let pack = ledger.pack(&id("P")).unwrap();
    assert_eq!(pack.rewards, rewards);
    assert_eq!(pack.opened_at, Some(10));
    assert_eq!(pack.rewards, Some(generate_pack_rewards(first)));
}

#[test]
fn claim_before_fulfill_fails_as_not_opened() {
    let (mut ledger, mut bank) = funded();
    ledger.buy_pack(&mut bank, id("P"), buyer()).unwrap();
    assert_eq!(ledger.claim_rewards(&id("P")), Err(ErrorCode::PackNotOpened));
    ledger.request_vrf(&id("P"), id("r")).unwrap();
    assert_eq!(ledger.claim_rewards(&id("P")), Err(ErrorCode::PackNotOpened));
    assert!(!ledger.pack(&id("P")).unwrap().claimed);
}

#[test]
fn out_of_order_pack_operations_are_refused() {
    let (mut ledger, mut bank) = funded();
    assert_eq!(ledger.request_vrf(&id("none"), id("r")), Err(ErrorCode::PackNotFound));
    assert_eq!(ledger.fulfill_vrf(&id("none"), [0u8; 32], 0), Err(ErrorCode::PackNotFound));
    assert_eq!(ledger.claim_rewards(&id("none")), Err(ErrorCode::PackNotFound));
    ledger.buy_pack(&mut bank, id("P"), buyer()).unwrap();
    assert_eq!(ledger.fulfill_vrf(&id("P"), [0u8; 32], 0), Err(ErrorCode::VrfNotRequested));
    ledger.request_vrf(&id("P"), id("r")).unwrap();
    assert_eq!(ledger.request_vrf(&id("P"), id("r2")), Err(ErrorCode::PackNotPurchased));
    assert_eq!(ledger.pack(&id("P")).unwrap().vrf_request_id, Some(id("r")));
}

#[test]
fn duplicate_and_unfunded_purchases_are_refused() {
    let (mut ledger, mut bank) = funded();
    ledger.buy_pack(&mut bank, id("P"), buyer()).unwrap();
    assert_eq!(
        ledger.buy_pack(&mut bank, id("P"), buyer()),
        Err(ErrorCode::DuplicatePack)
    );
    let poor = Address::new([8u8; 32]);
    assert_eq!(
        ledger.buy_pack(&mut bank, id("Q"), poor),
        Err(ErrorCode::InsufficientFunds)
    );
    assert!(ledger.pack(&id("Q")).is_none());
    assert_eq!(ledger.revenue().total_revenue, PACK_PRICE_LAMPORTS);
    assert_eq!(bank.balance_of(&buyer()), 2 * PACK_PRICE_LAMPORTS);
}

#[test]
fn revenue_accumulates_over_purchases() {
    let (mut ledger, mut bank) = funded();
    ledger.buy_pack(&mut bank, id("A"), buyer()).unwrap();
    ledger.buy_pack(&mut bank, id("B"), buyer()).unwrap();
    ledger.buy_pack(&mut bank, id("C"), buyer()).unwrap();
    assert_eq!(ledger.revenue().total_revenue, 3 * PACK_PRICE_LAMPORTS);
    assert_eq!(bank.balance_of(&buyer()), 0);
    assert_eq!(
        ledger.buy_pack(&mut bank, id("D"), buyer()),
        Err(ErrorCode::InsufficientFunds)
    );
}

#[test]
fn pack_events_are_logged_in_order() {
    let (mut ledger, mut bank) = funded();
    ledger.buy_pack(&mut bank, id("P"), buyer()).unwrap();
    ledger.request_vrf(&id("P"), id("r")).unwrap();
    ledger.fulfill_vrf(&id("P"), [0u8; 32], 5).unwrap();
    ledger.claim_rewards(&id("P")).unwrap();
    let card = CardReward { dex_number: 115, rarity: Rarity::Common, is_shiny: false, level: 1 };
    let expected = vec![
        PackEvent::PackPurchased(PackPurchased {
            pack_id: id("P"),
            buyer: buyer(),
            price_lamports: PACK_PRICE_LAMPORTS,
        }),
        PackEvent::VrfRequested(VrfRequested { pack_id: id("P"), vrf_request_id: id("r") }),
        PackEvent::PackOpened(PackOpened { pack_id: id("P"), buyer: buyer(), rewards: vec![card; 5] }),
        PackEvent::RewardsClaimed(RewardsClaimed { pack_id: id("P"), buyer: buyer() }),
    ];
    assert_eq!(ledger.event_log(), &expected);
}
