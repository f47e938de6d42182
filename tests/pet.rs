use tamagotchi::pet::{
    BOREDOM_PER_BLOCK, FILL_PER_ENTERTAINMENT, FILL_PER_FEED, FULL, HUNGER_PER_BLOCK,
};
use tamagotchi::{
    apply_decay_and_refill, handle, require_owner, ActorId, TmgAction, TmgError, TmgEvent,
    Tamagotchi,
};

fn actor(b: u8) -> ActorId {
    ActorId { bytes: [b; 32] }
}

fn fresh(t0: u64) -> Tamagotchi {
    Tamagotchi::new(String::from("Rex"), t0, actor(1))
}

fn vitals(p: &Tamagotchi) -> [u64; 6] {
    [p.fed, p.fed_block, p.entertained, p.entertained_block, p.rested, p.rested_block]
}

#[test]
fn scenario_name_and_age() {
    let p = fresh(1234);
    assert_eq!(p.get_name(), "Rex");
    assert_eq!(p.get_age(), 1234);
}

#[test]
fn new_pet_starts_full_and_owned_by_creator() {
    let p = fresh(77);
    assert_eq!(vitals(&p), [FULL, 77, FULL, 77, FULL, 77]);
    assert_eq!(FULL, 10000);
    assert_eq!(p.owner, actor(1));
    assert_eq!(p.allowed_account, Some(actor(1)));
    assert_eq!(p.ft_contract_id, None);
}

#[test]
fn scenario_feed_after_500_ticks() {
    let t0 = 1000;
    let mut p = fresh(t0);
    p.feed(t0 + 500);
    assert_eq!(HUNGER_PER_BLOCK, 1);
    assert_eq!(FILL_PER_FEED, 1000);
    assert_eq!(p.fed, 10500);
    assert_eq!(p.fed_block, t0 + 500);
    assert_eq!(p.entertained, FULL);
    assert_eq!(p.rested, FULL);
}

#[test]
fn scenario_transfer_then_old_owner_refused() {
    let mut p = fresh(0);
    assert_eq!(p.transfer(actor(1), actor(2)), Ok(()));
    assert_eq!(p.owner, actor(2));
    assert_eq!(p.transfer(actor(1), actor(3)), Err(TmgError::Unauthorized));
    assert_eq!(p.owner, actor(2));
}

#[test]
fn scenario_approve_then_revoke() {
    let mut p = fresh(0);
    assert_eq!(p.approve(actor(1), actor(3)), Ok(()));
    assert_eq!(p.allowed_account, Some(actor(3)));
    assert_eq!(p.approve(actor(1), actor(4)), Ok(()));
    assert_eq!(p.allowed_account, Some(actor(4)));
    assert_eq!(p.revokeapproval(actor(1)), Ok(()));
    assert_eq!(p.allowed_account, None);
}

#[test]
fn scenario_anyone_may_play() {
    let mut p = fresh(10);
    p.play(110);
    assert_eq!(BOREDOM_PER_BLOCK, 2);
    assert_eq!(FILL_PER_ENTERTAINMENT, 1000);
    assert_eq!(p.entertained, 10000 - 200 + 1000);
    assert_eq!(p.entertained_block, 110);
    let r = handle(&mut p, actor(9), 120, TmgAction::Play);
    assert_eq!(r, Ok(None));
    assert_eq!(p.entertained, 10800 - 20 + 1000);
    assert_eq!(p.entertained_block, 120);
}

#[test]
fn sleep_only_moves_stamp() {
    let mut p = fresh(10);
    p.sleep(500);
    assert_eq!(p.rested, FULL);
    assert_eq!(p.rested_block, 500);
    assert_eq!(p.fed_block, 10);
}

#[test]
fn feed_sequence_stays_within_bound() {
    let mut p = fresh(0);
    let times = [0u64, 3, 3, 9000, 9000, 12000, 40000];
    for &t in times.iter() {
        let before = (p.fed, p.fed_block);
        if t <= p.fed_block {
            p.feed(t);
            assert_eq!((p.fed, p.fed_block), before);
            continue;
        }
        let kept = before.0.saturating_sub((t - before.1) * HUNGER_PER_BLOCK);
        p.feed(t);
        assert!(p.fed <= kept + FILL_PER_FEED);
        assert_eq!(p.fed, kept + FILL_PER_FEED);
        assert_eq!(p.fed_block, t);
    }
    assert_eq!(p.fed, 1000);
}

#[test]
fn same_timestamp_twice_is_one_action() {
    let once = apply_decay_and_refill(5000, 100, 200, 3, 250);
    assert_eq!(once, (5000 - 300 + 250, 200));
    let twice = apply_decay_and_refill(once.0, once.1, 200, 3, 250);
    assert_eq!(twice, once);
    assert_eq!(apply_decay_and_refill(42, 100, 100, 5, 1000), (42, 100));
}

#[test]
fn second_feed_and_play_at_same_timestamp_change_nothing() {
    let mut p = fresh(0);
    p.feed(5);
    p.play(5);
    let after_first = vitals(&p);
    assert_eq!(after_first, [10000 - 5 + 1000, 5, 10000 - 10 + 1000, 5, FULL, 0]);
    p.feed(5);
    p.play(5);
    assert_eq!(vitals(&p), after_first);
    let mut q = fresh(7);
    q.feed(7);
    q.play(7);
    q.sleep(7);
    assert_eq!(vitals(&q), [FULL, 7, FULL, 7, FULL, 7]);
}

#[test]
fn clock_regression_changes_nothing() {
    assert_eq!(apply_decay_and_refill(42, 100, 99, 5, 1000), (42, 100));
    let mut p = fresh(1000);
    let before = vitals(&p);
    p.feed(999);
    p.play(0);
    p.sleep(500);
    assert_eq!(vitals(&p), before);
    for a in [TmgAction::Feed, TmgAction::Play, TmgAction::Sleep] {
        assert_eq!(handle(&mut p, actor(1), 3, a), Ok(None));
    }
    assert_eq!(vitals(&p), before);
}

#[test]
fn decay_saturates_at_zero() {
    assert_eq!(apply_decay_and_refill(10, 0, 100, 1, 0), (0, 100));
    assert_eq!(apply_decay_and_refill(10, 0, 100, 1, 7), (7, 100));
    assert_eq!(apply_decay_and_refill(10, 0, u64::MAX, u64::MAX, 5), (5, u64::MAX));
}

#[test]
fn refill_saturates_at_max() {
    assert_eq!(apply_decay_and_refill(u64::MAX - 1, 0, 1, 1, 10), (u64::MAX, 1));
}

#[test]
fn owner_gated_operations_refuse_others() {
    let mut p = fresh(0);
    let stranger = actor(5);
    assert_eq!(p.transfer(stranger, stranger), Err(TmgError::Unauthorized));
    assert_eq!(p.approve(stranger, stranger), Err(TmgError::Unauthorized));
    assert_eq!(p.revokeapproval(stranger), Err(TmgError::Unauthorized));
    assert_eq!(p.setftokencontract(stranger, stranger), Err(TmgError::Unauthorized));
    assert_eq!(p.approvetokens(stranger, stranger, 10), Err(TmgError::Unauthorized));
    assert_eq!(p.buyattribute(stranger, stranger, 3), Err(TmgError::Unauthorized));
    assert_eq!(p.owner, actor(1));
    assert_eq!(p.allowed_account, Some(actor(1)));
    assert_eq!(p.ft_contract_id, None);
}

#[test]
fn owner_gated_operations_succeed_for_owner() {
    let mut p = fresh(0);
    let owner = actor(1);
    assert_eq!(p.setftokencontract(owner, actor(7)), Ok(TmgEvent::SetFTokenContract));
    assert_eq!(p.ft_contract_id, Some(actor(7)));
    assert_eq!(p.approvetokens(owner, actor(8), 500), Ok(()));
    assert_eq!(p.buyattribute(owner, actor(9), 4), Ok(()));
    assert_eq!(p.ft_contract_id, Some(actor(7)));
    assert_eq!(vitals(&p), [FULL, 0, FULL, 0, FULL, 0]);
}

#[test]
fn require_owner_compares_every_byte() {
    let a = actor(1);
    let mut b = actor(1);
    b.bytes[31] = 2;
    assert_eq!(require_owner(a, a), Ok(()));
    assert_eq!(require_owner(b, a), Err(TmgError::Unauthorized));
    assert!(a != b);
}

#[test]
fn handle_replies() {
    let mut p = fresh(55);
    let owner = actor(1);
    assert_eq!(handle(&mut p, actor(3), 60, TmgAction::Name), Ok(Some(TmgEvent::Name(String::from("Rex")))));
    assert_eq!(handle(&mut p, actor(3), 60, TmgAction::Age), Ok(Some(TmgEvent::Age(55))));
    assert_eq!(handle(&mut p, actor(3), 60, TmgAction::Feed), Ok(None));
    assert_eq!(p.fed, 10000 - 5 + 1000);
    assert_eq!(
        handle(&mut p, owner, 60, TmgAction::SetFTokenContract(actor(6))),
        Ok(Some(TmgEvent::SetFTokenContract))
    );
    assert_eq!(
        handle(&mut p, owner, 60, TmgAction::ApproveTokens { account: actor(2), amount: 9 }),
        Ok(None)
    );
    assert_eq!(
        handle(&mut p, owner, 60, TmgAction::BuyAttribute { store_id: actor(2), attribute_id: 1 }),
        Ok(None)
    );
    assert_eq!(handle(&mut p, owner, 60, TmgAction::Approve(actor(4))), Ok(None));
    assert_eq!(p.allowed_account, Some(actor(4)));
    assert_eq!(handle(&mut p, actor(4), 60, TmgAction::RevokeApproval), Err(TmgError::Unauthorized));
    assert_eq!(p.allowed_account, Some(actor(4)));
    assert_eq!(handle(&mut p, owner, 60, TmgAction::RevokeApproval), Ok(None));
    assert_eq!(p.allowed_account, None);
    assert_eq!(handle(&mut p, owner, 60, TmgAction::Transfer(actor(2))), Ok(None));
    assert_eq!(
        handle(&mut p, owner, 60, TmgAction::Transfer(actor(1))),
        Err(TmgError::Unauthorized)
    );
    assert_eq!(p.owner, actor(2));
}
