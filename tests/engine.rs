use escrow_engine::error::{ErrorCode, LedgerError};
use escrow_engine::record::{winner_from_oracle, AssetKind, EscrowRecord, Policy, Transfer, Winner};
use escrow_engine::registry::Registry;
use escrow_engine::settlement::{checked_sale_total, flip_split};
use escrow_engine::stage::Stage;

const OWNER: u64 = 1;
const TAKER: u64 = 2;
const CUSTODY: u64 = 9;
const COLLECTOR: u64 = 7;
const NFT: AssetKind = AssetKind::NonFungible { mint: 77 };
const TOKEN: AssetKind = AssetKind::Fungible { mint: 55 };

fn funded(policy: Policy, asset: AssetKind, amount: u64) -> EscrowRecord {
    let mut record = EscrowRecord::initialize(OWNER, CUSTODY, asset, policy).unwrap();
    let step = record.deposit(OWNER, amount).unwrap();
    record.commit(step, Ok(())).unwrap();
    record
}

#[test]
fn stage_codes_round_trip() {
    for code in 0u8..=5 {
        let stage = Stage::from(code).unwrap();
        assert_eq!(stage.to_code(), code);
    }
    assert_eq!(Stage::from(1).unwrap(), Stage::Funded);
    assert_eq!(Stage::from(4).unwrap(), Stage::Settled);
}

#[test]
fn unknown_stage_code_is_rejected() {
    assert_eq!(Stage::from(6), Err(ErrorCode::UnknownStage(6)));
    assert_eq!(Stage::from(255), Err(ErrorCode::UnknownStage(255)));
}

#[test]
fn flip_split_exact_values() {
    assert_eq!(flip_split(2000, 200), (40, 1960));
    assert_eq!(flip_split(999, 200), (19, 980));
    assert_eq!(flip_split(1, 9999), (0, 1));
    assert_eq!(flip_split(5000, 10000), (5000, 0));
    assert_eq!(flip_split(u64::MAX, 10000), (u64::MAX, 0));
}

#[test]
fn flip_split_boundaries() {
    assert_eq!(flip_split(0, 200), (0, 0));
    assert_eq!(flip_split(12345, 0), (0, 12345));
    for balance in [0u64, 1, 7, 99, 100, 101, 1_000_000, u64::MAX] {
        for bps in [0u64, 1, 200, 5000, 9999, 10000] {
            let (fee, payout) = flip_split(balance, bps);
            assert_eq!(fee as u128 + payout as u128, balance as u128);
            assert_eq!(fee as u128, balance as u128 * bps as u128 / 10000);
        }
    }
}

#[test]
fn sale_total_checks_overflow() {
    assert_eq!(checked_sale_total(50, 1), Some(50));
    assert_eq!(checked_sale_total(50, 3), Some(150));
    assert_eq!(checked_sale_total(u64::MAX, 2), None);
    assert_eq!(checked_sale_total(0, u64::MAX), Some(0));
}

#[test]
fn initialize_gives_empty_record() {
    let record = EscrowRecord::initialize(OWNER, CUSTODY, AssetKind::Native, Policy::Refundable).unwrap();
    assert_eq!(record.stage, Stage::Uninitialized);
    assert_eq!(record.custodied_amount, 0);
    assert_eq!(record.counterparty, None);
}

#[test]
fn initialize_rejects_fee_above_whole() {
    let policy = Policy::Flip { fee_bps: 10001, fee_collector: COLLECTOR };
    assert_eq!(EscrowRecord::initialize(OWNER, CUSTODY, AssetKind::Native, policy), Err(ErrorCode::InvalidAmount));
}

#[test]
fn flip_scenario_pays_winner_and_collector() {
    let policy = Policy::Flip { fee_bps: 200, fee_collector: COLLECTOR };
    let mut record = EscrowRecord::initialize(OWNER, CUSTODY, AssetKind::Native, policy).unwrap();
    let step = record.deposit(OWNER, 1000).unwrap();
    assert_eq!(step.transfers, vec![Transfer { from: OWNER, to: CUSTODY, asset: AssetKind::Native, amount: 1000 }]);
    record.commit(step, Ok(())).unwrap();
    assert_eq!(record.stage, Stage::Funded);
    assert_eq!(record.custodied_amount, 1000);

    let step = record.accept(TAKER, Winner::Counterparty).unwrap();
    assert_eq!(
        step.transfers,
        vec![
            Transfer { from: TAKER, to: CUSTODY, asset: AssetKind::Native, amount: 1000 },
            Transfer { from: CUSTODY, to: TAKER, asset: AssetKind::Native, amount: 1960 },
            Transfer { from: CUSTODY, to: COLLECTOR, asset: AssetKind::Native, amount: 40 },
        ]
    );
    record.commit(step, Ok(())).unwrap();
    assert_eq!(record.stage, Stage::Settled);
    assert_eq!(record.custodied_amount, 0);
    assert_eq!(record.deposited, 2000);
    assert_eq!(record.released, 2000);
    assert_eq!(record.counterparty, Some(TAKER));
}

#[test]
fn flip_owner_can_win() {
    let policy = Policy::Flip { fee_bps: 200, fee_collector: COLLECTOR };
    let record = funded(policy, AssetKind::Native, 1000);
    let step = record.accept(TAKER, Winner::Owner).unwrap();
    assert_eq!(step.transfers[1], Transfer { from: CUSTODY, to: OWNER, asset: AssetKind::Native, amount: 1960 });
    assert_eq!(step.transfers[2], Transfer { from: CUSTODY, to: COLLECTOR, asset: AssetKind::Native, amount: 40 });
}

#[test]
fn sale_scenario_pays_seller_then_releases() {
    let policy = Policy::Sale { unit_price: 50, price_asset: AssetKind::Native };
    let mut record = funded(policy, NFT, 1);
    let step = record.accept(TAKER, Winner::Counterparty).unwrap();
    assert_eq!(
        step.transfers,
        vec![
            Transfer { from: TAKER, to: OWNER, asset: AssetKind::Native, amount: 50 },
            Transfer { from: CUSTODY, to: TAKER, asset: NFT, amount: 1 },
        ]
    );
    record.commit(step, Ok(())).unwrap();
    assert_eq!(record.stage, Stage::Settled);
    assert_eq!(record.custodied_amount, 0);
    assert_eq!(record.accept(TAKER, Winner::Counterparty).err(), Some(ErrorCode::AlreadySettled));
    assert_eq!(record.settle(Winner::Counterparty).err(), Some(ErrorCode::AlreadySettled));
}

#[test]
fn sale_priced_in_token_for_several_units() {
    let policy = Policy::Sale { unit_price: 50, price_asset: TOKEN };
    let record = funded(policy, NFT, 3);
    let step = record.accept(TAKER, Winner::Owner).unwrap();
    assert_eq!(step.transfers[0], Transfer { from: TAKER, to: OWNER, asset: TOKEN, amount: 150 });
    assert_eq!(step.transfers[1], Transfer { from: CUSTODY, to: TAKER, asset: NFT, amount: 3 });
}

#[test]
fn sale_price_overflow_is_invalid_amount() {
    let policy = Policy::Sale { unit_price: u64::MAX, price_asset: AssetKind::Native };
    let record = funded(policy, TOKEN, 2);
    assert_eq!(record.accept(TAKER, Winner::Owner).err(), Some(ErrorCode::InvalidAmount));
}

#[test]
fn failed_payment_keeps_asset_in_custody() {
    let policy = Policy::Sale { unit_price: 50, price_asset: AssetKind::Native };
    let mut record = funded(policy, NFT, 1);
    let before = record;
    let step = record.accept(TAKER, Winner::Counterparty).unwrap();
    assert_eq!(step.transfers[0].from, TAKER);
    assert_eq!(step.transfers[1].from, CUSTODY);
    let outcome = record.commit(step, Err(LedgerError::InsufficientBalance));
    assert_eq!(outcome, Err(ErrorCode::InsufficientFunds));
    assert_eq!(record, before);
    assert_eq!(record.custodied_amount, 1);
    assert_eq!(record.stage, Stage::Funded);
}

#[test]
fn settle_twice_fails_second_time() {
    let policy = Policy::Flip { fee_bps: 100, fee_collector: COLLECTOR };
    let mut record = funded(policy, AssetKind::Native, 500);
    let step = record.join(TAKER).unwrap();
    record.commit(step, Ok(())).unwrap();
    assert_eq!(record.stage, Stage::Matched);
    assert_eq!(record.custodied_amount, 1000);
    let step = record.settle(Winner::Owner).unwrap();
    assert_eq!(step.transfers[0].amount, 990);
    assert_eq!(step.transfers[1].amount, 10);
    record.commit(step, Ok(())).unwrap();
    assert_eq!(record.settle(Winner::Owner).err(), Some(ErrorCode::AlreadySettled));
    assert_eq!(record.settle(Winner::Counterparty).err(), Some(ErrorCode::AlreadySettled));
}

#[test]
fn settle_needs_a_match() {
    let policy = Policy::Flip { fee_bps: 100, fee_collector: COLLECTOR };
    let record = funded(policy, AssetKind::Native, 500);
    assert_eq!(record.settle(Winner::Owner).err(), Some(ErrorCode::InvalidStage));
}

#[test]
fn cancel_from_funded_refunds_everything() {
    let mut record = funded(Policy::Refundable, TOKEN, 500);
    let step = record.cancel(OWNER).unwrap();
    assert_eq!(step.transfers, vec![Transfer { from: CUSTODY, to: OWNER, asset: TOKEN, amount: 500 }]);
    record.commit(step, Ok(())).unwrap();
    assert_eq!(record.stage, Stage::Cancelled);
    assert_eq!(record.custodied_amount, 0);
    assert_eq!(record.released, 500);
    assert_eq!(record.cancel(OWNER).err(), Some(ErrorCode::InvalidStage));
}

#[test]
fn cancel_matched_sale_returns_listing() {
    let policy = Policy::Sale { unit_price: 50, price_asset: AssetKind::Native };
    let mut record = funded(policy, NFT, 1);
    let step = record.join(TAKER).unwrap();
    assert!(step.transfers.is_empty());
    record.commit(step, Ok(())).unwrap();
    let step = record.cancel(OWNER).unwrap();
    assert_eq!(step.transfers, vec![Transfer { from: CUSTODY, to: OWNER, asset: NFT, amount: 1 }]);
}

#[test]
fn cancel_settled_is_invalid_stage() {
    let policy = Policy::Sale { unit_price: 5, price_asset: AssetKind::Native };
    let mut record = funded(policy, NFT, 1);
    let step = record.accept(TAKER, Winner::Owner).unwrap();
    record.commit(step, Ok(())).unwrap();
    assert_eq!(record.cancel(OWNER).err(), Some(ErrorCode::InvalidStage));
}

#[test]
fn cancel_matched_flip_is_refused() {
    let policy = Policy::Flip { fee_bps: 100, fee_collector: COLLECTOR };
    let mut record = funded(policy, AssetKind::Native, 500);
    let step = record.join(TAKER).unwrap();
    record.commit(step, Ok(())).unwrap();
    assert_eq!(record.cancel(OWNER).err(), Some(ErrorCode::InvalidStage));
}

#[test]
fn refundable_withdraw_scenario() {
    let mut record = funded(Policy::Refundable, TOKEN, 500);
    assert_eq!(record.stage, Stage::Funded);
    let step = record.withdraw(OWNER, 200).unwrap();
    assert_eq!(step.transfers, vec![Transfer { from: CUSTODY, to: OWNER, asset: TOKEN, amount: 200 }]);
    record.commit(step, Ok(())).unwrap();
    assert_eq!(record.stage, Stage::PartiallyWithdrawn);
    assert_eq!(record.custodied_amount, 300);
    assert_eq!(record.withdraw(OWNER, 400).err(), Some(ErrorCode::InsufficientFunds));
    assert_eq!(record.custodied_amount, 300);
}

#[test]
fn with_draw_takes_everything() {
    let mut record = funded(Policy::Refundable, TOKEN, 500);
    let step = record.withdraw(OWNER, 120).unwrap();
    record.commit(step, Ok(())).unwrap();
    let step = record.with_draw(OWNER).unwrap();
    assert_eq!(step.transfers, vec![Transfer { from: CUSTODY, to: OWNER, asset: TOKEN, amount: 380 }]);
    record.commit(step, Ok(())).unwrap();
    assert_eq!(record.custodied_amount, 0);
    assert_eq!(record.stage, Stage::PartiallyWithdrawn);
    assert_eq!(record.with_draw(OWNER).err(), Some(ErrorCode::InvalidAmount));
}

#[test]
fn deposit_after_withdrawal_refunds_again() {
    let mut record = funded(Policy::Refundable, TOKEN, 500);
    let step = record.withdraw(OWNER, 200).unwrap();
    record.commit(step, Ok(())).unwrap();
    let step = record.deposit(OWNER, 50).unwrap();
    record.commit(step, Ok(())).unwrap();
    assert_eq!(record.stage, Stage::Funded);
    assert_eq!(record.custodied_amount, 350);
    assert_eq!(record.deposited, 550);
    assert_eq!(record.released, 200);
}

#[test]
fn withdraw_errors() {
    let record = funded(Policy::Refundable, TOKEN, 500);
    assert_eq!(record.withdraw(TAKER, 10).err(), Some(ErrorCode::Unauthorized));
    assert_eq!(record.withdraw(OWNER, 0).err(), Some(ErrorCode::InvalidAmount));
    let flip = funded(Policy::Flip { fee_bps: 1, fee_collector: COLLECTOR }, AssetKind::Native, 500);
    assert_eq!(flip.withdraw(OWNER, 10).err(), Some(ErrorCode::InvalidStage));
    let fresh = EscrowRecord::initialize(OWNER, CUSTODY, TOKEN, Policy::Refundable).unwrap();
    assert_eq!(fresh.withdraw(OWNER, 10).err(), Some(ErrorCode::InvalidStage));
}

#[test]
fn deposit_errors() {
    let record = funded(Policy::Refundable, TOKEN, 500);
    assert_eq!(record.deposit(TAKER, 10).err(), Some(ErrorCode::Unauthorized));
    assert_eq!(record.deposit(OWNER, 0).err(), Some(ErrorCode::InvalidAmount));
    assert_eq!(record.deposit(OWNER, u64::MAX).err(), Some(ErrorCode::InvalidAmount));
    assert_eq!(record.deposit(OWNER, u64::MAX - 499).err(), Some(ErrorCode::InvalidAmount));
    assert!(record.deposit(OWNER, u64::MAX - 500).is_ok());
}

#[test]
fn accept_errors() {
    let refundable = funded(Policy::Refundable, TOKEN, 500);
    assert_eq!(refundable.accept(TAKER, Winner::Owner).err(), Some(ErrorCode::InvalidStage));
    let flip = funded(Policy::Flip { fee_bps: 1, fee_collector: COLLECTOR }, AssetKind::Native, 500);
    assert_eq!(flip.accept(OWNER, Winner::Owner).err(), Some(ErrorCode::Unauthorized));
    let fresh = EscrowRecord::initialize(OWNER, CUSTODY, NFT, Policy::Sale { unit_price: 1, price_asset: TOKEN }).unwrap();
    assert_eq!(fresh.accept(TAKER, Winner::Owner).err(), Some(ErrorCode::InvalidStage));
}

#[test]
fn edit_price_on_listed_sale() {
    let policy = Policy::Sale { unit_price: 50, price_asset: TOKEN };
    let record = funded(policy, NFT, 1);
    let edited = record.edit_price(OWNER, 80).unwrap();
    assert_eq!(edited.policy, Policy::Sale { unit_price: 80, price_asset: TOKEN });
    assert_eq!(edited.stage, Stage::Funded);
    assert_eq!(edited.custodied_amount, 1);
    assert_eq!(record.edit_price(TAKER, 80).err(), Some(ErrorCode::Unauthorized));
    let step = edited.accept(TAKER, Winner::Owner).unwrap();
    assert_eq!(step.transfers[0].amount, 80);
    let refundable = funded(Policy::Refundable, TOKEN, 5);
    assert_eq!(refundable.edit_price(OWNER, 80).err(), Some(ErrorCode::InvalidStage));
}

#[test]
fn registry_rejects_duplicate_record() {
    let mut registry = Registry::new();
    assert_eq!(registry.initialize(OWNER, CUSTODY, TOKEN, Policy::Refundable), Ok(0));
    assert_eq!(registry.initialize(OWNER, 10, TOKEN, Policy::Refundable), Err(ErrorCode::DuplicateRecord));
    assert_eq!(registry.initialize(OWNER, 11, NFT, Policy::Refundable), Ok(1));
    assert_eq!(registry.initialize(TAKER, 12, TOKEN, Policy::Refundable), Ok(2));
    assert_eq!(registry.records.len(), 3);
    assert_eq!(registry.find(OWNER, NFT), Some(1));
    assert_eq!(registry.find(TAKER, NFT), None);
}

#[test]
fn registry_commit_applies_or_keeps() {
    let mut registry = Registry::new();
    let index = registry.initialize(OWNER, CUSTODY, TOKEN, Policy::Refundable).unwrap();
    let step = registry.records[index].deposit(OWNER, 70).unwrap();
    assert_eq!(registry.commit(index, step, Err(LedgerError::Rejected)), Err(ErrorCode::LedgerTransferFailed(LedgerError::Rejected)));
    assert_eq!(registry.records[index].custodied_amount, 0);
    let step = registry.records[index].deposit(OWNER, 70).unwrap();
    assert_eq!(registry.commit(index, step, Ok(())), Ok(()));
    assert_eq!(registry.records[index].custodied_amount, 70);
    assert_eq!(registry.records[index].stage, Stage::Funded);
}

#[test]
fn check_wf_detects_inconsistent_records() {
    let record = funded(Policy::Refundable, TOKEN, 500);
    assert!(record.check_wf());
    let mut broken = record;
    broken.custodied_amount = 501;
    assert!(!broken.check_wf());
    let mut broken = record;
    broken.released = 501;
    assert!(!broken.check_wf());
    let mut broken = record;
    broken.stage = Stage::Matched;
    assert!(!broken.check_wf());
    let mut broken = record;
    broken.stage = Stage::Settled;
    assert!(!broken.check_wf());
    let bad_fee = EscrowRecord { policy: Policy::Flip { fee_bps: 10001, fee_collector: COLLECTOR }, ..record };
    assert!(!bad_fee.check_wf());
}

#[test]
fn conservation_through_a_flip() {
    let policy = Policy::Flip { fee_bps: 250, fee_collector: COLLECTOR };
    let mut record = funded(policy, AssetKind::Native, 400);
    assert_eq!(record.custodied_amount as u128, record.deposited - record.released);
    let step = record.join(TAKER).unwrap();
    let moved: u64 = step.transfers.iter().map(|t| t.amount).sum();
    assert_eq!(moved, 400);
    record.commit(step, Ok(())).unwrap();
    assert_eq!(record.deposited, 800);
    assert_eq!(record.custodied_amount as u128, record.deposited - record.released);
    let step = record.settle(Winner::Counterparty).unwrap();
    let paid: u64 = step.transfers.iter().map(|t| t.amount).sum();
    assert_eq!(paid, 800);
    assert_eq!(step.transfers[1].amount, 20);
    record.commit(step, Ok(())).unwrap();
    assert_eq!(record.custodied_amount, 0);
    assert_eq!(record.released, record.deposited);
}

#[test]
fn cancel_sale_clears_price() {
    let policy = Policy::Sale { unit_price: 50, price_asset: TOKEN };
    let mut record = funded(policy, NFT, 1);
    let step = record.cancel(OWNER).unwrap();
    assert!(!step.close_custody);
    record.commit(step, Ok(())).unwrap();
    assert_eq!(record.policy, Policy::Sale { unit_price: 0, price_asset: TOKEN });
    assert_eq!(record.custodied_amount, 0);
    assert_eq!(record.stage, Stage::Cancelled);
}

#[test]
fn ledger_refusals_map_to_errors() {
    let mut record = funded(Policy::Refundable, TOKEN, 500);
    let step = record.deposit(OWNER, 10).unwrap();
    assert_eq!(record.commit(step, Err(LedgerError::InsufficientBalance)), Err(ErrorCode::InsufficientFunds));
    let step = record.deposit(OWNER, 10).unwrap();
    assert_eq!(
        record.commit(step, Err(LedgerError::BalanceOverflow)),
        Err(ErrorCode::LedgerTransferFailed(LedgerError::BalanceOverflow))
    );
    assert_eq!(record.custodied_amount, 500);
}

#[test]
fn emptying_withdrawal_closes_custody() {
    let record = funded(Policy::Refundable, TOKEN, 500);
    assert!(!record.withdraw(OWNER, 200).unwrap().close_custody);
    assert!(record.withdraw(OWNER, 500).unwrap().close_custody);
    assert!(record.with_draw(OWNER).unwrap().close_custody);
    assert!(!record.deposit(OWNER, 1).unwrap().close_custody);
}

#[test]
fn funded_record_must_hold_something() {
    let record = funded(Policy::Refundable, TOKEN, 500);
    let empty_funded = EscrowRecord { custodied_amount: 0, released: 500, ..record };
    assert!(!empty_funded.check_wf());
}

#[test]
fn deposit_is_bounded_by_balance_not_history() {
    let record = funded(Policy::Refundable, TOKEN, 1);
    let cycled = EscrowRecord { deposited: u64::MAX as u128, released: u64::MAX as u128 - 1, ..record };
    assert!(cycled.check_wf());
    let step = cycled.deposit(OWNER, 1).unwrap();
    assert_eq!(step.record.custodied_amount, 2);
    assert_eq!(step.record.deposited, u64::MAX as u128 + 1);
    assert_eq!(step.record.released, u64::MAX as u128 - 1);
}

#[test]
fn deposit_counts_restart_at_the_top() {
    let record = funded(Policy::Refundable, TOKEN, 5);
    let worn = EscrowRecord { deposited: u128::MAX, released: u128::MAX - 5, ..record };
    assert!(worn.check_wf());
    let step = worn.deposit(OWNER, 10).unwrap();
    assert_eq!(step.record.custodied_amount, 15);
    assert_eq!(step.record.deposited, 15);
    assert_eq!(step.record.released, 0);
}

#[test]
fn join_is_bounded_by_pool() {
    let policy = Policy::Flip { fee_bps: 0, fee_collector: COLLECTOR };
    let record = funded(policy, AssetKind::Native, 1);
    let half = EscrowRecord { custodied_amount: u64::MAX / 2, deposited: u64::MAX as u128, released: u64::MAX as u128 - (u64::MAX / 2) as u128, ..record };
    assert!(half.check_wf());
    let step = half.join(TAKER).unwrap();
    assert_eq!(step.record.custodied_amount, u64::MAX - 1);
    let over = EscrowRecord { custodied_amount: u64::MAX / 2 + 1, deposited: (u64::MAX / 2 + 1) as u128, released: 0, ..record };
    assert_eq!(over.join(TAKER).err(), Some(ErrorCode::InvalidAmount));
}

#[test]
fn settled_record_refuses_owner_as_already_settled() {
    let policy = Policy::Flip { fee_bps: 200, fee_collector: COLLECTOR };
    let mut record = funded(policy, AssetKind::Native, 1000);
    let step = record.accept(TAKER, Winner::Owner).unwrap();
    record.commit(step, Ok(())).unwrap();
    assert_eq!(record.accept(OWNER, Winner::Owner).err(), Some(ErrorCode::AlreadySettled));
    assert_eq!(record.join(OWNER).err(), Some(ErrorCode::AlreadySettled));
}

#[test]
fn oracle_bytes_give_winner() {
    assert_eq!(winner_from_oracle(0, 4), None);
    assert_eq!(winner_from_oracle(2, 4), None);
    assert_eq!(winner_from_oracle(1, 4), Some(Winner::Owner));
    assert_eq!(winner_from_oracle(1, 7), Some(Winner::Counterparty));
    assert_eq!(winner_from_oracle(1, 0), Some(Winner::Owner));
}
