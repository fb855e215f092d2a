//! The expiry scanner: paged, read-only discovery of expired escrows.

use escrow::AccountId;
use escrow::Balance;
use escrow::EscrowContract;
use escrow::PSP22Error;
use escrow::PSP22;

const ALICE: AccountId = 1;
const BOB: AccountId = 2;
const EVE: AccountId = 5;
const DJANGO: AccountId = 4;
const CUSTODY: AccountId = 99;

const FEE_BPS: u16 = 100;
const DAY_MS: u64 = 24 * 60 * 60 * 1000;

/// A token that accepts everything.
struct MockToken;

impl PSP22 for MockToken {
    fn total_supply(&self) -> Balance {
        0
    }

    fn balance_of(&self, _owner: AccountId) -> Balance {
        0
    }

    fn allowance(&self, _owner: AccountId, _spender: AccountId) -> Balance {
        Balance::MAX
    }

    fn transfer(&mut self, _to: AccountId, _value: Balance, _data: Vec<u8>) -> Result<(), PSP22Error> {
        Ok(())
    }

    fn transfer_from(
        &mut self,
        _from: AccountId,
        _to: AccountId,
        _value: Balance,
        _data: Vec<u8>,
    ) -> Result<(), PSP22Error> {
        Ok(())
    }

    fn approve(&mut self, _spender: AccountId, _value: Balance) -> Result<(), PSP22Error> {
        Ok(())
    }
}

#[test]
fn get_expired_escrows_returns_empty_initially() {
    let contract = EscrowContract::new(ALICE, CUSTODY, FEE_BPS, EVE, DJANGO);

    let expired = contract.get_expired_escrows(0, 0, 10);
    assert!(expired.is_empty());
}

#[test]
fn get_expired_escrows_with_zero_limit() {
    let contract = EscrowContract::new(ALICE, CUSTODY, FEE_BPS, EVE, DJANGO);

    let expired = contract.get_expired_escrows(0, 0, 0);
    assert!(expired.is_empty());
}

#[test]
fn get_expired_escrows_handles_out_of_bounds() {
    let contract = EscrowContract::new(ALICE, CUSTODY, FEE_BPS, EVE, DJANGO);

    let expired = contract.get_expired_escrows(0, 1000, 10);
    assert!(expired.is_empty());
}

#[test]
fn empty_pages_on_a_populated_ledger() {
    let mut contract = EscrowContract::new(ALICE, CUSTODY, FEE_BPS, EVE, DJANGO);
    let mut token = MockToken;
    for _ in 0..3 {
        contract.create_escrow(&mut token, ALICE, 0, BOB, 100).unwrap();
    }
    let past_everything = 31 * DAY_MS;

    // A zero limit and a start beyond the count both yield empty pages,
    // even when every escrow has expired.
    assert!(contract.get_expired_escrows(past_everything, 0, 0).is_empty());
    assert!(contract.get_expired_escrows(past_everything, 4, 10).is_empty());
}

#[test]
fn scanner_reports_only_active_and_past_deadline_in_order() {
    let mut contract = EscrowContract::new(ALICE, CUSTODY, FEE_BPS, EVE, DJANGO);
    let mut token = MockToken;

    // Four escrows: created at 0 (expires at 30 days), one cancelled, one
    // completed, and one created much later.
    let id0 = contract.create_escrow(&mut token, ALICE, 0, BOB, 100).unwrap();
    let id1 = contract.create_escrow(&mut token, ALICE, 0, BOB, 100).unwrap();
    let id2 = contract.create_escrow(&mut token, ALICE, 0, BOB, 100).unwrap();
    let id3 = contract.create_escrow(&mut token, ALICE, 40 * DAY_MS, BOB, 100).unwrap();

    contract.cancel_escrow(&mut token, ALICE, id1).unwrap();
    contract.complete_escrow(&mut token, ALICE, id2).unwrap();

    let now = 35 * DAY_MS; // past the first deadlines, not the last
    let expired = contract.get_expired_escrows(now, 0, 10);
    assert_eq!(expired, vec![id0]);
    assert!(contract.is_escrow_expired(now, id0));
    assert!(!contract.is_escrow_expired(now, id1));
    assert!(!contract.is_escrow_expired(now, id2));
    assert!(!contract.is_escrow_expired(now, id3));

    let later = 71 * DAY_MS; // past every deadline
    let expired = contract.get_expired_escrows(later, 0, 10);
    assert_eq!(expired, vec![id0, id3]);

    // Paging respects the window.
    assert_eq!(contract.get_expired_escrows(later, 0, 1), vec![id0]);
    assert_eq!(contract.get_expired_escrows(later, 1, 10), vec![id3]);
    assert_eq!(contract.get_expired_escrows(later, 1, 3), vec![id3]);
    assert!(contract.get_expired_escrows(later, 1, 2).is_empty());
}

#[test]
fn deadline_boundary_is_strict() {
    let mut contract = EscrowContract::new(ALICE, CUSTODY, FEE_BPS, EVE, DJANGO);
    let mut token = MockToken;

    let id = contract.create_escrow(&mut token, ALICE, 0, BOB, 100).unwrap();
    let deadline = 30 * DAY_MS;

    assert!(contract.get_expired_escrows(deadline, 0, 10).is_empty());
    assert_eq!(contract.get_expired_escrows(deadline + 1, 0, 10), vec![id]);
}
