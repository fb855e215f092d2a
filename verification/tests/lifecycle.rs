//! The escrow lifecycle: create, complete, cancel, dispute, and expiry
//! processing, driven through a recording token.

use escrow::AccountId;
use escrow::Balance;
use escrow::EscrowContract;
use escrow::EscrowError;
use escrow::EscrowStatus;
use escrow::PSP22Error;
use escrow::PSP22;

const ALICE: AccountId = 1;
const BOB: AccountId = 2;
const CHARLIE: AccountId = 3;
const DJANGO: AccountId = 4;
const EVE: AccountId = 5;
const CUSTODY: AccountId = 99;

const FEE_BPS: u16 = 100;
const DAY_MS: u64 = 24 * 60 * 60 * 1000;

/// A token that records every movement it is asked to make.
struct MockToken {
    allowance: Balance,
    fail_transfers: bool,
    /// `transfer(to, value)` calls, in order.
    payouts: Vec<(AccountId, Balance)>,
    /// `transfer_from(from, to, value)` calls, in order.
    deposits: Vec<(AccountId, AccountId, Balance)>,
}

impl MockToken {
    fn new() -> MockToken {
        MockToken { allowance: Balance::MAX, fail_transfers: false, payouts: Vec::new(), deposits: Vec::new() }
    }
}

impl PSP22 for MockToken {
    fn total_supply(&self) -> Balance {
        0
    }

    fn balance_of(&self, _owner: AccountId) -> Balance {
        0
    }

    fn allowance(&self, _owner: AccountId, _spender: AccountId) -> Balance {
        self.allowance
    }

    fn transfer(&mut self, to: AccountId, value: Balance, _data: Vec<u8>) -> Result<(), PSP22Error> {
        if self.fail_transfers {
            return Err(PSP22Error::InsufficientBalance);
        }
        self.payouts.push((to, value));
        Ok(())
    }

    fn transfer_from(
        &mut self,
        from: AccountId,
        to: AccountId,
        value: Balance,
        _data: Vec<u8>,
    ) -> Result<(), PSP22Error> {
        if self.fail_transfers {
            return Err(PSP22Error::InsufficientBalance);
        }
        self.deposits.push((from, to, value));
        Ok(())
    }

    fn approve(&mut self, _spender: AccountId, _value: Balance) -> Result<(), PSP22Error> {
        Ok(())
    }
}

#[test]
fn create_escrow_zero_amount_fails() {
    let mut contract = EscrowContract::new(ALICE, CUSTODY, FEE_BPS, EVE, DJANGO);
    let mut token = MockToken::new();

    let result = contract.create_escrow(&mut token, ALICE, 0, BOB, 0);
    assert!(matches!(result, Err(EscrowError::InvalidAmount)));
    assert_eq!(contract.get_escrow_count(), 0);
}

#[test]
fn create_escrow_when_paused_fails() {
    let mut contract = EscrowContract::new(ALICE, CUSTODY, FEE_BPS, EVE, DJANGO);
    let mut token = MockToken::new();

    let _ = contract.pause(ALICE);

    let result = contract.create_escrow(&mut token, ALICE, 0, BOB, 1000);
    assert!(matches!(result, Err(EscrowError::ContractPaused)));
}

#[test]
fn create_escrow_moves_deposit_to_custody() {
    let mut contract = EscrowContract::new(ALICE, CUSTODY, FEE_BPS, EVE, DJANGO);
    let mut token = MockToken::new();

    let result = contract.create_escrow(&mut token, ALICE, 0, BOB, 1_000_000);
    assert_eq!(result, Ok(0));
    assert_eq!(token.deposits, vec![(ALICE, CUSTODY, 1_000_000)]);
    assert!(token.payouts.is_empty());
}

#[test]
fn create_escrow_with_insufficient_allowance_fails() {
    let mut contract = EscrowContract::new(ALICE, CUSTODY, FEE_BPS, EVE, DJANGO);
    let mut token = MockToken::new();
    token.allowance = 999;

    let result = contract.create_escrow(&mut token, ALICE, 0, BOB, 1000);
    assert!(matches!(result, Err(EscrowError::InsufficientAllowance)));
    assert_eq!(contract.get_escrow_count(), 0);
}

#[test]
fn create_escrow_with_failing_transfer_commits_nothing() {
    let mut contract = EscrowContract::new(ALICE, CUSTODY, FEE_BPS, EVE, DJANGO);
    let mut token = MockToken::new();
    token.fail_transfers = true;

    let result = contract.create_escrow(&mut token, ALICE, 0, BOB, 1000);
    assert!(matches!(
        result,
        Err(EscrowError::PSP22Error(PSP22Error::InsufficientBalance))
    ));
    assert_eq!(contract.get_escrow_count(), 0);
    assert!(contract.get_escrow(0).is_none());
}

#[test]
fn create_then_get_returns_active_record() {
    let mut contract = EscrowContract::new(ALICE, CUSTODY, FEE_BPS, EVE, DJANGO);
    let mut token = MockToken::new();
    let now = 12_345;

    let id = contract.create_escrow(&mut token, ALICE, now, BOB, 777).unwrap();
    let record = contract.get_escrow(id).unwrap();

    assert_eq!(record.client, ALICE);
    assert_eq!(record.provider, BOB);
    assert_eq!(record.amount, 777);
    assert_eq!(record.status, EscrowStatus::Active);
    assert_eq!(record.created_at, now);
    assert_eq!(record.deadline, now + 30 * DAY_MS);
}

#[test]
fn create_registers_both_parties() {
    let mut contract = EscrowContract::new(ALICE, CUSTODY, FEE_BPS, EVE, DJANGO);
    let mut token = MockToken::new();

    let id0 = contract.create_escrow(&mut token, ALICE, 0, BOB, 100).unwrap();
    let id1 = contract.create_escrow(&mut token, BOB, 0, CHARLIE, 100).unwrap();

    assert_eq!(contract.get_user_escrows(ALICE), vec![id0]);
    assert_eq!(contract.get_user_escrows(BOB), vec![id0, id1]);
    assert_eq!(contract.get_user_escrows(CHARLIE), vec![id1]);
    assert!(contract.get_user_escrows(EVE).is_empty());
}

#[test]
fn create_with_same_client_and_provider_registers_twice() {
    let mut contract = EscrowContract::new(ALICE, CUSTODY, FEE_BPS, EVE, DJANGO);
    let mut token = MockToken::new();

    let id = contract.create_escrow(&mut token, ALICE, 0, ALICE, 100).unwrap();

    assert_eq!(contract.get_user_escrows(ALICE), vec![id, id]);
}

#[test]
fn complete_by_non_client_fails_and_status_unchanged() {
    let mut contract = EscrowContract::new(ALICE, CUSTODY, FEE_BPS, EVE, DJANGO);
    let mut token = MockToken::new();

    let id = contract.create_escrow(&mut token, ALICE, 0, BOB, 1_000_000).unwrap();

    // Neither the provider nor a stranger may complete.
    let result = contract.complete_escrow(&mut token, BOB, id);
    assert!(matches!(result, Err(EscrowError::NotAuthorized)));
    let result = contract.complete_escrow(&mut token, CHARLIE, id);
    assert!(matches!(result, Err(EscrowError::NotAuthorized)));
    assert_eq!(contract.get_escrow(id).unwrap().status, EscrowStatus::Active);
}

#[test]
fn complete_pays_provider_minus_fee() {
    let mut contract = EscrowContract::new(ALICE, CUSTODY, FEE_BPS, EVE, DJANGO);
    let mut token = MockToken::new();

    let id = contract.create_escrow(&mut token, ALICE, 0, BOB, 1_000_000).unwrap();
    let result = contract.complete_escrow(&mut token, ALICE, id);

    assert!(result.is_ok());
    // 100 bps of 1,000,000 is exactly 10,000; the provider receives the rest.
    assert_eq!(token.payouts, vec![(BOB, 990_000), (EVE, 10_000)]);
    assert_eq!(contract.get_escrow(id).unwrap().status, EscrowStatus::Completed);
    assert_eq!(contract.get_total_volume(), 1_000_000);
}

#[test]
fn complete_with_zero_fee_makes_one_payout() {
    let mut contract = EscrowContract::new(ALICE, CUSTODY, 0, EVE, DJANGO);
    let mut token = MockToken::new();

    let id = contract.create_escrow(&mut token, ALICE, 0, BOB, 1_000_000).unwrap();
    let result = contract.complete_escrow(&mut token, ALICE, id);

    assert!(result.is_ok());
    assert_eq!(token.payouts, vec![(BOB, 1_000_000)]);
}

#[test]
fn complete_fee_truncates_toward_zero() {
    let mut contract = EscrowContract::new(ALICE, CUSTODY, FEE_BPS, EVE, DJANGO);
    let mut token = MockToken::new();

    // 100 bps of 99 is 0.99, truncated to 0: the provider receives all 99.
    let id = contract.create_escrow(&mut token, ALICE, 0, BOB, 99).unwrap();
    let result = contract.complete_escrow(&mut token, ALICE, id);

    assert!(result.is_ok());
    assert_eq!(token.payouts, vec![(BOB, 99)]);
}

#[test]
fn complete_with_failing_transfer_commits_nothing() {
    let mut contract = EscrowContract::new(ALICE, CUSTODY, FEE_BPS, EVE, DJANGO);
    let mut token = MockToken::new();

    let id = contract.create_escrow(&mut token, ALICE, 0, BOB, 1_000_000).unwrap();
    token.fail_transfers = true;
    let result = contract.complete_escrow(&mut token, ALICE, id);

    assert!(matches!(result, Err(EscrowError::PSP22Error(_))));
    assert_eq!(contract.get_escrow(id).unwrap().status, EscrowStatus::Active);
    assert_eq!(contract.get_total_volume(), 0);
}

#[test]
fn cancel_refunds_client_in_full() {
    let mut contract = EscrowContract::new(ALICE, CUSTODY, FEE_BPS, EVE, DJANGO);
    let mut token = MockToken::new();

    let id = contract.create_escrow(&mut token, ALICE, 0, BOB, 1_000_000).unwrap();
    // The provider may cancel too.
    let result = contract.cancel_escrow(&mut token, BOB, id);

    assert!(result.is_ok());
    assert_eq!(token.payouts, vec![(ALICE, 1_000_000)]);
    assert_eq!(contract.get_escrow(id).unwrap().status, EscrowStatus::Cancelled);
    assert_eq!(contract.get_total_volume(), 0);
}

#[test]
fn cancel_by_stranger_fails() {
    let mut contract = EscrowContract::new(ALICE, CUSTODY, FEE_BPS, EVE, DJANGO);
    let mut token = MockToken::new();

    let id = contract.create_escrow(&mut token, ALICE, 0, BOB, 1_000_000).unwrap();
    let result = contract.cancel_escrow(&mut token, CHARLIE, id);

    assert!(matches!(result, Err(EscrowError::NotAuthorized)));
    assert_eq!(contract.get_escrow(id).unwrap().status, EscrowStatus::Active);
}

#[test]
fn terminal_records_reject_every_transition() {
    let mut contract = EscrowContract::new(ALICE, CUSTODY, FEE_BPS, EVE, DJANGO);
    let mut token = MockToken::new();

    let done = contract.create_escrow(&mut token, ALICE, 0, BOB, 1_000_000).unwrap();
    contract.complete_escrow(&mut token, ALICE, done).unwrap();
    let gone = contract.create_escrow(&mut token, ALICE, 0, BOB, 1_000_000).unwrap();
    contract.cancel_escrow(&mut token, ALICE, gone).unwrap();

    for id in [done, gone] {
        let before = contract.get_escrow(id).unwrap().status;
        assert!(matches!(
            contract.complete_escrow(&mut token, ALICE, id),
            Err(EscrowError::InvalidStatus)
        ));
        assert!(matches!(
            contract.cancel_escrow(&mut token, ALICE, id),
            Err(EscrowError::InvalidStatus)
        ));
        assert!(matches!(
            contract.flag_dispute(ALICE, id, "too late".to_string()),
            Err(EscrowError::InvalidStatus)
        ));
        assert!(matches!(
            contract.process_expired_escrow(&mut token, u64::MAX, id),
            Err(EscrowError::InvalidStatus)
        ));
        assert_eq!(contract.get_escrow(id).unwrap().status, before);
    }
}

#[test]
fn flag_dispute_freezes_the_record() {
    let mut contract = EscrowContract::new(ALICE, CUSTODY, FEE_BPS, EVE, DJANGO);
    let mut token = MockToken::new();

    let id = contract.create_escrow(&mut token, ALICE, 0, BOB, 1_000_000).unwrap();
    let result = contract.flag_dispute(BOB, id, "work not delivered".to_string());
    assert!(result.is_ok());
    assert_eq!(contract.get_escrow(id).unwrap().status, EscrowStatus::Disputed);

    // A second flag reports the dispute distinctly.
    let result = contract.flag_dispute(ALICE, id, "already raised".to_string());
    assert!(matches!(result, Err(EscrowError::AlreadyDisputed)));

    // Disputed records are frozen: no completion, cancellation, or expiry.
    assert!(matches!(
        contract.complete_escrow(&mut token, ALICE, id),
        Err(EscrowError::InvalidStatus)
    ));
    assert!(matches!(
        contract.cancel_escrow(&mut token, BOB, id),
        Err(EscrowError::InvalidStatus)
    ));
    assert!(matches!(
        contract.process_expired_escrow(&mut token, u64::MAX, id),
        Err(EscrowError::InvalidStatus)
    ));
}

#[test]
fn flag_dispute_by_stranger_fails() {
    let mut contract = EscrowContract::new(ALICE, CUSTODY, FEE_BPS, EVE, DJANGO);
    let mut token = MockToken::new();

    let id = contract.create_escrow(&mut token, ALICE, 0, BOB, 1_000_000).unwrap();
    let result = contract.flag_dispute(CHARLIE, id, "not my business".to_string());
    assert!(matches!(result, Err(EscrowError::NotAuthorized)));
}

#[test]
fn process_non_existent_escrow_fails() {
    let mut contract = EscrowContract::new(ALICE, CUSTODY, FEE_BPS, EVE, DJANGO);
    let mut token = MockToken::new();

    let result = contract.process_expired_escrow(&mut token, 0, 999);
    assert!(matches!(result, Err(EscrowError::EscrowNotFound)));
}

#[test]
fn process_non_expired_escrow_fails() {
    let mut contract = EscrowContract::new(ALICE, CUSTODY, FEE_BPS, EVE, DJANGO);
    let mut token = MockToken::new();

    let result = contract.process_expired_escrow(&mut token, 0, 1);
    assert!(matches!(result, Err(EscrowError::EscrowNotFound)));
}

#[test]
fn process_expired_escrow_when_paused_fails() {
    let mut contract = EscrowContract::new(ALICE, CUSTODY, FEE_BPS, EVE, DJANGO);
    let mut token = MockToken::new();

    let _ = contract.pause(ALICE);

    let result = contract.process_expired_escrow(&mut token, 0, 1);
    assert!(matches!(result, Err(EscrowError::ContractPaused)));
}

#[test]
fn escrow_not_expired_initially() {
    let contract = EscrowContract::new(ALICE, CUSTODY, FEE_BPS, EVE, DJANGO);

    // A non-existent escrow is never expired.
    assert!(!contract.is_escrow_expired(0, 1));
}

#[test]
fn process_expired_succeeds_exactly_once_with_zero_fee() {
    let mut contract = EscrowContract::new(ALICE, CUSTODY, FEE_BPS, EVE, DJANGO);
    let mut token = MockToken::new();

    let created_at = 1000;
    let id = contract.create_escrow(&mut token, ALICE, created_at, BOB, 1_000_000).unwrap();
    let deadline = created_at + 30 * DAY_MS;

    // Exactly at the deadline the escrow is not yet expired.
    let result = contract.process_expired_escrow(&mut token, deadline, id);
    assert!(matches!(result, Err(EscrowError::InvalidStatus)));
    assert!(!contract.is_escrow_expired(deadline, id));

    // One instant past the deadline it is.
    assert!(contract.is_escrow_expired(deadline + 1, id));
    let result = contract.process_expired_escrow(&mut token, deadline + 1, id);
    assert!(result.is_ok());
    assert_eq!(token.payouts, vec![(ALICE, 1_000_000)]);
    assert_eq!(contract.get_escrow(id).unwrap().status, EscrowStatus::Cancelled);
    assert_eq!(contract.get_total_volume(), 0);

    // A second pass finds nothing to do.
    let result = contract.process_expired_escrow(&mut token, deadline + 2, id);
    assert!(matches!(result, Err(EscrowError::InvalidStatus)));
    assert_eq!(token.payouts, vec![(ALICE, 1_000_000)]);
}

#[test]
fn create_escrow_on_asset_hub_commits_without_token_calls() {
    let mut contract = EscrowContract::new_asset_hub(ALICE, CUSTODY, FEE_BPS, EVE, 1984);
    let mut token = MockToken::new();
    token.fail_transfers = true;

    let id = contract.create_escrow(&mut token, ALICE, 0, BOB, 1_000_000).unwrap();
    assert!(token.deposits.is_empty());
    assert_eq!(contract.get_escrow(id).unwrap().status, EscrowStatus::Active);

    let result = contract.complete_escrow(&mut token, ALICE, id);
    assert!(result.is_ok());
    assert!(token.payouts.is_empty());
    assert_eq!(contract.get_total_volume(), 1_000_000);
}

#[test]
fn create_escrow_on_asset_hub_rejects_zero_asset_id() {
    let mut contract = EscrowContract::new_asset_hub(ALICE, CUSTODY, FEE_BPS, EVE, 0);
    let mut token = MockToken::new();

    let result = contract.create_escrow(&mut token, ALICE, 0, BOB, 1_000_000);
    assert!(matches!(result, Err(EscrowError::InvalidStatus)));
}

#[test]
fn end_to_end_escrow_workflow_complete() {
    let mut contract = EscrowContract::new(ALICE, CUSTODY, 100, BOB, CHARLIE);
    let mut token = MockToken::new();
    let amount = 1_000_000; // 6-decimal units

    // Create and verify the record.
    let escrow_id = contract.create_escrow(&mut token, ALICE, 0, BOB, amount).unwrap();
    let retrieved_escrow = contract.get_escrow(escrow_id).unwrap();
    assert_eq!(retrieved_escrow.client, ALICE);
    assert_eq!(retrieved_escrow.provider, BOB);
    assert_eq!(retrieved_escrow.amount, amount);
    assert_eq!(retrieved_escrow.status, EscrowStatus::Active);

    // The client completes; fee is 1% of 1,000,000.
    let result = contract.complete_escrow(&mut token, ALICE, escrow_id);
    assert!(result.is_ok());
    let completed_escrow = contract.get_escrow(escrow_id).unwrap();
    assert_eq!(completed_escrow.status, EscrowStatus::Completed);
    assert_eq!(token.payouts, vec![(BOB, 990_000), (BOB, 10_000)]);
    assert_eq!(contract.get_total_volume(), amount);

    // An alternative escrow is cancelled instead.
    let escrow_id_2 = contract.create_escrow(&mut token, ALICE, 0, BOB, amount).unwrap();
    let result = contract.cancel_escrow(&mut token, ALICE, escrow_id_2);
    assert!(result.is_ok());
    assert_eq!(contract.get_escrow(escrow_id_2).unwrap().status, EscrowStatus::Cancelled);

    // A dispute freezes a third one.
    let escrow_id_3 = contract.create_escrow(&mut token, ALICE, 0, BOB, amount).unwrap();
    let result = contract.flag_dispute(ALICE, escrow_id_3, "Service not delivered".to_string());
    assert!(result.is_ok());
    assert_eq!(contract.get_escrow(escrow_id_3).unwrap().status, EscrowStatus::Disputed);

    // A deadline extension is proposed and approved on a fourth.
    let escrow_id_4 = contract.create_escrow(&mut token, ALICE, 0, BOB, amount).unwrap();
    let new_deadline = 60 * DAY_MS;
    let result = contract.request_deadline_extension(
        ALICE,
        0,
        escrow_id_4,
        new_deadline,
        "Need more time for delivery".to_string(),
    );
    assert!(result.is_ok());

    let extension_request = contract.get_extension_request(escrow_id_4);
    assert!(extension_request.is_some());
    let (requester, requested_deadline, reason) = extension_request.unwrap();
    assert_eq!(requester, ALICE);
    assert_eq!(requested_deadline, new_deadline);
    assert_eq!(reason, "Need more time for delivery");

    let result = contract.approve_deadline_extension(BOB, escrow_id_4);
    assert!(result.is_ok());
    assert_eq!(contract.get_escrow(escrow_id_4).unwrap().deadline, new_deadline);
    assert!(contract.get_extension_request(escrow_id_4).is_none());

    assert_eq!(contract.get_escrow_count(), 4);
    assert_eq!(contract.get_user_escrows(ALICE).len(), 4);
    assert_eq!(contract.get_user_escrows(BOB).len(), 4);

    // Strangers stay locked out.
    let unauthorized_dispute = contract.flag_dispute(CHARLIE, escrow_id, "Unauthorized".to_string());
    assert!(matches!(unauthorized_dispute, Err(EscrowError::NotAuthorized)));
    let unauthorized_extension = contract.request_deadline_extension(
        CHARLIE,
        0,
        escrow_id,
        90 * DAY_MS,
        "Unauthorized".to_string(),
    );
    assert!(matches!(unauthorized_extension, Err(EscrowError::NotAuthorized)));
}

#[test]
fn volume_tracking_in_complete_escrow() {
    let mut contract = EscrowContract::new(ALICE, CUSTODY, FEE_BPS, BOB, CHARLIE);
    let mut token = MockToken::new();

    let _ = contract.create_escrow(&mut token, ALICE, 0, BOB, 5_000 * 1_000_000).unwrap();

    // Nothing completed yet: the counters are untouched.
    assert_eq!(contract.get_total_volume(), 0);
    assert_eq!(contract.get_current_tier(), 0);
}
