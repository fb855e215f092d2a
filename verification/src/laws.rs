//! Laws of the escrow state machine, stated over the operation contracts in
//! [`crate::contract`] and proved for every state they admit.

use vstd::prelude::*;

use crate::contract::approve_extension_post;
use crate::contract::cancel_post;
use crate::contract::complete_post;
use crate::contract::create_ok;
use crate::contract::create_post;
use crate::contract::dispute_post;
use crate::contract::expire_post;
use crate::contract::request_extension_post;
use crate::contract::set_fee_post;
use crate::contract::set_paused_post;
use crate::contract::set_timelock_post;
use crate::contract::set_usdt_token_post;
use crate::contract::update_tier_post;
use crate::contract::withdraw_post;
use crate::contract::EscrowContract;
use crate::fee::lemma_tier_monotonic;
use crate::types::AccountId;
use crate::types::Balance;
use crate::types::EscrowData;
use crate::types::EscrowError;
use crate::types::EscrowEvent;
use crate::types::EscrowExpired;
use crate::types::EscrowStatus;
use crate::types::Timestamp;

verus! {

/// One step of the state machine: some public operation, with some
/// arguments and some outcome, relates `pre` to `post`.
pub open spec fn is_step(pre: EscrowContract, post: EscrowContract) -> bool {
    ||| exists|
        caller: AccountId,
        provider: AccountId,
        amount: Balance,
        now: Timestamp,
        r: Result<u32, EscrowError>,
    | create_post(pre, post, caller, provider, amount, now, r)
    ||| exists|caller: AccountId, escrow_id: u32, r: Result<(), EscrowError>|
        complete_post(pre, post, caller, escrow_id, r)
    ||| exists|caller: AccountId, escrow_id: u32, r: Result<(), EscrowError>|
        cancel_post(pre, post, caller, escrow_id, r)
    ||| exists|caller: AccountId, escrow_id: u32, reason: String, r: Result<(), EscrowError>|
        dispute_post(pre, post, caller, escrow_id, reason, r)
    ||| exists|now: Timestamp, escrow_id: u32, r: Result<(), EscrowError>|
        expire_post(pre, post, now, escrow_id, r)
    ||| exists|
        caller: AccountId,
        now: Timestamp,
        escrow_id: u32,
        new_deadline: Timestamp,
        reason: String,
        r: Result<(), EscrowError>,
    | request_extension_post(pre, post, caller, now, escrow_id, new_deadline, reason, r)
    ||| exists|caller: AccountId, escrow_id: u32, r: Result<(), EscrowError>|
        approve_extension_post(pre, post, caller, escrow_id, r)
    ||| exists|caller: AccountId, new_fee_bps: u16, r: Result<(), EscrowError>|
        set_fee_post(pre, post, caller, new_fee_bps, r)
    ||| exists|caller: AccountId, new_usdt_token: AccountId, r: Result<(), EscrowError>|
        set_usdt_token_post(pre, post, caller, new_usdt_token, r)
    ||| exists|caller: AccountId, paused: bool, r: Result<(), EscrowError>|
        set_paused_post(pre, post, caller, paused, r)
    ||| exists|caller: AccountId, duration_ms: u64, r: Result<(), EscrowError>|
        set_timelock_post(pre, post, caller, duration_ms, r)
    ||| exists|caller: AccountId, r: Result<(), EscrowError>|
        withdraw_post(pre, post, caller, r)
    ||| update_tier_post(pre, post)
}

/// Cumulative volume never decreases: no operation of the state machine,
/// whatever its arguments and outcome, shrinks `total_volume`.
pub proof fn lemma_volume_never_decreases(pre: EscrowContract, post: EscrowContract)
    requires
        is_step(pre, post),
    ensures
        post.total_volume >= pre.total_volume,
{
}

/// The fee tier of a well-formed state is a pure function of cumulative
/// volume and never decreases: between any two well-formed states, more
/// volume means an equal or higher tier.
pub proof fn lemma_tier_never_decreases(s1: EscrowContract, s2: EscrowContract)
    requires
        s1.wf(),
        s2.wf(),
        s1.total_volume <= s2.total_volume,
    ensures
        s1.current_tier <= s2.current_tier,
{
    lemma_tier_monotonic(s1.total_volume, s2.total_volume);
}

/// Across any single step between well-formed states, both the cumulative
/// volume and the fee tier are non-decreasing.
pub proof fn lemma_monotonic_counters(pre: EscrowContract, post: EscrowContract)
    requires
        pre.wf(),
        post.wf(),
        is_step(pre, post),
    ensures
        post.total_volume >= pre.total_volume,
        post.current_tier >= pre.current_tier,
{
    lemma_volume_never_decreases(pre, post);
    lemma_tier_never_decreases(pre, post);
}

/// History is permanent: no operation deletes a record or reuses an id, and
/// a record's parties, amount, and creation time never change after it is
/// written. Only its status and deadline can ever move.
pub proof fn lemma_records_are_permanent(
    pre: EscrowContract,
    post: EscrowContract,
    escrow_id: u32,
)
    requires
        pre.wf(),
        is_step(pre, post),
        (escrow_id as int) < pre.escrows@.len(),
    ensures
        pre.escrows@.len() <= post.escrows@.len(),
        post.escrow_count >= pre.escrow_count,
        post.escrows@[escrow_id as int].client == pre.escrows@[escrow_id as int].client,
        post.escrows@[escrow_id as int].provider == pre.escrows@[escrow_id as int].provider,
        post.escrows@[escrow_id as int].amount == pre.escrows@[escrow_id as int].amount,
        post.escrows@[escrow_id as int].created_at == pre.escrows@[escrow_id as int].created_at,
{
}

/// A record that reached `Completed` or `Cancelled` keeps that status
/// through every further operation, whatever its arguments and outcome.
pub proof fn lemma_terminal_status_is_frozen(
    pre: EscrowContract,
    post: EscrowContract,
    escrow_id: u32,
)
    requires
        pre.wf(),
        is_step(pre, post),
        (escrow_id as int) < pre.escrows@.len(),
        pre.escrows@[escrow_id as int].status == EscrowStatus::Completed
            || pre.escrows@[escrow_id as int].status == EscrowStatus::Cancelled,
    ensures
        pre.escrows@.len() <= post.escrows@.len(),
        post.escrows@[escrow_id as int].status == pre.escrows@[escrow_id as int].status,
{
}

/// A `complete_escrow` call on a terminal record fails with
/// `InvalidStatus` and changes nothing.
pub proof fn lemma_complete_on_terminal_rejected(
    pre: EscrowContract,
    post: EscrowContract,
    caller: AccountId,
    escrow_id: u32,
    r: Result<(), EscrowError>,
)
    requires
        pre.wf(),
        !pre.paused,
        (escrow_id as int) < pre.escrows@.len(),
        pre.escrows@[escrow_id as int].status == EscrowStatus::Completed
            || pre.escrows@[escrow_id as int].status == EscrowStatus::Cancelled,
        complete_post(pre, post, caller, escrow_id, r),
    ensures
        r == Result::<(), EscrowError>::Err(EscrowError::InvalidStatus) || r
            == Result::<(), EscrowError>::Err(EscrowError::NotAuthorized),
        post == pre,
        caller == pre.escrows@[escrow_id as int].client ==> r == Result::<(),
            EscrowError,
        >::Err(EscrowError::InvalidStatus),
{
}

/// A `cancel_escrow` call on a terminal record fails with `InvalidStatus`
/// and changes nothing.
pub proof fn lemma_cancel_on_terminal_rejected(
    pre: EscrowContract,
    post: EscrowContract,
    caller: AccountId,
    escrow_id: u32,
    r: Result<(), EscrowError>,
)
    requires
        pre.wf(),
        !pre.paused,
        (escrow_id as int) < pre.escrows@.len(),
        caller == pre.escrows@[escrow_id as int].client || caller
            == pre.escrows@[escrow_id as int].provider,
        pre.escrows@[escrow_id as int].status == EscrowStatus::Completed
            || pre.escrows@[escrow_id as int].status == EscrowStatus::Cancelled,
        cancel_post(pre, post, caller, escrow_id, r),
    ensures
        r == Result::<(), EscrowError>::Err(EscrowError::InvalidStatus),
        post == pre,
{
}

/// A `flag_dispute` call on a terminal record fails with `InvalidStatus`
/// and changes nothing.
pub proof fn lemma_dispute_on_terminal_rejected(
    pre: EscrowContract,
    post: EscrowContract,
    caller: AccountId,
    escrow_id: u32,
    reason: String,
    r: Result<(), EscrowError>,
)
    requires
        pre.wf(),
        (escrow_id as int) < pre.escrows@.len(),
        caller == pre.escrows@[escrow_id as int].client || caller
            == pre.escrows@[escrow_id as int].provider,
        pre.escrows@[escrow_id as int].status == EscrowStatus::Completed
            || pre.escrows@[escrow_id as int].status == EscrowStatus::Cancelled,
        dispute_post(pre, post, caller, escrow_id, reason, r),
    ensures
        r == Result::<(), EscrowError>::Err(EscrowError::InvalidStatus),
        post == pre,
{
}

/// A `process_expired_escrow` call on a terminal record fails with
/// `InvalidStatus` and changes nothing.
pub proof fn lemma_expire_on_terminal_rejected(
    pre: EscrowContract,
    post: EscrowContract,
    now: Timestamp,
    escrow_id: u32,
    r: Result<(), EscrowError>,
)
    requires
        pre.wf(),
        !pre.paused,
        (escrow_id as int) < pre.escrows@.len(),
        pre.escrows@[escrow_id as int].status == EscrowStatus::Completed
            || pre.escrows@[escrow_id as int].status == EscrowStatus::Cancelled,
        expire_post(pre, post, now, escrow_id, r),
    ensures
        r == Result::<(), EscrowError>::Err(EscrowError::InvalidStatus),
        post == pre,
{
}

/// A committed `create_escrow` is immediately observable: reading the new
/// id back yields an `Active` record with the deposited amount and a
/// deadline the configured distance past the creation time.
pub proof fn lemma_create_then_get(
    pre: EscrowContract,
    post: EscrowContract,
    caller: AccountId,
    provider: AccountId,
    amount: Balance,
    now: Timestamp,
    escrow_id: u32,
)
    requires
        pre.wf(),
        amount > 0,
        now + pre.default_timelock_duration <= u64::MAX,
        create_ok(pre, post, caller, provider, amount, now, escrow_id),
    ensures
        post.spec_get(escrow_id) == Some(
            EscrowData {
                client: caller,
                provider,
                amount,
                status: EscrowStatus::Active,
                created_at: now,
                deadline: (now + pre.default_timelock_duration) as u64,
            },
        ),
{
}

/// A `create_escrow` call for a zero amount always fails with
/// `InvalidAmount` — before any other gate — and creates no record.
pub proof fn lemma_zero_amount_create_rejected(
    pre: EscrowContract,
    post: EscrowContract,
    caller: AccountId,
    provider: AccountId,
    now: Timestamp,
    r: Result<u32, EscrowError>,
)
    requires
        create_post(pre, post, caller, provider, 0, now, r),
    ensures
        r == Result::<u32, EscrowError>::Err(EscrowError::InvalidAmount),
        post == pre,
        post.escrow_count == pre.escrow_count,
{
}

/// Only the client may complete: any other caller fails with
/// `NotAuthorized` and the record — in particular its status — is
/// untouched.
pub proof fn lemma_complete_requires_client(
    pre: EscrowContract,
    post: EscrowContract,
    caller: AccountId,
    escrow_id: u32,
    r: Result<(), EscrowError>,
)
    requires
        pre.wf(),
        !pre.paused,
        (escrow_id as int) < pre.escrows@.len(),
        caller != pre.escrows@[escrow_id as int].client,
        complete_post(pre, post, caller, escrow_id, r),
    ensures
        r == Result::<(), EscrowError>::Err(EscrowError::NotAuthorized),
        post == pre,
{
}

/// The requester of a pending extension can never approve it: approval by
/// the requester fails with `NotAuthorized` and changes nothing.
pub proof fn lemma_self_approval_rejected(
    pre: EscrowContract,
    post: EscrowContract,
    escrow_id: u32,
    r: Result<(), EscrowError>,
)
    requires
        pre.wf(),
        (escrow_id as int) < pre.escrows@.len(),
        pre.extension_requests@[escrow_id as int] is Some,
        approve_extension_post(
            pre,
            post,
            pre.extension_requests@[escrow_id as int]->Some_0.requester,
            escrow_id,
            r,
        ),
    ensures
        r == Result::<(), EscrowError>::Err(EscrowError::NotAuthorized),
        post == pre,
{
}

/// Approval by a party other than the requester commits: the deadline moves
/// to the requested value — strictly forward — and the pending slot is
/// cleared.
pub proof fn lemma_counterparty_approval_commits(
    pre: EscrowContract,
    post: EscrowContract,
    caller: AccountId,
    escrow_id: u32,
    r: Result<(), EscrowError>,
)
    requires
        pre.wf(),
        (escrow_id as int) < pre.escrows@.len(),
        caller == pre.escrows@[escrow_id as int].client || caller
            == pre.escrows@[escrow_id as int].provider,
        pre.extension_requests@[escrow_id as int] is Some,
        caller != pre.extension_requests@[escrow_id as int]->Some_0.requester,
        approve_extension_post(pre, post, caller, escrow_id, r),
    ensures
        r == Result::<(), EscrowError>::Ok(()),
        post.extension_requests@[escrow_id as int] is None,
        post.escrows@[escrow_id as int].deadline == pre.extension_requests@[
            escrow_id as int
        ]->Some_0.new_deadline,
        post.escrows@[escrow_id as int].deadline > pre.escrows@[escrow_id as int].deadline,
{
}

/// After an approval commits, a second approval finds no pending request
/// and fails with `EscrowNotFound`, whoever among the parties asks.
pub proof fn lemma_second_approval_rejected(
    pre: EscrowContract,
    mid: EscrowContract,
    post: EscrowContract,
    caller1: AccountId,
    caller2: AccountId,
    escrow_id: u32,
    r2: Result<(), EscrowError>,
)
    requires
        pre.wf(),
        (escrow_id as int) < pre.escrows@.len(),
        approve_extension_post(pre, mid, caller1, escrow_id, Result::<(), EscrowError>::Ok(())),
        caller2 == mid.escrows@[escrow_id as int].client || caller2
            == mid.escrows@[escrow_id as int].provider,
        approve_extension_post(mid, post, caller2, escrow_id, r2),
    ensures
        r2 == Result::<(), EscrowError>::Err(EscrowError::EscrowNotFound),
        post == mid,
{
}

/// Before its deadline has strictly passed, an `Active` escrow cannot be
/// expiry-processed: the call fails with `InvalidStatus` and changes
/// nothing.
pub proof fn lemma_expiry_needs_deadline_passed(
    pre: EscrowContract,
    post: EscrowContract,
    now: Timestamp,
    escrow_id: u32,
    r: Result<(), EscrowError>,
)
    requires
        pre.wf(),
        !pre.paused,
        (escrow_id as int) < pre.escrows@.len(),
        pre.escrows@[escrow_id as int].status == EscrowStatus::Active,
        now <= pre.escrows@[escrow_id as int].deadline,
        expire_post(pre, post, now, escrow_id, r),
    ensures
        r == Result::<(), EscrowError>::Err(EscrowError::InvalidStatus),
        post == pre,
{
}

/// Expiry processing succeeds at most once per escrow: a committed run
/// refunds the full amount fee-free — the volume and rate are untouched and
/// the logged event carries the whole amount — and any further run fails
/// with `InvalidStatus` and changes nothing.
pub proof fn lemma_expiry_processed_once(
    pre: EscrowContract,
    mid: EscrowContract,
    post: EscrowContract,
    now1: Timestamp,
    now2: Timestamp,
    escrow_id: u32,
    r2: Result<(), EscrowError>,
)
    requires
        pre.wf(),
        (escrow_id as int) < pre.escrows@.len(),
        expire_post(pre, mid, now1, escrow_id, Result::<(), EscrowError>::Ok(())),
        expire_post(mid, post, now2, escrow_id, r2),
    ensures
        mid.total_volume == pre.total_volume,
        mid.fee_bps == pre.fee_bps,
        mid.events@ == pre.events@.push(
            EscrowEvent::Expired(
                EscrowExpired {
                    escrow_id,
                    client: pre.escrows@[escrow_id as int].client,
                    provider: pre.escrows@[escrow_id as int].provider,
                    amount: pre.escrows@[escrow_id as int].amount,
                },
            ),
        ),
        r2 == Result::<(), EscrowError>::Err(EscrowError::InvalidStatus),
        post == mid,
{
}

/// A zero limit, or a start beyond the assigned ids, always yields an
/// empty expiry page.
pub proof fn lemma_expiry_scan_empty_pages(
    s: EscrowContract,
    now: Timestamp,
    start: u32,
    limit: u32,
)
    requires
        s.wf(),
    ensures
        limit == 0 ==> s.spec_expired_page(now, start, limit) == Seq::<u32>::empty(),
        start >= s.escrow_count ==> s.spec_expired_page(now, start, limit) == Seq::<
            u32,
        >::empty(),
{
}

} // verus!
