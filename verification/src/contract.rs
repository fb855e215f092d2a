//! The escrow ledger and state machine: the record table, the per-principal
//! index, the pending extension slots, the volume/tier counters, and every
//! operation that moves them.

use vstd::prelude::*;

use crate::fee;
use crate::fee::spec_fee_for_tier;
use crate::fee::spec_tier_for_volume;
use crate::types::AccountId;
use crate::types::AssetTransferMode;
use crate::types::Balance;
use crate::types::DeadlineExtended;
use crate::types::DeadlineExtensionRequested;
use crate::types::EscrowCancelled;
use crate::types::EscrowCompleted;
use crate::types::EscrowCreated;
use crate::types::EscrowData;
use crate::types::EscrowDisputed;
use crate::types::EscrowError;
use crate::types::EscrowEvent;
use crate::types::EscrowExpired;
use crate::types::EscrowStatus;
use crate::types::FeeTierChanged;
use crate::types::Timestamp;
use crate::types::PSP22;

verus! {

/// Default deadline distance for new escrows: thirty days in milliseconds.
pub const DEFAULT_TIMELOCK_MS: u64 = 30 * 24 * 60 * 60 * 1000;

/// Smallest default deadline distance an owner may configure: one day.
pub const MIN_TIMELOCK_MS: u64 = 24 * 60 * 60 * 1000;

/// A pending deadline-extension request; at most one per escrow.
#[derive(Clone, Debug, PartialEq, Eq)]
pub struct ExtensionRequest {
    pub requester: AccountId,
    pub new_deadline: Timestamp,
    pub reason: String,
}

/// The escrow contract state. Escrow ids are dense: record `i` of `escrows`
/// is the escrow with id `i`, ids are assigned in creation order and records
/// are never deleted.
pub struct EscrowContract {
    /// Principal allowed to run administrative operations.
    pub owner: AccountId,
    /// Fee rate applied to completions, in basis points.
    pub fee_bps: u16,
    /// Principal receiving fee payouts.
    pub fee_account: AccountId,
    /// Next unassigned escrow id; equals the number of records.
    pub escrow_count: u32,
    /// The append-only escrow table, indexed by id.
    pub escrows: Vec<EscrowData>,
    /// Append-only registration pairs: one `(principal, id)` entry for the
    /// client and one for the provider of every created escrow, in order.
    pub user_escrows: Vec<(AccountId, u32)>,
    /// When paused, create/complete/cancel/expiry processing are gated;
    /// dispute and extension flows are deliberately not.
    pub paused: bool,
    /// Address of the PSP22 token contract used in PSP22 mode.
    pub usdt_token: AccountId,
    /// How value moves: PSP22 contract calls or runtime assets.
    pub asset_mode: AssetTransferMode,
    /// Deadline distance given to new escrows, in milliseconds.
    pub default_timelock_duration: u64,
    /// Cumulative completed volume; never decreases.
    pub total_volume: Balance,
    /// Fee tier selected by `total_volume`.
    pub current_tier: u8,
    /// Pending extension request per escrow id, parallel to `escrows`.
    pub extension_requests: Vec<Option<ExtensionRequest>>,
    /// Principal holding custodied value on the token; the spender that
    /// clients pre-authorize.
    pub custodian: AccountId,
    /// Log of emitted events, oldest first.
    pub events: Vec<EscrowEvent>,
}

impl EscrowContract {
    /// Well-formedness: the tables are aligned and dense, every record holds
    /// a positive amount, the tier matches the volume, registered ids exist,
    /// and every pending extension was validated against its escrow.
    pub open spec fn wf(self) -> bool {
        &&& self.escrows@.len() == self.escrow_count
        &&& self.extension_requests@.len() == self.escrows@.len()
        &&& forall|i: int|
            0 <= i < self.escrows@.len() ==> (#[trigger] self.escrows@[i]).amount > 0
        &&& self.current_tier == spec_tier_for_volume(self.total_volume)
        &&& forall|j: int|
            0 <= j < self.user_escrows@.len()
                ==> (#[trigger] self.user_escrows@[j]).1 < self.escrow_count
        &&& forall|i: int|
            0 <= i < self.extension_requests@.len()
                ==> ((#[trigger] self.extension_requests@[i]) matches Some(req) ==> {
                    &&& req.new_deadline > self.escrows@[i].deadline
                    &&& (req.requester == self.escrows@[i].client || req.requester
                        == self.escrows@[i].provider)
                })
    }

    /// The record stored under an id, if the id has been assigned.
    pub open spec fn spec_get(self, escrow_id: u32) -> Option<EscrowData> {
        if (escrow_id as int) < self.escrows@.len() {
            Some(self.escrows@[escrow_id as int])
        } else {
            None
        }
    }

    fn init(
        owner: AccountId,
        custodian: AccountId,
        fee_bps: u16,
        fee_account: AccountId,
        usdt_token: AccountId,
        asset_mode: AssetTransferMode,
        timelock_duration_ms: u64,
    ) -> (c: EscrowContract)
        ensures
            c == (EscrowContract {
                owner,
                fee_bps,
                fee_account,
                escrow_count: 0,
                escrows: c.escrows,
                user_escrows: c.user_escrows,
                paused: false,
                usdt_token,
                asset_mode,
                default_timelock_duration: timelock_duration_ms,
                total_volume: 0,
                current_tier: 0,
                extension_requests: c.extension_requests,
                custodian,
                events: c.events,
            }),
            c.escrows@ == Seq::<EscrowData>::empty(),
            c.user_escrows@ == Seq::<(AccountId, u32)>::empty(),
            c.extension_requests@ == Seq::<Option<ExtensionRequest>>::empty(),
            c.events@ == Seq::<EscrowEvent>::empty(),
            c.wf(),
    {
        EscrowContract {
            owner,
            fee_bps,
            fee_account,
            escrow_count: 0,
            escrows: Vec::new(),
            user_escrows: Vec::new(),
            paused: false,
            usdt_token,
            asset_mode,
            default_timelock_duration: timelock_duration_ms,
            total_volume: 0,
            current_tier: 0,
            extension_requests: Vec::new(),
            custodian,
            events: Vec::new(),
        }
    }

    /// Opens a contract moving value through PSP22 calls on `usdt_token`,
    /// with the default thirty-day timelock.
    pub fn new(
        owner: AccountId,
        custodian: AccountId,
        fee_bps: u16,
        fee_account: AccountId,
        usdt_token: AccountId,
    ) -> (c: EscrowContract)
        ensures
            c.wf(),
            c == (EscrowContract {
                owner,
                fee_bps,
                fee_account,
                escrow_count: 0,
                escrows: c.escrows,
                user_escrows: c.user_escrows,
                paused: false,
                usdt_token,
                asset_mode: AssetTransferMode::PSP22Contract(usdt_token),
                default_timelock_duration: DEFAULT_TIMELOCK_MS,
                total_volume: 0,
                current_tier: 0,
                extension_requests: c.extension_requests,
                custodian,
                events: c.events,
            }),
            c.escrows@ == Seq::<EscrowData>::empty(),
            c.user_escrows@ == Seq::<(AccountId, u32)>::empty(),
            c.extension_requests@ == Seq::<Option<ExtensionRequest>>::empty(),
            c.events@ == Seq::<EscrowEvent>::empty(),
    {
        Self::init(
            owner,
            custodian,
            fee_bps,
            fee_account,
            usdt_token,
            AssetTransferMode::PSP22Contract(usdt_token),
            DEFAULT_TIMELOCK_MS,
        )
    }

    /// Opens a contract moving value through the runtime asset `asset_id`.
    /// The token address field keeps the fee account as a placeholder,
    /// unused in this mode.
    pub fn new_asset_hub(
        owner: AccountId,
        custodian: AccountId,
        fee_bps: u16,
        fee_account: AccountId,
        asset_id: u32,
    ) -> (c: EscrowContract)
        ensures
            c.wf(),
            c == (EscrowContract {
                owner,
                fee_bps,
                fee_account,
                escrow_count: 0,
                escrows: c.escrows,
                user_escrows: c.user_escrows,
                paused: false,
                usdt_token: fee_account,
                asset_mode: AssetTransferMode::RuntimeAsset(asset_id),
                default_timelock_duration: DEFAULT_TIMELOCK_MS,
                total_volume: 0,
                current_tier: 0,
                extension_requests: c.extension_requests,
                custodian,
                events: c.events,
            }),
            c.escrows@ == Seq::<EscrowData>::empty(),
            c.user_escrows@ == Seq::<(AccountId, u32)>::empty(),
            c.extension_requests@ == Seq::<Option<ExtensionRequest>>::empty(),
            c.events@ == Seq::<EscrowEvent>::empty(),
    {
        Self::init(
            owner,
            custodian,
            fee_bps,
            fee_account,
            fee_account,
            AssetTransferMode::RuntimeAsset(asset_id),
            DEFAULT_TIMELOCK_MS,
        )
    }

    /// Opens a PSP22-mode contract with a caller-chosen default timelock.
    pub fn new_with_timelock(
        owner: AccountId,
        custodian: AccountId,
        fee_bps: u16,
        fee_account: AccountId,
        usdt_token: AccountId,
        timelock_duration_ms: u64,
    ) -> (c: EscrowContract)
        ensures
            c.wf(),
            c == (EscrowContract {
                owner,
                fee_bps,
                fee_account,
                escrow_count: 0,
                escrows: c.escrows,
                user_escrows: c.user_escrows,
                paused: false,
                usdt_token,
                asset_mode: AssetTransferMode::PSP22Contract(usdt_token),
                default_timelock_duration: timelock_duration_ms,
                total_volume: 0,
                current_tier: 0,
                extension_requests: c.extension_requests,
                custodian,
                events: c.events,
            }),
            c.escrows@ == Seq::<EscrowData>::empty(),
            c.user_escrows@ == Seq::<(AccountId, u32)>::empty(),
            c.extension_requests@ == Seq::<Option<ExtensionRequest>>::empty(),
            c.events@ == Seq::<EscrowEvent>::empty(),
    {
        Self::init(
            owner,
            custodian,
            fee_bps,
            fee_account,
            usdt_token,
            AssetTransferMode::PSP22Contract(usdt_token),
            timelock_duration_ms,
        )
    }
}

/// Escrow ids registered for a principal, in registration order. A principal
/// standing on both sides of one escrow is registered twice for it.
pub open spec fn ids_of(entries: Seq<(AccountId, u32)>, who: AccountId) -> Seq<u32>
    decreases entries.len(),
{
    if entries.len() == 0 {
        Seq::empty()
    } else {
        let prefix = ids_of(entries.drop_last(), who);
        if entries.last().0 == who {
            prefix.push(entries.last().1)
        } else {
            prefix
        }
    }
}

/// The configuration fields that no lifecycle operation touches.
pub open spec fn config_unchanged(pre: EscrowContract, post: EscrowContract) -> bool {
    &&& post.owner == pre.owner
    &&& post.fee_account == pre.fee_account
    &&& post.usdt_token == pre.usdt_token
    &&& post.asset_mode == pre.asset_mode
    &&& post.default_timelock_duration == pre.default_timelock_duration
    &&& post.custodian == pre.custodian
    &&& post.paused == pre.paused
}

/// The completion fee: the amount times the rate in basis points, with the
/// quotient truncated toward zero.
pub open spec fn spec_fee(amount: Balance, fee_bps: u16) -> int {
    (amount * fee_bps) / 10000
}

/// The state written by a successful `create_escrow`: one new `Active`
/// record under the next id, both parties registered, an empty extension
/// slot, and a creation event.
pub open spec fn create_ok(
    pre: EscrowContract,
    post: EscrowContract,
    caller: AccountId,
    provider: AccountId,
    amount: Balance,
    now: Timestamp,
    escrow_id: u32,
) -> bool {
    let record = EscrowData {
        client: caller,
        provider,
        amount,
        status: EscrowStatus::Active,
        created_at: now,
        deadline: (now + pre.default_timelock_duration) as u64,
    };
    let created = EscrowEvent::Created(
        EscrowCreated { escrow_id, client: caller, provider, amount },
    );
    &&& escrow_id == pre.escrow_count
    &&& post.escrows@ == pre.escrows@.push(record)
    &&& post.user_escrows@ == pre.user_escrows@.push((caller, escrow_id)).push(
        (provider, escrow_id),
    )
    &&& post.extension_requests@ == pre.extension_requests@.push(None)
    &&& post.escrow_count == pre.escrow_count + 1
    &&& post.events@ == pre.events@.push(created)
    &&& post.total_volume == pre.total_volume
    &&& post.current_tier == pre.current_tier
    &&& post.fee_bps == pre.fee_bps
    &&& config_unchanged(pre, post)
}

/// Everything `create_escrow` may do: exact rejections for a zero amount, a
/// paused contract, and a zero runtime asset id; a guaranteed commit in
/// runtime-asset mode; and in PSP22 mode a commit, or an unchanged state
/// when the token reports too small an allowance or fails the transfer.
pub open spec fn create_post(
    pre: EscrowContract,
    post: EscrowContract,
    caller: AccountId,
    provider: AccountId,
    amount: Balance,
    now: Timestamp,
    r: Result<u32, EscrowError>,
) -> bool {
    if amount == 0 {
        r == Result::<u32, EscrowError>::Err(EscrowError::InvalidAmount) && post == pre
    } else if pre.paused {
        r == Result::<u32, EscrowError>::Err(EscrowError::ContractPaused) && post == pre
    } else {
        match pre.asset_mode {
            AssetTransferMode::RuntimeAsset(asset_id) => {
                if asset_id == 0 {
                    r == Result::<u32, EscrowError>::Err(EscrowError::InvalidStatus) && post
                        == pre
                } else {
                    r matches Ok(escrow_id) && create_ok(
                        pre,
                        post,
                        caller,
                        provider,
                        amount,
                        now,
                        escrow_id,
                    )
                }
            },
            AssetTransferMode::PSP22Contract(_) => {
                ||| (r matches Ok(escrow_id) && create_ok(
                    pre,
                    post,
                    caller,
                    provider,
                    amount,
                    now,
                    escrow_id,
                ))
                ||| (r == Result::<u32, EscrowError>::Err(EscrowError::InsufficientAllowance)
                    && post == pre)
                ||| (r matches Err(EscrowError::PSP22Error(_)) && post == pre)
            },
        }
    }
}

impl EscrowContract {
    /// Opens a new escrow: the caller deposits `amount` for `provider`.
    ///
    /// A zero amount is rejected outright; a paused contract rejects the
    /// call. In PSP22 mode the deposit moves by `transfer_from` out of the
    /// caller's pre-authorized allowance, and the record is committed only
    /// if the token accepts the transfer; in runtime-asset mode the record
    /// commits directly. The new record is `Active`, expires a configured
    /// distance after `now`, and both parties are indexed under the new id.
    ///
    /// Known residual risk: any allowance the caller granted beyond `amount`
    /// stays in place afterwards — the contract cannot reset it, so callers
    /// should pre-authorize exact amounts.
    pub fn create_escrow<T: PSP22>(
        &mut self,
        token: &mut T,
        caller: AccountId,
        now: Timestamp,
        provider: AccountId,
        amount: Balance,
    ) -> (r: Result<u32, EscrowError>)
        requires
            old(self).wf(),
            amount > 0 && !old(self).paused ==> {
                &&& old(self).escrow_count < u32::MAX
                &&& now + old(self).default_timelock_duration <= u64::MAX
            },
        ensures
            final(self).wf(),
            create_post(*old(self), *final(self), caller, provider, amount, now, r),
    {
        if amount == 0 {
            return Err(EscrowError::InvalidAmount);
        }
        if self.paused {
            return Err(EscrowError::ContractPaused);
        }
        match self.asset_mode {
            AssetTransferMode::PSP22Contract(_) => {
                let allowance = token.allowance(caller, self.custodian);
                if allowance < amount {
                    return Err(EscrowError::InsufficientAllowance);
                }
                match token.transfer_from(caller, self.custodian, amount, Vec::new()) {
                    Ok(_) => {},
                    Err(e) => {
                        return Err(EscrowError::PSP22Error(e));
                    },
                }
            },
            AssetTransferMode::RuntimeAsset(asset_id) => {
                if asset_id == 0 {
                    return Err(EscrowError::InvalidStatus);
                }
            },
        }
        let escrow_id = self.escrow_count;
        let record = EscrowData {
            client: caller,
            provider,
            amount,
            status: EscrowStatus::Active,
            created_at: now,
            deadline: now + self.default_timelock_duration,
        };
        self.escrows.push(record);
        self.user_escrows.push((caller, escrow_id));
        self.user_escrows.push((provider, escrow_id));
        self.extension_requests.push(None);
        self.escrow_count = self.escrow_count + 1;
        self.events.push(
            EscrowEvent::Created(EscrowCreated { escrow_id, client: caller, provider, amount }),
        );
        Ok(escrow_id)
    }
}

/// The state written by a successful `complete_escrow`: the record flips to
/// `Completed`, the cumulative volume grows by its amount, the tier is
/// recomputed from the new volume (updating the rate and logging a tier
/// event only when it moves), and a completion event carries the provider
/// payout and the fee charged at the rate in effect when the call began.
pub open spec fn complete_ok(pre: EscrowContract, post: EscrowContract, escrow_id: u32) -> bool {
    let record = pre.escrows@[escrow_id as int];
    let fee = spec_fee(record.amount, pre.fee_bps);
    let provider_amount = record.amount - fee;
    let new_volume = (pre.total_volume + record.amount) as u128;
    let new_tier = spec_tier_for_volume(new_volume);
    let completed = EscrowEvent::Completed(
        EscrowCompleted { escrow_id, amount: provider_amount as u128, fee: fee as u128 },
    );
    let tier_changed = EscrowEvent::TierChanged(
        FeeTierChanged {
            new_tier,
            new_fee_bps: spec_fee_for_tier(new_tier),
            total_volume: new_volume,
        },
    );
    &&& pre.total_volume + record.amount <= u128::MAX
    &&& post.escrows@ == pre.escrows@.update(
        escrow_id as int,
        EscrowData { status: EscrowStatus::Completed, ..record },
    )
    &&& post.total_volume == new_volume
    &&& post.current_tier == new_tier
    &&& post.fee_bps == if new_tier != pre.current_tier {
        spec_fee_for_tier(new_tier)
    } else {
        pre.fee_bps
    }
    &&& post.events@ == if new_tier != pre.current_tier {
        pre.events@.push(tier_changed).push(completed)
    } else {
        pre.events@.push(completed)
    }
    &&& post.user_escrows@ == pre.user_escrows@
    &&& post.extension_requests@ == pre.extension_requests@
    &&& post.escrow_count == pre.escrow_count
    &&& config_unchanged(pre, post)
}

/// Everything `complete_escrow` may do: exact rejections when paused, when
/// the id is unassigned, when the caller is not the client, or when the
/// record is not `Active`; a guaranteed commit in runtime-asset mode; and in
/// PSP22 mode a commit, or an unchanged state when the token refuses either
/// payout transfer.
pub open spec fn complete_post(
    pre: EscrowContract,
    post: EscrowContract,
    caller: AccountId,
    escrow_id: u32,
    r: Result<(), EscrowError>,
) -> bool {
    if pre.paused {
        r == Result::<(), EscrowError>::Err(EscrowError::ContractPaused) && post == pre
    } else if (escrow_id as int) >= pre.escrows@.len() {
        r == Result::<(), EscrowError>::Err(EscrowError::EscrowNotFound) && post == pre
    } else if caller != pre.escrows@[escrow_id as int].client {
        r == Result::<(), EscrowError>::Err(EscrowError::NotAuthorized) && post == pre
    } else if pre.escrows@[escrow_id as int].status != EscrowStatus::Active {
        r == Result::<(), EscrowError>::Err(EscrowError::InvalidStatus) && post == pre
    } else {
        match pre.asset_mode {
            AssetTransferMode::RuntimeAsset(_) => {
                r == Result::<(), EscrowError>::Ok(()) && complete_ok(pre, post, escrow_id)
            },
            AssetTransferMode::PSP22Contract(_) => {
                ||| (r == Result::<(), EscrowError>::Ok(()) && complete_ok(pre, post, escrow_id))
                ||| (r matches Err(EscrowError::PSP22Error(_)) && post == pre)
            },
        }
    }
}

impl EscrowContract {
    /// Releases a held escrow: only the client may complete, and only while
    /// the record is `Active`. The provider receives the amount less the
    /// fee taken at the rate in effect at call time; the fee account
    /// receives the fee when it is positive. The cumulative volume grows by
    /// the full amount and the fee tier is recomputed afterwards, so this
    /// completion never pays the rate its own volume unlocks. In PSP22 mode
    /// nothing commits unless the token accepts both transfers.
    pub fn complete_escrow<T: PSP22>(
        &mut self,
        token: &mut T,
        caller: AccountId,
        escrow_id: u32,
    ) -> (r: Result<(), EscrowError>)
        requires
            old(self).wf(),
            ({
                let pre = *old(self);
                &&& !pre.paused
                &&& (escrow_id as int) < pre.escrows@.len()
                &&& caller == pre.escrows@[escrow_id as int].client
                &&& pre.escrows@[escrow_id as int].status == EscrowStatus::Active
            }) ==> {
                let record = old(self).escrows@[escrow_id as int];
                &&& old(self).total_volume + record.amount <= u128::MAX
                &&& record.amount * old(self).fee_bps <= u128::MAX
                &&& spec_fee(record.amount, old(self).fee_bps) <= record.amount
            },
        ensures
            final(self).wf(),
            complete_post(*old(self), *final(self), caller, escrow_id, r),
    {
        if self.paused {
            return Err(EscrowError::ContractPaused);
        }
        let idx = escrow_id as usize;
        if idx >= self.escrows.len() {
            return Err(EscrowError::EscrowNotFound);
        }
        let record = self.escrows[idx];
        if caller != record.client {
            return Err(EscrowError::NotAuthorized);
        }
        if record.status != EscrowStatus::Active {
            return Err(EscrowError::InvalidStatus);
        }
        // The fee uses the rate in effect at call time; the tier is
        // recomputed only after this completion's volume is added.
        let fee = (record.amount * (self.fee_bps as u128)) / 10000;
        let provider_amount = record.amount - fee;
        let new_volume = self.total_volume + record.amount;
        let new_tier = fee::tier_for_volume(new_volume);
        match self.asset_mode {
            AssetTransferMode::PSP22Contract(_) => {
                match token.transfer(record.provider, provider_amount, Vec::new()) {
                    Ok(_) => {},
                    Err(e) => {
                        return Err(EscrowError::PSP22Error(e));
                    },
                }
                if fee > 0 {
                    match token.transfer(self.fee_account, fee, Vec::new()) {
                        Ok(_) => {},
                        Err(e) => {
                            return Err(EscrowError::PSP22Error(e));
                        },
                    }
                }
            },
            AssetTransferMode::RuntimeAsset(_) => {},
        }
        self.total_volume = new_volume;
        if new_tier != self.current_tier {
            let new_bps = fee::fee_for_tier(new_tier);
            self.current_tier = new_tier;
            self.fee_bps = new_bps;
            self.events.push(
                EscrowEvent::TierChanged(
                    FeeTierChanged { new_tier, new_fee_bps: new_bps, total_volume: new_volume },
                ),
            );
        }
        self.escrows[idx] = EscrowData { status: EscrowStatus::Completed, ..record };
        self.events.push(
            EscrowEvent::Completed(EscrowCompleted { escrow_id, amount: provider_amount, fee }),
        );
        Ok(())
    }
}

/// The state written by a successful `cancel_escrow`: the record flips to
/// `Cancelled` and a cancellation event is logged; nothing else moves.
pub open spec fn cancel_ok(pre: EscrowContract, post: EscrowContract, escrow_id: u32) -> bool {
    let record = pre.escrows@[escrow_id as int];
    let cancelled = EscrowEvent::Cancelled(EscrowCancelled { escrow_id });
    &&& post.escrows@ == pre.escrows@.update(
        escrow_id as int,
        EscrowData { status: EscrowStatus::Cancelled, ..record },
    )
    &&& post.events@ == pre.events@.push(cancelled)
    &&& post.total_volume == pre.total_volume
    &&& post.current_tier == pre.current_tier
    &&& post.fee_bps == pre.fee_bps
    &&& post.user_escrows@ == pre.user_escrows@
    &&& post.extension_requests@ == pre.extension_requests@
    &&& post.escrow_count == pre.escrow_count
    &&& config_unchanged(pre, post)
}

/// Everything `cancel_escrow` may do: exact rejections when paused, when the
/// id is unassigned, when the caller is neither party, or when the record is
/// not `Active`; a guaranteed commit in runtime-asset mode; and in PSP22
/// mode a commit, or an unchanged state when the token refuses the refund.
pub open spec fn cancel_post(
    pre: EscrowContract,
    post: EscrowContract,
    caller: AccountId,
    escrow_id: u32,
    r: Result<(), EscrowError>,
) -> bool {
    if pre.paused {
        r == Result::<(), EscrowError>::Err(EscrowError::ContractPaused) && post == pre
    } else if (escrow_id as int) >= pre.escrows@.len() {
        r == Result::<(), EscrowError>::Err(EscrowError::EscrowNotFound) && post == pre
    } else if caller != pre.escrows@[escrow_id as int].client && caller
        != pre.escrows@[escrow_id as int].provider {
        r == Result::<(), EscrowError>::Err(EscrowError::NotAuthorized) && post == pre
    } else if pre.escrows@[escrow_id as int].status != EscrowStatus::Active {
        r == Result::<(), EscrowError>::Err(EscrowError::InvalidStatus) && post == pre
    } else {
        match pre.asset_mode {
            AssetTransferMode::RuntimeAsset(_) => {
                r == Result::<(), EscrowError>::Ok(()) && cancel_ok(pre, post, escrow_id)
            },
            AssetTransferMode::PSP22Contract(_) => {
                ||| (r == Result::<(), EscrowError>::Ok(()) && cancel_ok(pre, post, escrow_id))
                ||| (r matches Err(EscrowError::PSP22Error(_)) && post == pre)
            },
        }
    }
}

/// The state written by a successful `process_expired_escrow`: the record
/// flips to `Cancelled` and an expiry event carries the full refunded
/// amount. The cumulative volume and the fee rate do not move: expiry
/// refunds are fee-free.
pub open spec fn expire_ok(pre: EscrowContract, post: EscrowContract, escrow_id: u32) -> bool {
    let record = pre.escrows@[escrow_id as int];
    let expired = EscrowEvent::Expired(
        EscrowExpired {
            escrow_id,
            client: record.client,
            provider: record.provider,
            amount: record.amount,
        },
    );
    &&& post.escrows@ == pre.escrows@.update(
        escrow_id as int,
        EscrowData { status: EscrowStatus::Cancelled, ..record },
    )
    &&& post.events@ == pre.events@.push(expired)
    &&& post.total_volume == pre.total_volume
    &&& post.current_tier == pre.current_tier
    &&& post.fee_bps == pre.fee_bps
    &&& post.user_escrows@ == pre.user_escrows@
    &&& post.extension_requests@ == pre.extension_requests@
    &&& post.escrow_count == pre.escrow_count
    &&& config_unchanged(pre, post)
}

/// Everything `process_expired_escrow` may do: exact rejections when paused,
/// when the id is unassigned, when the record is not `Active`, or when its
/// deadline has not yet passed; a guaranteed commit in runtime-asset mode;
/// and in PSP22 mode a commit, or an unchanged state when the token refuses
/// the refund.
pub open spec fn expire_post(
    pre: EscrowContract,
    post: EscrowContract,
    now: Timestamp,
    escrow_id: u32,
    r: Result<(), EscrowError>,
) -> bool {
    if pre.paused {
        r == Result::<(), EscrowError>::Err(EscrowError::ContractPaused) && post == pre
    } else if (escrow_id as int) >= pre.escrows@.len() {
        r == Result::<(), EscrowError>::Err(EscrowError::EscrowNotFound) && post == pre
    } else if pre.escrows@[escrow_id as int].status != EscrowStatus::Active {
        r == Result::<(), EscrowError>::Err(EscrowError::InvalidStatus) && post == pre
    } else if now <= pre.escrows@[escrow_id as int].deadline {
        r == Result::<(), EscrowError>::Err(EscrowError::InvalidStatus) && post == pre
    } else {
        match pre.asset_mode {
            AssetTransferMode::RuntimeAsset(_) => {
                r == Result::<(), EscrowError>::Ok(()) && expire_ok(pre, post, escrow_id)
            },
            AssetTransferMode::PSP22Contract(_) => {
                ||| (r == Result::<(), EscrowError>::Ok(()) && expire_ok(pre, post, escrow_id))
                ||| (r matches Err(EscrowError::PSP22Error(_)) && post == pre)
            },
        }
    }
}

/// The state written by a successful `flag_dispute`: the record flips to
/// `Disputed` and a dispute event carries the flagging party and the reason.
/// No value moves and no slot changes.
pub open spec fn dispute_ok(
    pre: EscrowContract,
    post: EscrowContract,
    caller: AccountId,
    escrow_id: u32,
    reason: String,
) -> bool {
    let record = pre.escrows@[escrow_id as int];
    let disputed = EscrowEvent::Disputed(
        EscrowDisputed { escrow_id, flagged_by: caller, reason },
    );
    &&& post.escrows@ == pre.escrows@.update(
        escrow_id as int,
        EscrowData { status: EscrowStatus::Disputed, ..record },
    )
    &&& post.events@ == pre.events@.push(disputed)
    &&& post.total_volume == pre.total_volume
    &&& post.current_tier == pre.current_tier
    &&& post.fee_bps == pre.fee_bps
    &&& post.user_escrows@ == pre.user_escrows@
    &&& post.extension_requests@ == pre.extension_requests@
    &&& post.escrow_count == pre.escrow_count
    &&& config_unchanged(pre, post)
}

/// Everything `flag_dispute` does, exactly: pausing does not gate disputes;
/// an unassigned id, a caller that is neither party, a record already
/// `Disputed` (a distinct error), and other non-`Active` records are
/// rejected in that order; otherwise the record is flagged.
pub open spec fn dispute_post(
    pre: EscrowContract,
    post: EscrowContract,
    caller: AccountId,
    escrow_id: u32,
    reason: String,
    r: Result<(), EscrowError>,
) -> bool {
    if (escrow_id as int) >= pre.escrows@.len() {
        r == Result::<(), EscrowError>::Err(EscrowError::EscrowNotFound) && post == pre
    } else if caller != pre.escrows@[escrow_id as int].client && caller
        != pre.escrows@[escrow_id as int].provider {
        r == Result::<(), EscrowError>::Err(EscrowError::NotAuthorized) && post == pre
    } else if pre.escrows@[escrow_id as int].status == EscrowStatus::Disputed {
        r == Result::<(), EscrowError>::Err(EscrowError::AlreadyDisputed) && post == pre
    } else if pre.escrows@[escrow_id as int].status != EscrowStatus::Active {
        r == Result::<(), EscrowError>::Err(EscrowError::InvalidStatus) && post == pre
    } else {
        r == Result::<(), EscrowError>::Ok(()) && dispute_ok(pre, post, caller, escrow_id, reason)
    }
}

impl EscrowContract {
    /// Cancels a held escrow: either party may cancel while the record is
    /// `Active`. The client is refunded the full amount with no fee. In
    /// PSP22 mode nothing commits unless the token accepts the refund.
    pub fn cancel_escrow<T: PSP22>(
        &mut self,
        token: &mut T,
        caller: AccountId,
        escrow_id: u32,
    ) -> (r: Result<(), EscrowError>)
        requires
            old(self).wf(),
        ensures
            final(self).wf(),
            cancel_post(*old(self), *final(self), caller, escrow_id, r),
    {
        if self.paused {
            return Err(EscrowError::ContractPaused);
        }
        let idx = escrow_id as usize;
        if idx >= self.escrows.len() {
            return Err(EscrowError::EscrowNotFound);
        }
        let record = self.escrows[idx];
        if caller != record.client && caller != record.provider {
            return Err(EscrowError::NotAuthorized);
        }
        if record.status != EscrowStatus::Active {
            return Err(EscrowError::InvalidStatus);
        }
        match self.asset_mode {
            AssetTransferMode::PSP22Contract(_) => {
                match token.transfer(record.client, record.amount, Vec::new()) {
                    Ok(_) => {},
                    Err(e) => {
                        return Err(EscrowError::PSP22Error(e));
                    },
                }
            },
            AssetTransferMode::RuntimeAsset(_) => {},
        }
        self.escrows[idx] = EscrowData { status: EscrowStatus::Cancelled, ..record };
        self.events.push(EscrowEvent::Cancelled(EscrowCancelled { escrow_id }));
        Ok(())
    }

    /// Processes an escrow whose deadline has passed: callable by anyone,
    /// but only while the record is `Active` and only strictly after its
    /// deadline. The client is refunded the full amount with no fee. In
    /// PSP22 mode nothing commits unless the token accepts the refund.
    pub fn process_expired_escrow<T: PSP22>(
        &mut self,
        token: &mut T,
        now: Timestamp,
        escrow_id: u32,
    ) -> (r: Result<(), EscrowError>)
        requires
            old(self).wf(),
        ensures
            final(self).wf(),
            expire_post(*old(self), *final(self), now, escrow_id, r),
    {
        if self.paused {
            return Err(EscrowError::ContractPaused);
        }
        let idx = escrow_id as usize;
        if idx >= self.escrows.len() {
            return Err(EscrowError::EscrowNotFound);
        }
        let record = self.escrows[idx];
        if record.status != EscrowStatus::Active {
            return Err(EscrowError::InvalidStatus);
        }
        if now <= record.deadline {
            return Err(EscrowError::InvalidStatus);
        }
        match self.asset_mode {
            AssetTransferMode::PSP22Contract(_) => {
                match token.transfer(record.client, record.amount, Vec::new()) {
                    Ok(_) => {},
                    Err(e) => {
                        return Err(EscrowError::PSP22Error(e));
                    },
                }
            },
            AssetTransferMode::RuntimeAsset(_) => {},
        }
        self.escrows[idx] = EscrowData { status: EscrowStatus::Cancelled, ..record };
        self.events.push(
            EscrowEvent::Expired(
                EscrowExpired {
                    escrow_id,
                    client: record.client,
                    provider: record.provider,
                    amount: record.amount,
                },
            ),
        );
        Ok(())
    }

    /// Flags a held escrow as disputed: either party may flag while the
    /// record is `Active`; a record already `Disputed` reports so
    /// distinctly. Pausing does not gate this call, and no value moves.
    pub fn flag_dispute(
        &mut self,
        caller: AccountId,
        escrow_id: u32,
        reason: String,
    ) -> (r: Result<(), EscrowError>)
        requires
            old(self).wf(),
        ensures
            final(self).wf(),
            dispute_post(*old(self), *final(self), caller, escrow_id, reason, r),
    {
        let idx = escrow_id as usize;
        if idx >= self.escrows.len() {
            return Err(EscrowError::EscrowNotFound);
        }
        let record = self.escrows[idx];
        if caller != record.client && caller != record.provider {
            return Err(EscrowError::NotAuthorized);
        }
        if record.status == EscrowStatus::Disputed {
            return Err(EscrowError::AlreadyDisputed);
        }
        if record.status != EscrowStatus::Active {
            return Err(EscrowError::InvalidStatus);
        }
        self.escrows[idx] = EscrowData { status: EscrowStatus::Disputed, ..record };
        self.events.push(
            EscrowEvent::Disputed(EscrowDisputed { escrow_id, flagged_by: caller, reason }),
        );
        Ok(())
    }
}

/// The state written by a successful `request_deadline_extension`: the
/// escrow's single extension slot holds the new request — overwriting any
/// unapproved prior one — and a request event is logged.
pub open spec fn request_extension_ok(
    pre: EscrowContract,
    post: EscrowContract,
    caller: AccountId,
    escrow_id: u32,
    new_deadline: Timestamp,
    reason: String,
) -> bool {
    let slot = ExtensionRequest { requester: caller, new_deadline, reason };
    let requested = EscrowEvent::ExtensionRequested(
        DeadlineExtensionRequested { escrow_id, requested_by: caller, new_deadline, reason },
    );
    &&& post.extension_requests@ == pre.extension_requests@.update(
        escrow_id as int,
        Some(slot),
    )
    &&& post.events@ == pre.events@.push(requested)
    &&& post.escrows@ == pre.escrows@
    &&& post.total_volume == pre.total_volume
    &&& post.current_tier == pre.current_tier
    &&& post.fee_bps == pre.fee_bps
    &&& post.user_escrows@ == pre.user_escrows@
    &&& post.escrow_count == pre.escrow_count
    &&& config_unchanged(pre, post)
}

/// Everything `request_deadline_extension` does, exactly: pausing does not
/// gate it; an unassigned id, a caller that is neither party, a non-`Active`
/// record, and a proposed deadline not strictly beyond both the current time
/// and the current deadline are rejected in that order; otherwise the
/// request is stored.
pub open spec fn request_extension_post(
    pre: EscrowContract,
    post: EscrowContract,
    caller: AccountId,
    now: Timestamp,
    escrow_id: u32,
    new_deadline: Timestamp,
    reason: String,
    r: Result<(), EscrowError>,
) -> bool {
    if (escrow_id as int) >= pre.escrows@.len() {
        r == Result::<(), EscrowError>::Err(EscrowError::EscrowNotFound) && post == pre
    } else if caller != pre.escrows@[escrow_id as int].client && caller
        != pre.escrows@[escrow_id as int].provider {
        r == Result::<(), EscrowError>::Err(EscrowError::NotAuthorized) && post == pre
    } else if pre.escrows@[escrow_id as int].status != EscrowStatus::Active {
        r == Result::<(), EscrowError>::Err(EscrowError::InvalidStatus) && post == pre
    } else if new_deadline <= now || new_deadline <= pre.escrows@[escrow_id as int].deadline {
        r == Result::<(), EscrowError>::Err(EscrowError::InvalidExtension) && post == pre
    } else {
        r == Result::<(), EscrowError>::Ok(()) && request_extension_ok(
            pre,
            post,
            caller,
            escrow_id,
            new_deadline,
            reason,
        )
    }
}

/// The state written by a successful `approve_deadline_extension`: the
/// deadline moves to the requested value, the slot is cleared — it is the
/// protocol's only consumer — and an event carries both deadlines.
pub open spec fn approve_extension_ok(
    pre: EscrowContract,
    post: EscrowContract,
    escrow_id: u32,
) -> bool {
    let record = pre.escrows@[escrow_id as int];
    let req = pre.extension_requests@[escrow_id as int]->Some_0;
    let extended = EscrowEvent::Extended(
        DeadlineExtended {
            escrow_id,
            old_deadline: record.deadline,
            new_deadline: req.new_deadline,
        },
    );
    &&& post.escrows@ == pre.escrows@.update(
        escrow_id as int,
        EscrowData { deadline: req.new_deadline, ..record },
    )
    &&& post.extension_requests@ == pre.extension_requests@.update(escrow_id as int, None)
    &&& post.events@ == pre.events@.push(extended)
    &&& post.total_volume == pre.total_volume
    &&& post.current_tier == pre.current_tier
    &&& post.fee_bps == pre.fee_bps
    &&& post.user_escrows@ == pre.user_escrows@
    &&& post.escrow_count == pre.escrow_count
    &&& config_unchanged(pre, post)
}

/// Everything `approve_deadline_extension` does, exactly: an unassigned id,
/// a caller that is neither party, an empty extension slot, and a caller who
/// made the pending request — self-approval — are rejected in that order;
/// otherwise the extension commits.
pub open spec fn approve_extension_post(
    pre: EscrowContract,
    post: EscrowContract,
    caller: AccountId,
    escrow_id: u32,
    r: Result<(), EscrowError>,
) -> bool {
    if (escrow_id as int) >= pre.escrows@.len() {
        r == Result::<(), EscrowError>::Err(EscrowError::EscrowNotFound) && post == pre
    } else if caller != pre.escrows@[escrow_id as int].client && caller
        != pre.escrows@[escrow_id as int].provider {
        r == Result::<(), EscrowError>::Err(EscrowError::NotAuthorized) && post == pre
    } else {
        match pre.extension_requests@[escrow_id as int] {
            None => r == Result::<(), EscrowError>::Err(EscrowError::EscrowNotFound) && post
                == pre,
            Some(req) => {
                if caller == req.requester {
                    r == Result::<(), EscrowError>::Err(EscrowError::NotAuthorized) && post
                        == pre
                } else {
                    r == Result::<(), EscrowError>::Ok(()) && approve_extension_ok(
                        pre,
                        post,
                        escrow_id,
                    )
                }
            },
        }
    }
}

impl EscrowContract {
    /// Proposes moving an escrow's deadline: either party may ask while the
    /// record is `Active`, the proposal must lie strictly beyond both the
    /// current time and the current deadline, and a new request overwrites
    /// any unapproved prior one for the same escrow.
    pub fn request_deadline_extension(
        &mut self,
        caller: AccountId,
        now: Timestamp,
        escrow_id: u32,
        new_deadline: Timestamp,
        reason: String,
    ) -> (r: Result<(), EscrowError>)
        requires
            old(self).wf(),
        ensures
            final(self).wf(),
            request_extension_post(
                *old(self),
                *final(self),
                caller,
                now,
                escrow_id,
                new_deadline,
                reason,
                r,
            ),
    {
        let idx = escrow_id as usize;
        if idx >= self.escrows.len() {
            return Err(EscrowError::EscrowNotFound);
        }
        let record = self.escrows[idx];
        if caller != record.client && caller != record.provider {
            return Err(EscrowError::NotAuthorized);
        }
        if record.status != EscrowStatus::Active {
            return Err(EscrowError::InvalidStatus);
        }
        if new_deadline <= now || new_deadline <= record.deadline {
            return Err(EscrowError::InvalidExtension);
        }
        let slot = ExtensionRequest { requester: caller, new_deadline, reason: reason.clone() };
        self.extension_requests[idx] = Some(slot);
        self.events.push(
            EscrowEvent::ExtensionRequested(
                DeadlineExtensionRequested {
                    escrow_id,
                    requested_by: caller,
                    new_deadline,
                    reason,
                },
            ),
        );
        Ok(())
    }

    /// Approves a pending deadline extension: the approver must be a party
    /// to the escrow other than the one who asked — the handshake needs both
    /// sides. The deadline moves to the requested value, strictly forward,
    /// and the request is consumed.
    pub fn approve_deadline_extension(
        &mut self,
        caller: AccountId,
        escrow_id: u32,
    ) -> (r: Result<(), EscrowError>)
        requires
            old(self).wf(),
        ensures
            final(self).wf(),
            approve_extension_post(*old(self), *final(self), caller, escrow_id, r),
    {
        let idx = escrow_id as usize;
        if idx >= self.escrows.len() {
            return Err(EscrowError::EscrowNotFound);
        }
        let record = self.escrows[idx];
        if caller != record.client && caller != record.provider {
            return Err(EscrowError::NotAuthorized);
        }
        let (requester, new_deadline) = match &self.extension_requests[idx] {
            Some(req) => (req.requester, req.new_deadline),
            None => {
                return Err(EscrowError::EscrowNotFound);
            },
        };
        if caller == requester {
            return Err(EscrowError::NotAuthorized);
        }
        let old_deadline = record.deadline;
        self.escrows[idx] = EscrowData { deadline: new_deadline, ..record };
        self.extension_requests[idx] = None;
        self.events.push(
            EscrowEvent::Extended(DeadlineExtended { escrow_id, old_deadline, new_deadline }),
        );
        Ok(())
    }
}

/// Everything `update_fee_tier` does, exactly: the tier is recomputed from
/// the cumulative volume; when it differs from the stored tier, the tier and
/// rate are rewritten and a tier event is logged, otherwise nothing moves.
pub open spec fn update_tier_post(pre: EscrowContract, post: EscrowContract) -> bool {
    let new_tier = spec_tier_for_volume(pre.total_volume);
    let tier_changed = EscrowEvent::TierChanged(
        FeeTierChanged {
            new_tier,
            new_fee_bps: spec_fee_for_tier(new_tier),
            total_volume: pre.total_volume,
        },
    );
    if new_tier == pre.current_tier {
        post == pre
    } else {
        &&& post.current_tier == new_tier
        &&& post.fee_bps == spec_fee_for_tier(new_tier)
        &&& post.events@ == pre.events@.push(tier_changed)
        &&& post.escrows@ == pre.escrows@
        &&& post.user_escrows@ == pre.user_escrows@
        &&& post.extension_requests@ == pre.extension_requests@
        &&& post.escrow_count == pre.escrow_count
        &&& post.total_volume == pre.total_volume
        &&& config_unchanged(pre, post)
    }
}

/// Everything `set_fee` does, exactly: owner-gated overwrite of the rate.
pub open spec fn set_fee_post(
    pre: EscrowContract,
    post: EscrowContract,
    caller: AccountId,
    new_fee_bps: u16,
    r: Result<(), EscrowError>,
) -> bool {
    if caller != pre.owner {
        r == Result::<(), EscrowError>::Err(EscrowError::NotAuthorized) && post == pre
    } else {
        r == Result::<(), EscrowError>::Ok(()) && post == (EscrowContract {
            fee_bps: new_fee_bps,
            ..pre
        })
    }
}

/// Everything `set_usdt_token` does, exactly: owner-gated overwrite of the
/// token address.
pub open spec fn set_usdt_token_post(
    pre: EscrowContract,
    post: EscrowContract,
    caller: AccountId,
    new_usdt_token: AccountId,
    r: Result<(), EscrowError>,
) -> bool {
    if caller != pre.owner {
        r == Result::<(), EscrowError>::Err(EscrowError::NotAuthorized) && post == pre
    } else {
        r == Result::<(), EscrowError>::Ok(()) && post == (EscrowContract {
            usdt_token: new_usdt_token,
            ..pre
        })
    }
}

/// Everything `pause` and `unpause` do, exactly: owner-gated writes of the
/// paused flag.
pub open spec fn set_paused_post(
    pre: EscrowContract,
    post: EscrowContract,
    caller: AccountId,
    paused: bool,
    r: Result<(), EscrowError>,
) -> bool {
    if caller != pre.owner {
        r == Result::<(), EscrowError>::Err(EscrowError::NotAuthorized) && post == pre
    } else {
        r == Result::<(), EscrowError>::Ok(()) && post == (EscrowContract { paused, ..pre })
    }
}

/// Everything `set_default_timelock_duration` does, exactly: owner-gated,
/// and durations under the one-day floor are rejected.
pub open spec fn set_timelock_post(
    pre: EscrowContract,
    post: EscrowContract,
    caller: AccountId,
    duration_ms: u64,
    r: Result<(), EscrowError>,
) -> bool {
    if caller != pre.owner {
        r == Result::<(), EscrowError>::Err(EscrowError::NotAuthorized) && post == pre
    } else if duration_ms < MIN_TIMELOCK_MS {
        r == Result::<(), EscrowError>::Err(EscrowError::InvalidTimelock) && post == pre
    } else {
        r == Result::<(), EscrowError>::Ok(()) && post == (EscrowContract {
            default_timelock_duration: duration_ms,
            ..pre
        })
    }
}

/// Everything `emergency_withdraw` may do: the contract state never moves;
/// a non-owner is rejected, and for the owner the outcome in PSP22 mode is
/// whatever the token answered.
pub open spec fn withdraw_post(
    pre: EscrowContract,
    post: EscrowContract,
    caller: AccountId,
    r: Result<(), EscrowError>,
) -> bool {
    &&& post == pre
    &&& caller != pre.owner ==> r == Result::<(), EscrowError>::Err(EscrowError::NotAuthorized)
    &&& caller == pre.owner ==> match pre.asset_mode {
        AssetTransferMode::RuntimeAsset(_) => r == Result::<(), EscrowError>::Ok(()),
        AssetTransferMode::PSP22Contract(_) => {
            ||| r == Result::<(), EscrowError>::Ok(())
            ||| r matches Err(EscrowError::PSP22Error(_))
        },
    }
}

/// Whether a record is eligible for expiry processing at `now`.
pub open spec fn spec_is_expired(record: EscrowData, now: Timestamp) -> bool {
    record.status == EscrowStatus::Active && now > record.deadline
}

/// The ids in `[lo, hi)` whose records are expired at `now`, ascending.
pub open spec fn expired_ids(
    escrows: Seq<EscrowData>,
    now: Timestamp,
    lo: int,
    hi: int,
) -> Seq<u32>
    decreases hi - lo,
{
    if hi <= lo {
        Seq::empty()
    } else {
        let prefix = expired_ids(escrows, now, lo, hi - 1);
        if spec_is_expired(escrows[hi - 1], now) {
            prefix.push((hi - 1) as u32)
        } else {
            prefix
        }
    }
}

impl EscrowContract {
    /// What `get_expired_escrows` returns: the expired ids in the requested
    /// window, clamped to the assigned ids.
    pub open spec fn spec_expired_page(self, now: Timestamp, start: u32, limit: u32) -> Seq<
        u32,
    > {
        let end = if start + limit < self.escrow_count {
            start + limit
        } else {
            self.escrow_count as int
        };
        expired_ids(self.escrows@, now, start as int, end)
    }

    /// Recomputes the fee tier from the cumulative volume, rewriting the
    /// rate and logging a tier event when the tier moves.
    pub fn update_fee_tier(&mut self)
        ensures
            update_tier_post(*old(self), *final(self)),
            old(self).wf() ==> final(self).wf(),
    {
        let new_tier = fee::tier_for_volume(self.total_volume);
        if new_tier != self.current_tier {
            self.current_tier = new_tier;
            self.fee_bps = fee::fee_for_tier(new_tier);
            let new_fee_bps = self.fee_bps;
            self.events.push(
                EscrowEvent::TierChanged(
                    FeeTierChanged { new_tier, new_fee_bps, total_volume: self.total_volume },
                ),
            );
        }
    }

    /// The fee tier that the current cumulative volume selects.
    pub fn calculate_fee_tier(&self) -> (tier: u8)
        ensures
            tier == spec_tier_for_volume(self.total_volume),
    {
        fee::tier_for_volume(self.total_volume)
    }

    /// The fee rate of a tier, in basis points.
    pub fn get_fee_for_tier(&self, tier: u8) -> (bps: u16)
        ensures
            bps == spec_fee_for_tier(tier),
    {
        fee::fee_for_tier(tier)
    }

    /// Owner-only: overwrites the fee rate directly. The rate stands until
    /// the next tier change recomputes it.
    pub fn set_fee(&mut self, caller: AccountId, new_fee_bps: u16) -> (r: Result<
        (),
        EscrowError,
    >)
        ensures
            set_fee_post(*old(self), *final(self), caller, new_fee_bps, r),
            old(self).wf() ==> final(self).wf(),
    {
        if caller != self.owner {
            return Err(EscrowError::NotAuthorized);
        }
        self.fee_bps = new_fee_bps;
        Ok(())
    }

    /// Owner-only: points the contract at another token address.
    pub fn set_usdt_token(&mut self, caller: AccountId, new_usdt_token: AccountId) -> (r: Result<
        (),
        EscrowError,
    >)
        ensures
            set_usdt_token_post(*old(self), *final(self), caller, new_usdt_token, r),
            old(self).wf() ==> final(self).wf(),
    {
        if caller != self.owner {
            return Err(EscrowError::NotAuthorized);
        }
        self.usdt_token = new_usdt_token;
        Ok(())
    }

    /// Owner-only: gates create, complete, cancel and expiry processing.
    pub fn pause(&mut self, caller: AccountId) -> (r: Result<(), EscrowError>)
        ensures
            set_paused_post(*old(self), *final(self), caller, true, r),
            old(self).wf() ==> final(self).wf(),
    {
        if caller != self.owner {
            return Err(EscrowError::NotAuthorized);
        }
        self.paused = true;
        Ok(())
    }

    /// Owner-only: lifts the pause.
    pub fn unpause(&mut self, caller: AccountId) -> (r: Result<(), EscrowError>)
        ensures
            set_paused_post(*old(self), *final(self), caller, false, r),
            old(self).wf() ==> final(self).wf(),
    {
        if caller != self.owner {
            return Err(EscrowError::NotAuthorized);
        }
        self.paused = false;
        Ok(())
    }

    /// Owner-only: sets the deadline distance for new escrows; at least one
    /// day.
    pub fn set_default_timelock_duration(&mut self, caller: AccountId, duration_ms: u64) -> (r:
        Result<(), EscrowError>)
        ensures
            set_timelock_post(*old(self), *final(self), caller, duration_ms, r),
            old(self).wf() ==> final(self).wf(),
    {
        if caller != self.owner {
            return Err(EscrowError::NotAuthorized);
        }
        if duration_ms < MIN_TIMELOCK_MS {
            return Err(EscrowError::InvalidTimelock);
        }
        self.default_timelock_duration = duration_ms;
        Ok(())
    }

    /// Owner-only: moves custodied value to the owner through the token.
    /// The contract's own state never changes.
    pub fn emergency_withdraw<T: PSP22>(
        &mut self,
        token: &mut T,
        caller: AccountId,
        amount: Balance,
    ) -> (r: Result<(), EscrowError>)
        ensures
            withdraw_post(*old(self), *final(self), caller, r),
            old(self).wf() ==> final(self).wf(),
    {
        if caller != self.owner {
            return Err(EscrowError::NotAuthorized);
        }
        match self.asset_mode {
            AssetTransferMode::PSP22Contract(_) => {
                match token.transfer(self.owner, amount, Vec::new()) {
                    Ok(_) => {},
                    Err(e) => {
                        return Err(EscrowError::PSP22Error(e));
                    },
                }
            },
            AssetTransferMode::RuntimeAsset(_) => {},
        }
        Ok(())
    }

    /// The record under an id, if any.
    pub fn get_escrow(&self, escrow_id: u32) -> (r: Option<EscrowData>)
        ensures
            r == self.spec_get(escrow_id),
    {
        let idx = escrow_id as usize;
        if idx < self.escrows.len() {
            Some(self.escrows[idx])
        } else {
            None
        }
    }

    /// The escrow ids a principal is registered for, in registration order.
    pub fn get_user_escrows(&self, user: AccountId) -> (r: Vec<u32>)
        ensures
            r@ == ids_of(self.user_escrows@, user),
    {
        let mut r: Vec<u32> = Vec::new();
        let n = self.user_escrows.len();
        let mut i: usize = 0;
        while i < n
            invariant
                i <= n,
                n == self.user_escrows@.len(),
                r@ == ids_of(self.user_escrows@.take(i as int), user),
            decreases n - i,
        {
            proof {
                assert(self.user_escrows@.take((i + 1) as int).drop_last() =~= self
                    .user_escrows@.take(i as int));
            }
            let entry = self.user_escrows[i];
            if entry.0 == user {
                r.push(entry.1);
            }
            i = i + 1;
        }
        proof {
            assert(self.user_escrows@.take(n as int) =~= self.user_escrows@);
        }
        r
    }

    /// The number of records, which is also the next unassigned id.
    pub fn get_escrow_count(&self) -> (r: u32)
        ensures
            r == self.escrow_count,
    {
        self.escrow_count
    }

    /// The token contract address.
    pub fn get_usdt_token(&self) -> (r: AccountId)
        ensures
            r == self.usdt_token,
    {
        self.usdt_token
    }

    /// How value moves: PSP22 contract calls or runtime assets.
    pub fn get_asset_mode(&self) -> (r: AssetTransferMode)
        ensures
            r == self.asset_mode,
    {
        self.asset_mode
    }

    /// The administrative owner.
    pub fn get_owner(&self) -> (r: AccountId)
        ensures
            r == self.owner,
    {
        self.owner
    }

    /// The fee rate applied to completions, in basis points.
    pub fn get_fee_bps(&self) -> (r: u16)
        ensures
            r == self.fee_bps,
    {
        self.fee_bps
    }

    /// Whether the gated operations are currently refused.
    pub fn is_paused(&self) -> (r: bool)
        ensures
            r == self.paused,
    {
        self.paused
    }

    /// The deadline distance given to new escrows, in milliseconds.
    pub fn get_default_timelock_duration(&self) -> (r: u64)
        ensures
            r == self.default_timelock_duration,
    {
        self.default_timelock_duration
    }

    /// The cumulative completed volume.
    pub fn get_total_volume(&self) -> (r: Balance)
        ensures
            r == self.total_volume,
    {
        self.total_volume
    }

    /// The fee tier selected by the cumulative volume.
    pub fn get_current_tier(&self) -> (r: u8)
        ensures
            r == self.current_tier,
    {
        self.current_tier
    }

    /// How much more volume must accumulate before the next tier begins;
    /// zero at the top tier.
    pub fn get_volume_to_next_tier(&self) -> (r: Balance)
        requires
            self.wf(),
        ensures
            r == fee::spec_volume_to_next_tier(self.total_volume, self.current_tier),
    {
        if self.current_tier == 0 {
            fee::TIER1_THRESHOLD - self.total_volume
        } else if self.current_tier == 1 {
            fee::TIER2_THRESHOLD - self.total_volume
        } else {
            0
        }
    }

    /// The custodian's balance as the token reports it; zero in
    /// runtime-asset mode, where no balance source is wired up.
    pub fn get_contract_balance<T: PSP22>(&self, token: &T) -> (r: Balance)
        ensures
            (self.asset_mode matches AssetTransferMode::RuntimeAsset(_)) ==> r == 0,
    {
        match self.asset_mode {
            AssetTransferMode::PSP22Contract(_) => token.balance_of(self.custodian),
            AssetTransferMode::RuntimeAsset(_) => 0,
        }
    }

    /// The pending extension request for an escrow, if any, as the
    /// requester, the proposed deadline, and the stated reason.
    pub fn get_extension_request(&self, escrow_id: u32) -> (r: Option<
        (AccountId, Timestamp, String),
    >)
        ensures
            r == self.spec_extension_request(escrow_id),
    {
        let idx = escrow_id as usize;
        if idx < self.extension_requests.len() {
            match &self.extension_requests[idx] {
                Some(req) => Some((req.requester, req.new_deadline, req.reason.clone())),
                None => None,
            }
        } else {
            None
        }
    }

    /// The pending extension request under an id, if the id has one.
    pub open spec fn spec_extension_request(self, escrow_id: u32) -> Option<
        (AccountId, Timestamp, String),
    > {
        if (escrow_id as int) < self.extension_requests@.len() {
            match self.extension_requests@[escrow_id as int] {
                Some(req) => Some((req.requester, req.new_deadline, req.reason)),
                None => None,
            }
        } else {
            None
        }
    }

    /// The current fee rate as a human-readable percentage string.
    pub fn get_current_fee_percentage(&self) -> (r: String)
        ensures
            self.current_tier == 0 ==> r@ == "1.0%"@,
            self.current_tier == 1 ==> r@ == "0.8%"@,
            self.current_tier == 2 ==> r@ == "0.5%"@,
            self.current_tier > 2 ==> r@ == "1.0%"@,
    {
        match self.current_tier {
            0 => "1.0%".to_owned(),
            1 => "0.8%".to_owned(),
            2 => "0.5%".to_owned(),
            _ => "1.0%".to_owned(),
        }
    }

    /// Whether the record under an id is eligible for expiry processing at
    /// `now`; an unassigned id is not.
    pub fn is_escrow_expired(&self, now: Timestamp, escrow_id: u32) -> (r: bool)
        ensures
            r == ((escrow_id as int) < self.escrows@.len() && spec_is_expired(
                self.escrows@[escrow_id as int],
                now,
            )),
    {
        let idx = escrow_id as usize;
        if idx < self.escrows.len() {
            let record = self.escrows[idx];
            record.status == EscrowStatus::Active && now > record.deadline
        } else {
            false
        }
    }

    /// Scans ids in `[start, start + limit)`, clamped to the assigned ids,
    /// and returns those eligible for expiry processing at `now`, ascending.
    /// A zero limit or a start beyond the count yields an empty page.
    pub fn get_expired_escrows(&self, now: Timestamp, start: u32, limit: u32) -> (r: Vec<u32>)
        requires
            self.wf(),
            start + limit <= u32::MAX,
        ensures
            r@ == self.spec_expired_page(now, start, limit),
    {
        let mut r: Vec<u32> = Vec::new();
        let end = if start + limit < self.escrow_count {
            start + limit
        } else {
            self.escrow_count
        };
        if start >= end {
            return r;
        }
        let mut escrow_id = start;
        while escrow_id < end
            invariant
                self.wf(),
                start <= escrow_id <= end,
                end <= self.escrow_count,
                r@ == expired_ids(self.escrows@, now, start as int, escrow_id as int),
            decreases end - escrow_id,
        {
            let record = self.escrows[escrow_id as usize];
            if record.status == EscrowStatus::Active && now > record.deadline {
                r.push(escrow_id);
            }
            escrow_id = escrow_id + 1;
        }
        r
    }
}

} // verus!
