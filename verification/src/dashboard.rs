//! The persistent dashboard record and its three request handlers.
//!
//! The host runtime (the chain's transactional runtime) supplies atomic
//! single-record read-modify-write, signature verification, zero-initialised
//! allocation, and the current chain timestamp. The handlers here are the
//! decision logic of the three entry points: they take the record together
//! with the signing identity as plain values, perform the authority check,
//! and state exactly which fields change and when a notification is emitted.
//! The surrounding runtime glue (account resolution, event emission, the
//! clock) lives outside the verified library.

use vstd::prelude::*;

use crate::identity::Identity;

verus! {

/// Default uptime alert threshold, in whole percentage points.
pub const DEFAULT_ALERT_THRESHOLD: u64 = 95;

/// The persistent record: last-reported metrics, the authority allowed to
/// mutate them, and the alert-threshold policy value.
#[derive(Clone, Copy, Debug, PartialEq, Eq)]
pub struct ValidatorDashboard {
    pub authority: Identity,
    pub uptime: u64,
    pub stake_amount: u64,
    pub commission: u8,
    pub rewards: u64,
    pub alert_threshold: u64,
    pub last_updated: i64,
}

/// Notification emitted when a reported uptime is below the stored threshold.
#[derive(Clone, Copy, Debug, PartialEq, Eq)]
pub struct AlertTriggered {
    pub validator: Identity,
    pub uptime: u64,
    pub threshold: u64,
}

/// A handler error: the only one the handlers themselves raise.
#[derive(Clone, Copy, Debug, PartialEq, Eq)]
pub enum DashboardError {
    /// The signer does not match the record's stored authority.
    Unauthorized,
}

/// Accounts of the create operation: the signer who pays for the record and
/// becomes its authority.
pub struct Initialize {
    pub authority: Identity,
}

/// Accounts of the update operation: the record, its on-chain address, and
/// the signer.
pub struct UpdateStats {
    pub dashboard: ValidatorDashboard,
    pub dashboard_key: Identity,
    pub authority: Identity,
}

/// Accounts of the threshold-change operation: the record and the signer.
pub struct SetThreshold {
    pub dashboard: ValidatorDashboard,
    pub authority: Identity,
}

/// The record that `update_validator_stats` leaves behind on success:
/// the four metric fields and the timestamp overwritten, authority and
/// threshold untouched.
pub open spec fn stats_written(
    d: ValidatorDashboard,
    uptime: u64,
    stake_amount: u64,
    commission: u8,
    rewards: u64,
    now: i64,
) -> ValidatorDashboard {
    ValidatorDashboard {
        uptime,
        stake_amount,
        commission,
        rewards,
        last_updated: now,
        ..d
    }
}

/// The record that `set_alert_threshold` leaves behind on success: only the
/// threshold overwritten.
pub open spec fn threshold_set(d: ValidatorDashboard, threshold: u64) -> ValidatorDashboard {
    ValidatorDashboard { alert_threshold: threshold, ..d }
}

/// Create the record: the signer becomes the immutable authority, the alert
/// threshold starts at its default, every metric field at zero.
pub fn initialize(ctx: &Initialize) -> (d: ValidatorDashboard)
    ensures
        d.authority == ctx.authority,
        d.alert_threshold == DEFAULT_ALERT_THRESHOLD,
        d.uptime == 0,
        d.stake_amount == 0,
        d.commission == 0,
        d.rewards == 0,
        d.last_updated == 0,
{
    ValidatorDashboard {
        authority: ctx.authority,
        uptime: 0,
        stake_amount: 0,
        commission: 0,
        rewards: 0,
        alert_threshold: DEFAULT_ALERT_THRESHOLD,
        last_updated: 0,
    }
}

/// Overwrite the reported metrics and the timestamp, provided the signer is
/// the record's authority. Returns the notification to emit: one exactly
/// when the submitted uptime is strictly below the stored threshold,
/// carrying the record's address, the submitted uptime and that threshold.
/// On an authorization failure nothing is modified.
pub fn update_validator_stats(
    ctx: &mut UpdateStats,
    uptime: u64,
    stake_amount: u64,
    commission: u8,
    rewards: u64,
    now: i64,
) -> (r: Result<Option<AlertTriggered>, DashboardError>)
    ensures
        r is Ok <==> old(ctx).authority.bytes@ == old(ctx).dashboard.authority.bytes@,
        r is Err ==> *final(ctx) == *old(ctx) && r == Err::<Option<AlertTriggered>, _>(
            DashboardError::Unauthorized,
        ),
        r is Ok ==> final(ctx).dashboard == stats_written(
            old(ctx).dashboard,
            uptime,
            stake_amount,
            commission,
            rewards,
            now,
        ),
        final(ctx).authority == old(ctx).authority,
        final(ctx).dashboard_key == old(ctx).dashboard_key,
        r is Ok && uptime < old(ctx).dashboard.alert_threshold ==> r == Ok::<_, DashboardError>(
            Some(
                AlertTriggered {
                    validator: old(ctx).dashboard_key,
                    uptime,
                    threshold: old(ctx).dashboard.alert_threshold,
                },
            ),
        ),
        r is Ok && uptime >= old(ctx).dashboard.alert_threshold ==> r == Ok::<_, DashboardError>(
            None::<AlertTriggered>,
        ),
{
    if !ctx.authority.equals(&ctx.dashboard.authority) {
        return Err(DashboardError::Unauthorized);
    }
    let threshold: u64 = ctx.dashboard.alert_threshold;
    ctx.dashboard.uptime = uptime;
    ctx.dashboard.stake_amount = stake_amount;
    ctx.dashboard.commission = commission;
    ctx.dashboard.rewards = rewards;
    ctx.dashboard.last_updated = now;
    if uptime < threshold {
        Ok(Some(AlertTriggered { validator: ctx.dashboard_key, uptime, threshold }))
    } else {
        Ok(None)
    }
}

/// Overwrite the alert threshold, provided the signer is the record's
/// authority; no bounds are imposed on the new value. On an authorization
/// failure nothing is modified.
pub fn set_alert_threshold(ctx: &mut SetThreshold, threshold: u64) -> (r: Result<
    (),
    DashboardError,
>)
    ensures
        r is Ok <==> old(ctx).authority.bytes@ == old(ctx).dashboard.authority.bytes@,
        r is Err ==> *final(ctx) == *old(ctx) && r == Err::<(), _>(DashboardError::Unauthorized),
        r is Ok ==> final(ctx).dashboard == threshold_set(old(ctx).dashboard, threshold),
        final(ctx).authority == old(ctx).authority,
{
    if !ctx.authority.equals(&ctx.dashboard.authority) {
        return Err(DashboardError::Unauthorized);
    }
    ctx.dashboard.alert_threshold = threshold;
    Ok(())
}

/// Setting the alert threshold twice with the same value leaves the record
/// identical to setting it once.
pub proof fn lemma_set_threshold_idempotent(d: ValidatorDashboard, threshold: u64)
    ensures
        threshold_set(threshold_set(d, threshold), threshold) == threshold_set(d, threshold),
{
}

} // verus!
