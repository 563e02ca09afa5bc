//! Health metrics derived from a vote-account snapshot.
//!
//! The remote data source returns, on request, the full current-and-delinquent
//! validator set; performing that remote call is input at the edge and lives
//! outside the verified library. The monitor here holds the parsed target
//! identity, locates the target's record in a snapshot handed to it as plain
//! values, and derives the metrics.
//!
//! Percentages are kept exact: where the metrics are ratios (uptime, APR),
//! the record holds the integer ingredients and the accessors return exact
//! numerator/denominator pairs rather than rounded quotients.
//!
//! Records are matched against the target by the canonical base58 text form
//! of the identity, as the data source reports it: a record whose key text
//! is not in canonical form does not match, even if it would decode to the
//! target's bytes.

use vstd::prelude::*;

use crate::identity::Identity;
use crate::identity::base58_of_pubkey;
use crate::identity::encode_pubkey;
use crate::identity::parse_pubkey;
use crate::identity::pubkey_from_base58;

verus! {

/// Number of epoch-credit entries a fully participating validator is
/// expected to report; the denominator of the uptime approximation.
pub const EXPECTED_EPOCH_CREDIT_ENTRIES: u64 = 432;

/// Uptime alert threshold of the monitor loop, in whole percentage points.
pub const MONITOR_ALERT_THRESHOLD: u64 = 95;

/// Seconds the monitor loop waits between one snapshot and the next.
pub const POLL_INTERVAL_SECS: u64 = 60;

/// One epoch-credit entry of a vote account: the epoch, the cumulative
/// credits at its end, and the cumulative credits at the end of the
/// previous epoch.
#[derive(Clone, Copy, Debug, PartialEq, Eq, Structural)]
pub struct EpochCredit {
    pub epoch: u64,
    pub credits: u64,
    pub prev_credits: u64,
}

/// The fields of one vote-account record that the metrics are derived from.
#[derive(Debug)]
pub struct VoteAccountInfo {
    /// Node identity of the validator, in the base58 text form the data
    /// source reports.
    pub node_pubkey: String,
    pub activated_stake: u64,
    pub commission: u8,
    pub epoch_credits: Vec<EpochCredit>,
}

/// A validator-set snapshot: the records of all current and all delinquent
/// validators, as returned by one request to the data source.
#[derive(Debug)]
pub struct VoteAccountStatus {
    pub current: Vec<VoteAccountInfo>,
    pub delinquent: Vec<VoteAccountInfo>,
}

/// Health metrics of one validator, recomputed from each snapshot.
///
/// `uptime_percent_ratio` and `apr_ratio` return the two derived
/// percentages exactly, as ratios over these integer ingredients.
#[derive(Clone, Copy, Debug, PartialEq, Eq, Structural)]
pub struct ValidatorStats {
    /// Number of epoch-credit entries reported for the validator; the
    /// numerator ingredient of the uptime approximation.
    pub epoch_credit_count: u64,
    /// Raw activated stake, as reported.
    pub stake_amount: u64,
    /// Commission in percentage points.
    pub commission: u8,
    /// Sum of all reported epoch-credit values; wide enough to hold the
    /// exact sum of any snapshot's entries.
    pub rewards: u128,
}

/// An error of the monitor.
#[derive(Clone, Copy, Debug, PartialEq, Eq)]
pub enum MonitorError {
    /// The configured validator identity does not parse as a public key.
    Configuration,
    /// The target identity appears in neither the current nor the
    /// delinquent list of the snapshot.
    NotFound,
}

/// Sum of the credit values of a sequence of epoch-credit entries.
pub open spec fn credits_sum(ecs: Seq<EpochCredit>) -> int
    decreases ecs.len(),
{
    if ecs.len() == 0 {
        0
    } else {
        credits_sum(ecs.drop_last()) + ecs.last().credits
    }
}

/// The first record of `list` whose node identity equals `target`, if any.
pub open spec fn first_match(list: Seq<VoteAccountInfo>, target: Seq<char>) -> Option<
    VoteAccountInfo,
>
    decreases list.len(),
{
    if list.len() == 0 {
        None
    } else if list[0].node_pubkey@ == target {
        Some(list[0])
    } else {
        first_match(list.subrange(1, list.len() as int), target)
    }
}

/// The record the monitor reads for `target` in a snapshot: the first match
/// in the current list, and only if the current list has none, the first
/// match in the delinquent list.
pub open spec fn located(s: VoteAccountStatus, target: Seq<char>) -> Option<VoteAccountInfo> {
    match first_match(s.current@, target) {
        Some(v) => Some(v),
        None => first_match(s.delinquent@, target),
    }
}

/// The metrics derived from one vote-account record.
pub open spec fn stats_of(v: VoteAccountInfo) -> ValidatorStats {
    ValidatorStats {
        epoch_credit_count: v.epoch_credits@.len() as u64,
        stake_amount: v.activated_stake,
        commission: v.commission,
        rewards: credits_sum(v.epoch_credits@) as u128,
    }
}

impl ValidatorStats {
    /// Uptime in percent, exactly, as the ratio `r.0 / r.1`:
    /// (epoch-credit count / 432) × 100.
    pub fn uptime_percent_ratio(&self) -> (r: (u128, u64))
        ensures
            r.0 == self.epoch_credit_count * 100,
            r.1 == EXPECTED_EPOCH_CREDIT_ENTRIES,
    {
        ((self.epoch_credit_count as u128) * 100, EXPECTED_EPOCH_CREDIT_ENTRIES)
    }

    /// Whether the uptime percentage is strictly below `threshold` whole
    /// percent: count·100/432 < threshold, compared exactly as
    /// count·100 < threshold·432.
    pub fn uptime_below(&self, threshold: u64) -> (r: bool)
        ensures
            r == ((self.epoch_credit_count as int) * 100 < (threshold as int) * (
            EXPECTED_EPOCH_CREDIT_ENTRIES as int)),
    {
        (self.epoch_credit_count as u128) * 100 < (threshold as u128) * (
        EXPECTED_EPOCH_CREDIT_ENTRIES as u128)
    }

    /// The monitor loop's alert decision: uptime strictly below the fixed
    /// alert threshold.
    pub fn alert_due(&self) -> (r: bool)
        ensures
            r == ((self.epoch_credit_count as int) * 100 < (MONITOR_ALERT_THRESHOLD as int) * (
            EXPECTED_EPOCH_CREDIT_ENTRIES as int)),
    {
        self.uptime_below(MONITOR_ALERT_THRESHOLD)
    }

    /// APR, exactly, as the ratio `r.0 / r.1`: (rewards / stake) × 365 × 100.
    /// Undefined when the activated stake is zero: then no ratio is
    /// returned, rather than a division by zero.
    pub fn apr_ratio(&self) -> (r: Option<(u128, u128)>)
        requires
            self.rewards <= u128::MAX / 36500,
        ensures
            self.stake_amount == 0 ==> r is None,
            self.stake_amount != 0 ==> r == Some(
                ((self.rewards * 36500) as u128, self.stake_amount as u128),
            ),
    {
        if self.stake_amount == 0 {
            None
        } else {
            Some((self.rewards * 36500, self.stake_amount as u128))
        }
    }
}

/// `first_match` is unchanged by dropping a prefix known to contain no match.
proof fn lemma_first_match_skip(list: Seq<VoteAccountInfo>, target: Seq<char>, i: int)
    requires
        0 <= i <= list.len(),
        forall|j: int| 0 <= j < i ==> list[j].node_pubkey@ != target,
    ensures
        first_match(list, target) == first_match(list.subrange(i, list.len() as int), target),
    decreases i,
{
    if i > 0 {
        assert(list[0].node_pubkey@ != target);
        let tail = list.subrange(1, list.len() as int);
        lemma_first_match_skip(tail, target, i - 1);
        assert(tail.subrange(i - 1, tail.len() as int) =~= list.subrange(i, list.len() as int));
    } else {
        assert(list.subrange(0, list.len() as int) =~= list);
    }
}

/// Index of the first record of `list` whose node identity equals `target`.
fn find_in(list: &Vec<VoteAccountInfo>, target: &String) -> (r: Option<usize>)
    ensures
        r is Some <==> first_match(list@, target@) is Some,
        r matches Some(i) ==> i < list@.len() && first_match(list@, target@) == Some(
            list@[i as int],
        ),
{
    let mut i: usize = 0;
    while i < list.len()
        invariant
            i <= list@.len(),
            forall|j: int| 0 <= j < i ==> list@[j].node_pubkey@ != target@,
        decreases list@.len() - i,
    {
        if list[i].node_pubkey == *target {
            proof {
                lemma_first_match_skip(list@, target@, i as int);
                let tail = list@.subrange(i as int, list@.len() as int);
                assert(tail[0] == list@[i as int]);
            }
            return Some(i);
        }
        i = i + 1;
    }
    proof {
        lemma_first_match_skip(list@, target@, list@.len() as int);
        assert(list@.subrange(list@.len() as int, list@.len() as int).len() == 0);
    }
    None
}

/// The metrics of one vote-account record: the entry count, the reported
/// stake and commission, and the exact sum of the credit values.
fn derive_stats(v: &VoteAccountInfo) -> (r: ValidatorStats)
    ensures
        r == stats_of(*v),
{
    let mut sum: u128 = 0;
    let mut i: usize = 0;
    while i < v.epoch_credits.len()
        invariant
            i <= v.epoch_credits@.len(),
            sum == credits_sum(v.epoch_credits@.subrange(0, i as int)),
            sum <= (i as int) * (u64::MAX as int),
        decreases v.epoch_credits@.len() - i,
    {
        let c: u64 = v.epoch_credits[i].credits;
        proof {
            assert(sum + c <= ((i + 1) as int) * (u64::MAX as int)) by (nonlinear_arith)
                requires
                    sum <= (i as int) * (u64::MAX as int),
                    c <= u64::MAX,
            ;
            assert(((i + 1) as int) * (u64::MAX as int) < u128::MAX) by (nonlinear_arith)
                requires
                    i + 1 <= usize::MAX as int + 1,
                    usize::MAX as int + 1 <= 0x1_0000_0000_0000_0000,
            ;
            let pre = v.epoch_credits@.subrange(0, i as int);
            let post = v.epoch_credits@.subrange(0, i as int + 1);
            assert(post.drop_last() =~= pre);
            assert(post.last() == v.epoch_credits@[i as int]);
        }
        sum = sum + c as u128;
        i = i + 1;
    }
    proof {
        assert(v.epoch_credits@.subrange(0, v.epoch_credits@.len() as int) =~= v.epoch_credits@);
    }
    ValidatorStats {
        epoch_credit_count: v.epoch_credits.len() as u64,
        stake_amount: v.activated_stake,
        commission: v.commission,
        rewards: sum,
    }
}

/// The monitor: the parsed identity of the validator being watched. The
/// handle to the remote data source stays outside the library; each tick
/// hands the monitor the snapshot that the source returned.
#[derive(Clone, Copy, Debug, PartialEq, Eq)]
pub struct ValidatorMonitor {
    pub validator_pubkey: Identity,
}

impl ValidatorMonitor {
    /// The base58 text form of the target identity, against which the
    /// snapshot's records are matched.
    pub open spec fn target_key(self) -> Seq<char> {
        base58_of_pubkey(self.validator_pubkey.bytes@)
    }

    /// Construct a monitor for the validator named by `validator_pubkey`,
    /// failing exactly when the string does not parse as a public key.
    pub fn new(validator_pubkey: &str) -> (r: Result<ValidatorMonitor, MonitorError>)
        ensures
            r is Ok <==> pubkey_from_base58(validator_pubkey@) is Some,
            r matches Ok(m) ==> Some(m.validator_pubkey.bytes@) == pubkey_from_base58(
                validator_pubkey@,
            ),
            r is Err ==> r == Err::<ValidatorMonitor, _>(MonitorError::Configuration),
    {
        match parse_pubkey(validator_pubkey) {
            Some(id) => Ok(ValidatorMonitor { validator_pubkey: id }),
            None => Err(MonitorError::Configuration),
        }
    }

    /// Derive the target validator's metrics from a snapshot: locate the
    /// target's record — in the current list first, then the delinquent
    /// list — and compute the metrics from it; fail exactly when the target
    /// appears in neither list.
    pub fn fetch_validator_stats(&self, snapshot: &VoteAccountStatus) -> (r: Result<
        ValidatorStats,
        MonitorError,
    >)
        ensures
            r is Ok <==> located(*snapshot, self.target_key()) is Some,
            r matches Ok(stats) ==> stats == stats_of(
                located(*snapshot, self.target_key()).unwrap(),
            ),
            r is Err ==> r == Err::<ValidatorStats, _>(MonitorError::NotFound),
    {
        let target: String = encode_pubkey(&self.validator_pubkey);
        match find_in(&snapshot.current, &target) {
            Some(i) => Ok(derive_stats(&snapshot.current[i])),
            None => match find_in(&snapshot.delinquent, &target) {
                Some(i) => Ok(derive_stats(&snapshot.delinquent[i])),
                None => Err(MonitorError::NotFound),
            },
        }
    }
}

/// When the target appears in the current list, the current-list record is
/// the one used, whatever the delinquent list holds.
pub proof fn lemma_current_takes_precedence(s: VoteAccountStatus, target: Seq<char>)
    requires
        first_match(s.current@, target) is Some,
    ensures
        located(s, target) == first_match(s.current@, target),
{
}

} // verus!
