use vstd::prelude::*;
use crate::config::Config;

verus! {

/// When a validator leaves the active set, if ever.
#[derive(Clone, Copy, Debug, PartialEq, Eq, Structural)]
pub enum ExitEpoch {
    NotScheduled,
    Scheduled(u64),
}

/// One validator's record: exit status, balance, inactivity score and
/// its (static) participation flag.
#[derive(Clone, Copy, Debug, PartialEq, Eq, Structural)]
pub struct Validator {
    pub exit_epoch: ExitEpoch,
    pub balance: u64,
    pub inactivity_score: u64,
    pub participating: bool,
}

/// The exit scheduler's cursor: the epoch exits are currently assigned to,
/// and how many validators were already batched into it.
#[derive(Clone, Copy, Debug, PartialEq, Eq, Structural)]
pub struct ExitQueue {
    pub epoch: u64,
    pub churn: u64,
}

/// A validator is active at `epoch` iff its exit is not scheduled at or before it.
pub open spec fn active_at(v: Validator, epoch: int) -> bool {
    match v.exit_epoch {
        ExitEpoch::NotScheduled => true,
        ExitEpoch::Scheduled(e) => epoch < e,
    }
}

/// Earliest epoch an exit requested at `epoch` may take effect.
pub open spec fn activation_exit_epoch(epoch: int, lookahead: int) -> int {
    epoch + 1 + lookahead
}

/// The cursor after assigning one more exit: roll forward to `min_exit`,
/// open a new batch when the current one holds `limit` exits, then count it.
pub open spec fn schedule_spec(q: ExitQueue, min_exit: u64, limit: u64) -> ExitQueue {
    let e = if q.epoch < min_exit { min_exit } else { q.epoch };
    let c = if q.epoch < min_exit { 0 } else { q.churn };
    if c >= limit {
        ExitQueue { epoch: (e + 1) as u64, churn: 1 }
    } else {
        ExitQueue { epoch: e, churn: (c + 1) as u64 }
    }
}

/// An exit request: a no-op for a validator already scheduled, otherwise the
/// validator takes the cursor's epoch after scheduling.
pub open spec fn exit_request_spec(q: ExitQueue, v: Validator, min_exit: u64, limit: u64) -> (
    ExitQueue,
    Validator,
) {
    if v.exit_epoch is Scheduled {
        (q, v)
    } else {
        let q2 = schedule_spec(q, min_exit, limit);
        (q2, Validator { exit_epoch: ExitEpoch::Scheduled(q2.epoch), ..v })
    }
}

/// A score after one epoch: participation lowers it by one (floored at zero),
/// absence raises it by the bias (saturating); outside a leak it then decays
/// by the recovery rate, floored at zero.
pub open spec fn updated_score_spec(cfg: Config, score: u64, participating: bool, leak: bool) -> u64 {
    let s1: int = if participating {
        if score > 0 { score - 1 } else { 0 }
    } else {
        if score + cfg.inactivity_score_bias > u64::MAX { u64::MAX as int } else { score + cfg.inactivity_score_bias }
    };
    if !leak {
        if s1 >= cfg.inactivity_score_recovery_rate { (s1 - cfg.inactivity_score_recovery_rate) as u64 } else { 0 }
    } else {
        s1 as u64
    }
}

/// The inactivity penalty: `balance * score / (bias * penalty_quotient)`, floored.
pub open spec fn penalty_spec(cfg: Config, balance: u64, score: u64) -> int {
    (balance * score) / (cfg.inactivity_score_bias * cfg.inactivity_penalty_quotient)
}

/// A balance after the penalty: unchanged for a participant, otherwise reduced
/// by the penalty, saturating at zero.
pub open spec fn penalized_balance_spec(cfg: Config, balance: u64, score: u64, participating: bool) -> u64 {
    if participating {
        balance
    } else if penalty_spec(cfg, balance, score) >= balance {
        0
    } else {
        (balance - penalty_spec(cfg, balance, score)) as u64
    }
}

/// The epoch before `epoch`, or zero.
pub open spec fn previous_epoch(epoch: u64) -> u64 {
    if epoch == 0 { 0 } else { (epoch - 1) as u64 }
}

/// Inactivity update then penalty, for a validator active in the previous epoch.
pub open spec fn accounted_spec(cfg: Config, leak: bool, v: Validator) -> Validator {
    let s = updated_score_spec(cfg, v.inactivity_score, v.participating, leak);
    Validator {
        inactivity_score: s,
        balance: penalized_balance_spec(cfg, v.balance, s, v.participating),
        ..v
    }
}

/// One validator's share of an epoch transition, in this order: inactivity
/// update and penalty (when it was active in the previous epoch), then the
/// ejection check against the current epoch using the post-penalty balance.
pub open spec fn process_validator_spec(
    cfg: Config,
    epoch: u64,
    leak: bool,
    limit: u64,
    q: ExitQueue,
    v: Validator,
) -> (ExitQueue, Validator) {
    let v1 = if active_at(v, previous_epoch(epoch) as int) { accounted_spec(cfg, leak, v) } else { v };
    if active_at(v1, epoch as int) && v1.balance <= cfg.ejection_balance {
        exit_request_spec(q, v1, (epoch + 1 + cfg.seed_lookahead) as u64, limit)
    } else {
        (q, v1)
    }
}

impl Validator {
    /// A fresh validator: not exiting, score zero.
    pub fn new(participating: bool, balance: u64) -> (r: Validator)
        ensures
            r == (Validator { exit_epoch: ExitEpoch::NotScheduled, balance, inactivity_score: 0, participating }),
    {
        Validator { exit_epoch: ExitEpoch::NotScheduled, balance, inactivity_score: 0, participating }
    }

    pub fn is_active_validator(&self, epoch: u64) -> (r: bool)
        ensures
            r == active_at(*self, epoch as int),
    {
        match self.exit_epoch {
            ExitEpoch::NotScheduled => true,
            ExitEpoch::Scheduled(e) => epoch < e,
        }
    }
}

pub fn compute_activation_exit_epoch(epoch: u64, lookahead: u64) -> (r: u64)
    requires
        activation_exit_epoch(epoch as int, lookahead as int) <= u64::MAX,
    ensures
        r == activation_exit_epoch(epoch as int, lookahead as int),
{
    epoch + 1 + lookahead
}

impl ExitQueue {
    /// Assigns one exit and returns the epoch it lands in.
    pub fn schedule(&mut self, min_exit: u64, limit: u64) -> (r: u64)
        requires
            (if old(self).epoch < min_exit { min_exit } else { old(self).epoch }) < u64::MAX,
        ensures
            *final(self) == schedule_spec(*old(self), min_exit, limit),
            r == final(self).epoch,
            final(self).epoch >= min_exit,
            final(self).epoch >= old(self).epoch,
            final(self).epoch <= (if old(self).epoch < min_exit { min_exit } else { old(self).epoch }) + 1,
    {
        if self.epoch < min_exit {
            self.epoch = min_exit;
            self.churn = 0;
        }
        if self.churn >= limit {
            self.epoch = self.epoch + 1;
            self.churn = 0;
        }
        self.churn = self.churn + 1;
        self.epoch
    }
}

/// Requests an exit for `v`; idempotent once the exit is scheduled.
pub fn initiate_exit(queue: &mut ExitQueue, v: Validator, min_exit: u64, limit: u64) -> (r: Validator)
    requires
        (if old(queue).epoch < min_exit { min_exit } else { old(queue).epoch }) < u64::MAX,
    ensures
        (*final(queue), r) == exit_request_spec(*old(queue), v, min_exit, limit),
        final(queue).epoch >= old(queue).epoch,
        final(queue).epoch <= (if old(queue).epoch < min_exit { min_exit } else { old(queue).epoch }) + 1,
{
    match v.exit_epoch {
        ExitEpoch::Scheduled(_) => v,
        ExitEpoch::NotScheduled => {
            let e = queue.schedule(min_exit, limit);
            Validator { exit_epoch: ExitEpoch::Scheduled(e), ..v }
        },
    }
}

/// The inactivity update of one validator.
pub fn process_inactivity_updates_single_pass(cfg: &Config, leak: bool, v: Validator) -> (r: Validator)
    ensures
        r == (Validator { inactivity_score: updated_score_spec(*cfg, v.inactivity_score, v.participating, leak), ..v }),
{
    let mut s: u64 = v.inactivity_score;
    if v.participating {
        if s > 0 {
            s = s - 1;
        }
    } else {
        s = s.saturating_add(cfg.inactivity_score_bias);
    }
    if !leak {
        s = s.saturating_sub(cfg.inactivity_score_recovery_rate);
    }
    Validator { inactivity_score: s, ..v }
}

/// The inactivity penalty of one validator, from its current score.
pub fn process_rewards_and_penalties_single_pass(cfg: &Config, v: Validator) -> (r: Validator)
    requires
        cfg.wf(),
    ensures
        r == (Validator { balance: penalized_balance_spec(*cfg, v.balance, v.inactivity_score, v.participating), ..v }),
        r.balance <= v.balance,
{
    if v.participating {
        return v;
    }
    let b = v.balance as u128;
    let s = v.inactivity_score as u128;
    let bias = cfg.inactivity_score_bias as u128;
    let quot = cfg.inactivity_penalty_quotient as u128;
    proof {
        assert(bias * quot <= u64::MAX * u64::MAX) by (nonlinear_arith)
            requires bias <= u64::MAX, quot <= u64::MAX;
    }
    let d = bias * quot;
    proof {
        assert(b * s <= u64::MAX * u64::MAX) by (nonlinear_arith)
            requires b <= u64::MAX, s <= u64::MAX;
        assert(d > 0) by (nonlinear_arith)
            requires d == cfg.inactivity_score_bias * cfg.inactivity_penalty_quotient,
                cfg.inactivity_score_bias > 0, cfg.inactivity_penalty_quotient > 0;
    }
    let penalty = (b * s) / d;
    let nb: u64 = if penalty >= b { 0 } else { (b - penalty) as u64 };
    Validator { balance: nb, ..v }
}

/// The ejection check: an active validator at or below the ejection balance
/// is asked to exit.
pub fn process_registry_updates_single_pass(
    cfg: &Config,
    epoch: u64,
    limit: u64,
    queue: &mut ExitQueue,
    v: Validator,
) -> (r: Validator)
    requires
        epoch + 1 + cfg.seed_lookahead < u64::MAX,
        old(queue).epoch < u64::MAX,
    ensures
        (*final(queue), r) == (if active_at(v, epoch as int) && v.balance <= cfg.ejection_balance {
            exit_request_spec(*old(queue), v, (epoch + 1 + cfg.seed_lookahead) as u64, limit)
        } else {
            (*old(queue), v)
        }),
        final(queue).epoch >= old(queue).epoch,
        final(queue).epoch <= (if old(queue).epoch < epoch + 1 + cfg.seed_lookahead {
            epoch + 1 + cfg.seed_lookahead
        } else {
            old(queue).epoch as int
        }) + 1,
{
    if v.is_active_validator(epoch) && v.balance <= cfg.ejection_balance {
        let min_exit = compute_activation_exit_epoch(epoch, cfg.seed_lookahead);
        initiate_exit(queue, v, min_exit, limit)
    } else {
        v
    }
}

/// One validator's whole share of the epoch transition.
pub fn process_validator(
    cfg: &Config,
    epoch: u64,
    leak: bool,
    limit: u64,
    queue: &mut ExitQueue,
    v: Validator,
) -> (r: Validator)
    requires
        cfg.wf(),
        epoch + 1 + cfg.seed_lookahead < u64::MAX,
        old(queue).epoch < u64::MAX,
    ensures
        (*final(queue), r) == process_validator_spec(*cfg, epoch, leak, limit, *old(queue), v),
        r.balance <= v.balance,
        r.participating == v.participating,
        active_at(r, previous_epoch(epoch) as int) == active_at(v, previous_epoch(epoch) as int),
        final(queue).epoch >= old(queue).epoch,
        final(queue).epoch <= (if old(queue).epoch < epoch + 1 + cfg.seed_lookahead {
            epoch + 1 + cfg.seed_lookahead
        } else {
            old(queue).epoch as int
        }) + 1,
{
    let prev = epoch.saturating_sub(1);
    let mut v1 = v;
    if v.is_active_validator(prev) {
        v1 = process_inactivity_updates_single_pass(cfg, leak, v1);
        v1 = process_rewards_and_penalties_single_pass(cfg, v1);
    }
    process_registry_updates_single_pass(cfg, epoch, limit, queue, v1)
}

} // verus!
