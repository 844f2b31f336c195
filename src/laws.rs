use vstd::prelude::*;
use crate::config::Config;
use crate::state::pass_spec;
use crate::validator::{
    accounted_spec, active_at, exit_request_spec, previous_epoch, schedule_spec, updated_score_spec, ExitQueue,
    Validator,
};

verus! {

/// The score of a participating validator after `k` leak-free epochs.
pub open spec fn recovered_score(cfg: Config, score: u64, k: nat) -> u64
    decreases k,
{
    if k == 0 { score } else { recovered_score(cfg, updated_score_spec(cfg, score, true, false), (k - 1) as nat) }
}

/// Assigning an exit never leaves more than `limit` exits in the cursor's batch.
pub proof fn lemma_schedule_within_churn_limit(q: ExitQueue, min_exit: u64, limit: u64)
    requires
        limit >= 1,
    ensures
        schedule_spec(q, min_exit, limit).churn <= limit,
{
}

/// Over a whole epoch pass, starting from a batch within the limit, the
/// exit cursor's batch stays within the churn limit.
pub proof fn lemma_pass_within_churn_limit(
    cfg: Config,
    epoch: u64,
    leak: bool,
    limit: u64,
    q: ExitQueue,
    vs: Seq<Validator>,
    k: nat,
)
    requires
        limit >= 1,
        q.churn <= limit,
        k <= vs.len(),
    ensures
        pass_spec(cfg, epoch, leak, limit, q, vs, k).0.churn <= limit,
    decreases k,
{
    if k > 0 {
        lemma_pass_within_churn_limit(cfg, epoch, leak, limit, q, vs, (k - 1) as nat);
    }
}

/// A second exit request for the same validator, at any later point, leaves
/// both the validator and the exit cursor unchanged.
pub proof fn lemma_exit_request_idempotent(
    q: ExitQueue,
    v: Validator,
    min_exit: u64,
    limit: u64,
    later_min_exit: u64,
    later_limit: u64,
)
    ensures
        ({
            let first = exit_request_spec(q, v, min_exit, limit);
            let second = exit_request_spec(first.0, first.1, later_min_exit, later_limit);
            &&& second == first
            &&& first.1.exit_epoch is Scheduled
        }),
{
}

/// Assigning an exit never moves the cursor backwards (nor past the
/// following epoch of its base).
pub proof fn lemma_schedule_monotonic(q: ExitQueue, min_exit: u64, limit: u64)
    requires
        (if q.epoch < min_exit { min_exit } else { q.epoch }) < u64::MAX,
    ensures
        schedule_spec(q, min_exit, limit).epoch >= q.epoch,
        schedule_spec(q, min_exit, limit).epoch >= min_exit,
{
}

/// Over an epoch pass the exit cursor is non-decreasing, and advances by at
/// most one epoch per validator beyond its base.
pub proof fn lemma_pass_monotonic(
    cfg: Config,
    epoch: u64,
    leak: bool,
    limit: u64,
    q: ExitQueue,
    vs: Seq<Validator>,
    k: nat,
)
    requires
        k <= vs.len(),
        epoch + 1 + cfg.seed_lookahead < u64::MAX,
        (if q.epoch < epoch + 1 + cfg.seed_lookahead { epoch + 1 + cfg.seed_lookahead } else { q.epoch as int }) + k
            < u64::MAX,
    ensures
        pass_spec(cfg, epoch, leak, limit, q, vs, k).0.epoch >= q.epoch,
        pass_spec(cfg, epoch, leak, limit, q, vs, k).0.epoch <= (if q.epoch < epoch + 1 + cfg.seed_lookahead {
            epoch + 1 + cfg.seed_lookahead
        } else {
            q.epoch as int
        }) + k,
    decreases k,
{
    if k > 0 {
        lemma_pass_monotonic(cfg, epoch, leak, limit, q, vs, (k - 1) as nat);
    }
}

/// Outside a leak, a participating validator's score reaches zero within
/// `k` epochs whenever `k * recovery_rate >= score`, i.e. after
/// `ceil(score / recovery_rate)` epochs.
pub proof fn lemma_recovery_converges(cfg: Config, score: u64, k: nat)
    requires
        k * cfg.inactivity_score_recovery_rate >= score,
    ensures
        recovered_score(cfg, score, k) == 0,
    decreases k,
{
    if k > 0 {
        let next = updated_score_spec(cfg, score, true, false);
        let r = cfg.inactivity_score_recovery_rate;
        assert((k - 1) * r == k * r - r) by (nonlinear_arith);
        assert(next <= if score >= r { score - r } else { 0 });
        lemma_recovery_converges(cfg, next, (k - 1) as nat);
    } else {
        assert(k * cfg.inactivity_score_recovery_rate == 0) by (nonlinear_arith)
            requires k == 0;
    }
}

/// A pass over `k` validators yields `k` records.
pub proof fn lemma_pass_len(
    cfg: Config,
    epoch: u64,
    leak: bool,
    limit: u64,
    q: ExitQueue,
    vs: Seq<Validator>,
    k: nat,
)
    ensures
        pass_spec(cfg, epoch, leak, limit, q, vs, k).1.len() == k,
    decreases k,
{
    if k > 0 {
        lemma_pass_len(cfg, epoch, leak, limit, q, vs, (k - 1) as nat);
    }
}

/// In a pass, each validator's score, balance and participation depend on
/// its own record alone: the inactivity update and penalty when it was active
/// in the previous epoch, nothing otherwise.
pub proof fn lemma_pass_accounts_each(
    cfg: Config,
    epoch: u64,
    leak: bool,
    limit: u64,
    q: ExitQueue,
    vs: Seq<Validator>,
    k: nat,
    i: int,
)
    requires
        0 <= i < k <= vs.len(),
    ensures
        ({
            let r = pass_spec(cfg, epoch, leak, limit, q, vs, k).1[i];
            let a = if active_at(vs[i], previous_epoch(epoch) as int) { accounted_spec(cfg, leak, vs[i]) } else { vs[i] };
            &&& r.inactivity_score == a.inactivity_score
            &&& r.balance == a.balance
            &&& r.participating == vs[i].participating
        }),
    decreases k,
{
    lemma_pass_len(cfg, epoch, leak, limit, q, vs, (k - 1) as nat);
    if i < k - 1 {
        lemma_pass_accounts_each(cfg, epoch, leak, limit, q, vs, (k - 1) as nat, i);
    }
}

/// Outside a leak, an epoch pass moves the score of every participating
/// validator that was active in the previous epoch one recovery step towards
/// zero; with `lemma_recovery_converges`, such a score reaches zero within
/// `ceil(score / recovery_rate)` leak-free epochs.
pub proof fn lemma_pass_recovery_step(
    cfg: Config,
    epoch: u64,
    limit: u64,
    q: ExitQueue,
    vs: Seq<Validator>,
    i: int,
)
    requires
        0 <= i < vs.len(),
        vs[i].participating,
        active_at(vs[i], previous_epoch(epoch) as int),
    ensures
        pass_spec(cfg, epoch, false, limit, q, vs, vs.len()).1[i].inactivity_score == recovered_score(
            cfg,
            vs[i].inactivity_score,
            1,
        ),
{
    lemma_pass_accounts_each(cfg, epoch, false, limit, q, vs, vs.len(), i);
    assert(recovered_score(cfg, updated_score_spec(cfg, vs[i].inactivity_score, true, false), 0)
        == updated_score_spec(cfg, vs[i].inactivity_score, true, false));
}

} // verus!
