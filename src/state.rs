use vstd::prelude::*;
use crate::config::{Config, ConfigError};
use crate::laws::lemma_pass_within_churn_limit;
use crate::validator::{
    active_at, compute_activation_exit_epoch, exit_request_spec, initiate_exit, process_validator,
    process_validator_spec, previous_epoch, ExitEpoch, ExitQueue, Validator,
};

verus! {

/// Sum of all balances.
pub open spec fn total_balance(vs: Seq<Validator>) -> nat
    decreases vs.len(),
{
    if vs.len() == 0 { 0 } else { total_balance(vs.drop_last()) + vs.last().balance as nat }
}

/// Number of validators active at `epoch`.
pub open spec fn count_active(vs: Seq<Validator>, epoch: int) -> nat
    decreases vs.len(),
{
    if vs.len() == 0 {
        0
    } else {
        count_active(vs.drop_last(), epoch) + if active_at(vs.last(), epoch) { 1nat } else { 0nat }
    }
}

/// Sum of the balances of validators active at `epoch`.
pub open spec fn active_balance_of(vs: Seq<Validator>, epoch: int) -> nat
    decreases vs.len(),
{
    if vs.len() == 0 {
        0
    } else {
        active_balance_of(vs.drop_last(), epoch) + if active_at(vs.last(), epoch) { vs.last().balance as nat } else { 0nat }
    }
}

/// Sum of the balances of participating validators active at `epoch`.
pub open spec fn active_participating_balance_of(vs: Seq<Validator>, epoch: int) -> nat
    decreases vs.len(),
{
    if vs.len() == 0 {
        0
    } else {
        active_participating_balance_of(vs.drop_last(), epoch) + if active_at(vs.last(), epoch) && vs.last().participating {
            vs.last().balance as nat
        } else {
            0nat
        }
    }
}

/// Largest inactivity score among validators active at `epoch` (zero if none).
pub open spec fn max_active_score_of(vs: Seq<Validator>, epoch: int) -> nat
    decreases vs.len(),
{
    if vs.len() == 0 {
        0
    } else {
        let m = max_active_score_of(vs.drop_last(), epoch);
        if active_at(vs.last(), epoch) && vs.last().inactivity_score > m { vs.last().inactivity_score as nat } else { m }
    }
}

/// Number of participating validators.
pub open spec fn count_participating(vs: Seq<Validator>) -> nat
    decreases vs.len(),
{
    if vs.len() == 0 {
        0
    } else {
        count_participating(vs.drop_last()) + if vs.last().participating { 1nat } else { 0nat }
    }
}

/// Leak test on the previous epoch's aggregates: participating stake below
/// two thirds of active stake (never true with no active stake).
pub open spec fn in_leak_spec(active_participating_balance: u64, active_balance: u64) -> bool {
    3 * active_participating_balance < 2 * active_balance
}

/// `max(min_per_epoch_churn_limit, active_count / churn_limit_quotient)`.
pub open spec fn churn_limit_spec(cfg: Config, active_count: u64) -> u64 {
    let q = (active_count / cfg.churn_limit_quotient) as u64;
    if cfg.min_per_epoch_churn_limit >= q { cfg.min_per_epoch_churn_limit } else { q }
}

/// The fused pass over the first `k` validators: the exit cursor threaded
/// through them in index order, and the processed records.
pub open spec fn pass_spec(
    cfg: Config,
    epoch: u64,
    leak: bool,
    limit: u64,
    q: ExitQueue,
    vs: Seq<Validator>,
    k: nat,
) -> (ExitQueue, Seq<Validator>)
    decreases k,
{
    if k == 0 {
        (q, Seq::empty())
    } else {
        let prior = pass_spec(cfg, epoch, leak, limit, q, vs, (k - 1) as nat);
        let step = process_validator_spec(cfg, epoch, leak, limit, prior.0, vs[k - 1]);
        (step.0, prior.1.push(step.1))
    }
}

/// Registry of validators with the previous epoch's aggregates and the exit
/// scheduler's cursor.
pub struct State {
    pub config: Config,
    pub epoch: u64,
    pub validators: Vec<Validator>,
    pub participating_count: u64,
    pub exit_queue: ExitQueue,
    pub active_count_prev_epoch: u64,
    pub active_balance: u64,
    pub active_participating_balance: u64,
    pub max_active_inactivity_score: u64,
}

impl State {
    /// The registry's invariant: a valid configuration, total stake that fits
    /// a `u64`, and aggregates bounded as the definitions imply.
    pub open spec fn wf(&self) -> bool {
        &&& self.config.wf()
        &&& total_balance(self.validators@) <= u64::MAX
        &&& self.active_participating_balance <= self.active_balance
        &&& self.active_balance <= total_balance(self.validators@)
        &&& self.active_count_prev_epoch <= self.validators@.len()
        &&& self.participating_count <= self.validators@.len()
    }

    /// An empty registry with the reference constants.
    pub fn new() -> (r: State)
        ensures
            r.wf(),
            r.config == Config::mainnet_spec(),
            r.epoch == 0,
            r.validators@.len() == 0,
            r.exit_queue == (ExitQueue { epoch: 0, churn: 0 }),
            r.active_count_prev_epoch == 0,
            r.active_balance == 0,
            r.active_participating_balance == 0,
            r.max_active_inactivity_score == 0,
            r.participating_count == 0,
    {
        State::empty(Config::mainnet())
    }

    fn empty(config: Config) -> (r: State)
        requires
            config.wf(),
        ensures
            r.wf(),
            r.config == config,
            r.epoch == 0,
            r.validators@.len() == 0,
            r.exit_queue == (ExitQueue { epoch: 0, churn: 0 }),
            r.active_count_prev_epoch == 0,
            r.active_balance == 0,
            r.active_participating_balance == 0,
            r.max_active_inactivity_score == 0,
            r.participating_count == 0,
    {
        State {
            config,
            epoch: 0,
            validators: Vec::new(),
            participating_count: 0,
            exit_queue: ExitQueue { epoch: 0, churn: 0 },
            active_count_prev_epoch: 0,
            active_balance: 0,
            active_participating_balance: 0,
            max_active_inactivity_score: 0,
        }
    }

    /// An empty registry with the given constants, rejected when invalid.
    pub fn with_config(config: Config) -> (r: Result<State, ConfigError>)
        ensures
            r is Ok <==> config.wf(),
            r matches Ok(s) ==> s.wf() && s.config == config && s.epoch == 0 && s.validators@.len() == 0
                && s.exit_queue == (ExitQueue { epoch: 0, churn: 0 }) && s.active_count_prev_epoch == 0
                && s.active_balance == 0 && s.active_participating_balance == 0
                && s.max_active_inactivity_score == 0 && s.participating_count == 0,
            r matches Err(e) ==> config.validate_spec() == Err::<(), ConfigError>(e),
    {
        match config.validate() {
            Ok(()) => Ok(State::empty(config)),
            Err(e) => Err(e),
        }
    }

    /// Appends a validator and folds it into the bootstrap aggregates.
    pub fn add_validator(&mut self, participating: bool, initial_balance: u64)
        requires
            old(self).wf(),
            total_balance(old(self).validators@) + initial_balance <= u64::MAX,
            old(self).validators@.len() < usize::MAX,
        ensures
            final(self).wf(),
            final(self).validators@ == old(self).validators@.push(Validator {
                exit_epoch: ExitEpoch::NotScheduled,
                balance: initial_balance,
                inactivity_score: 0,
                participating,
            }),
            final(self).active_balance == old(self).active_balance + initial_balance,
            final(self).active_count_prev_epoch == old(self).active_count_prev_epoch + 1,
            final(self).active_participating_balance == old(self).active_participating_balance
                + if participating { initial_balance } else { 0 },
            final(self).participating_count == old(self).participating_count + if participating { 1int } else { 0int },
            final(self).config == old(self).config,
            final(self).epoch == old(self).epoch,
            final(self).exit_queue == old(self).exit_queue,
            final(self).max_active_inactivity_score == old(self).max_active_inactivity_score,
    {
        let ghost before = self.validators@;
        self.validators.push(Validator::new(participating, initial_balance));
        proof {
            assert(self.validators@.drop_last() =~= before);
        }
        self.active_balance = self.active_balance + initial_balance;
        self.active_count_prev_epoch = self.active_count_prev_epoch + 1;
        if participating {
            self.participating_count = self.participating_count + 1;
            self.active_participating_balance = self.active_participating_balance + initial_balance;
        }
    }

    pub fn is_participating(&self, index: usize) -> (r: bool)
        requires
            index < self.validators@.len(),
        ensures
            r == self.validators@[index as int].participating,
    {
        self.validators[index].participating
    }

    pub fn is_in_inactivity_leak(&self) -> (r: bool)
        ensures
            r == in_leak_spec(self.active_participating_balance, self.active_balance),
    {
        3u128 * (self.active_participating_balance as u128) < 2u128 * (self.active_balance as u128)
    }

    pub fn get_validator_churn_limit(&self) -> (r: u64)
        requires
            self.config.wf(),
        ensures
            r == churn_limit_spec(self.config, self.active_count_prev_epoch),
            r >= 1,
    {
        let q = self.active_count_prev_epoch / self.config.churn_limit_quotient;
        if self.config.min_per_epoch_churn_limit >= q { self.config.min_per_epoch_churn_limit } else { q }
    }

    /// Schedules the exit of validator `index`; a no-op when already scheduled.
    pub fn initiate_validator_exit(&mut self, index: usize)
        requires
            old(self).wf(),
            index < old(self).validators@.len(),
            old(self).epoch + 1 + old(self).config.seed_lookahead < u64::MAX,
            old(self).exit_queue.epoch < u64::MAX,
        ensures
            final(self).wf(),
            ({
                let step = exit_request_spec(
                    old(self).exit_queue,
                    old(self).validators@[index as int],
                    (old(self).epoch + 1 + old(self).config.seed_lookahead) as u64,
                    churn_limit_spec(old(self).config, old(self).active_count_prev_epoch),
                );
                &&& final(self).exit_queue == step.0
                &&& final(self).validators@ == old(self).validators@.update(index as int, step.1)
            }),
            old(self).validators@[index as int].exit_epoch is NotScheduled ==> final(self).exit_queue.churn
                <= churn_limit_spec(old(self).config, old(self).active_count_prev_epoch),
            final(self).exit_queue.epoch >= old(self).exit_queue.epoch,
            final(self).config == old(self).config,
            final(self).epoch == old(self).epoch,
            final(self).active_count_prev_epoch == old(self).active_count_prev_epoch,
            final(self).active_balance == old(self).active_balance,
            final(self).active_participating_balance == old(self).active_participating_balance,
            final(self).max_active_inactivity_score == old(self).max_active_inactivity_score,
            final(self).participating_count == old(self).participating_count,
    {
        let limit = self.get_validator_churn_limit();
        let min_exit = compute_activation_exit_epoch(self.epoch, self.config.seed_lookahead);
        let v = self.validators[index];
        let mut q = self.exit_queue;
        let nv = initiate_exit(&mut q, v, min_exit, limit);
        self.exit_queue = q;
        self.validators.set(index, nv);
        proof {
            lemma_total_balance_update(old(self).validators@, index as int, nv);
        }
    }
}

/// The larger of the exit cursor and the earliest exit epoch of `epoch`.
pub open spec fn queue_base(s: State) -> int {
    let m = s.epoch + 1 + s.config.seed_lookahead;
    if s.exit_queue.epoch < m { m } else { s.exit_queue.epoch as int }
}

/// One epoch transition. Validators are visited once, in index order; each
/// gets its inactivity update and penalty (when active in the previous
/// epoch), then the ejection check on its post-penalty balance, which may
/// advance the shared exit cursor. The aggregates are then recomputed over
/// the validators active in the previous epoch and the epoch advances.
pub fn process_epoch_single_pass(state: &mut State)
    requires
        old(state).wf(),
        queue_base(*old(state)) + old(state).validators@.len() < u64::MAX,
    ensures
        final(state).wf(),
        ({
            let p = pass_spec(
                old(state).config,
                old(state).epoch,
                in_leak_spec(old(state).active_participating_balance, old(state).active_balance),
                churn_limit_spec(old(state).config, old(state).active_count_prev_epoch),
                old(state).exit_queue,
                old(state).validators@,
                old(state).validators@.len(),
            );
            &&& final(state).exit_queue == p.0
            &&& final(state).validators@ == p.1
        }),
        final(state).validators@.len() == old(state).validators@.len(),
        final(state).epoch == old(state).epoch + 1,
        final(state).active_count_prev_epoch == count_active(final(state).validators@, previous_epoch(old(state).epoch) as int),
        final(state).active_balance == active_balance_of(final(state).validators@, previous_epoch(old(state).epoch) as int),
        final(state).active_participating_balance
            == active_participating_balance_of(final(state).validators@, previous_epoch(old(state).epoch) as int),
        final(state).max_active_inactivity_score
            == max_active_score_of(final(state).validators@, previous_epoch(old(state).epoch) as int),
        final(state).exit_queue.epoch >= old(state).exit_queue.epoch,
        old(state).exit_queue.churn <= churn_limit_spec(old(state).config, old(state).active_count_prev_epoch)
            ==> final(state).exit_queue.churn <= churn_limit_spec(old(state).config, old(state).active_count_prev_epoch),
        final(state).config == old(state).config,
        final(state).participating_count == old(state).participating_count,
{
    let leak = state.is_in_inactivity_leak();
    let limit = state.get_validator_churn_limit();
    let epoch = state.epoch;
    let prev = epoch.saturating_sub(1);
    let cfg = state.config;
    let n = state.validators.len();
    let ghost vs = old(state).validators@;
    let ghost base = queue_base(*old(state));
    let mut queue = state.exit_queue;
    let mut next: Vec<Validator> = Vec::new();
    let mut count: u64 = 0;
    let mut ab: u64 = 0;
    let mut apb: u64 = 0;
    let mut max_score: u64 = 0;
    let mut i: usize = 0;
    proof {
        lemma_total_balance_prefix(vs, 0);
    }
    while i < n
        invariant
            *state == *old(state),
            vs == state.validators@,
            n == vs.len(),
            cfg == state.config,
            epoch == state.epoch,
            prev == previous_epoch(epoch),
            cfg.wf(),
            leak == in_leak_spec(state.active_participating_balance, state.active_balance),
            limit == churn_limit_spec(cfg, state.active_count_prev_epoch),
            base == queue_base(*state),
            base + n < u64::MAX,
            total_balance(vs) <= u64::MAX,
            i <= n,
            next@.len() == i,
            (queue, next@) == pass_spec(cfg, epoch, leak, limit, state.exit_queue, vs, i as nat),
            count == count_active(next@, prev as int),
            ab == active_balance_of(next@, prev as int),
            apb == active_participating_balance_of(next@, prev as int),
            max_score == max_active_score_of(next@, prev as int),
            count <= i,
            apb <= ab,
            ab <= total_balance(next@),
            total_balance(next@) <= total_balance(vs.take(i as int)),
            queue.epoch >= state.exit_queue.epoch,
            queue.epoch <= base + i,
        decreases n - i,
    {
        let v = state.validators[i];
        let ghost before = next@;
        let nv = process_validator(&cfg, epoch, leak, limit, &mut queue, v);
        next.push(nv);
        proof {
            assert(next@.drop_last() =~= before);
            assert(vs.take(i + 1).drop_last() =~= vs.take(i as int));
            lemma_total_balance_prefix(vs, i + 1);
        }
        if nv.is_active_validator(prev) {
            count = count + 1;
            ab = ab + nv.balance;
            if nv.participating {
                apb = apb + nv.balance;
            }
            if nv.inactivity_score > max_score {
                max_score = nv.inactivity_score;
            }
        }
        i = i + 1;
    }
    proof {
        assert(vs.take(n as int) =~= vs);
        if state.exit_queue.churn <= limit {
            lemma_pass_within_churn_limit(cfg, epoch, leak, limit, state.exit_queue, vs, n as nat);
        }
    }
    state.validators = next;
    state.exit_queue = queue;
    state.epoch = epoch + 1;
    state.active_count_prev_epoch = count;
    state.active_balance = ab;
    state.active_participating_balance = apb;
    state.max_active_inactivity_score = max_score;
}

/// A prefix's total never exceeds the whole's.
proof fn lemma_total_balance_prefix(vs: Seq<Validator>, i: int)
    requires
        0 <= i <= vs.len(),
    ensures
        total_balance(vs.take(i)) <= total_balance(vs),
    decreases vs.len(),
{
    if i == vs.len() {
        assert(vs.take(i) =~= vs);
    } else {
        assert(vs.drop_last().take(i) =~= vs.take(i));
        lemma_total_balance_prefix(vs.drop_last(), i);
    }
}

/// Index of the first non-participating validator when `n` validators are
/// populated with `offline_percent` percent offline.
pub open spec fn non_participant_start(n: nat, offline_percent: nat) -> nat {
    (((100 - offline_percent) * n) / 100) as nat
}

/// Why a population request is rejected, if it is, in order of checking.
pub open spec fn bootstrap_error(config: Config, n: nat, initial_balance: u64, offline_percent: u64) -> Option<
    ConfigError,
> {
    if config.validate_spec() is Err {
        Some(config.validate_spec()->Err_0)
    } else if n == 0 {
        Some(ConfigError::EmptyValidatorSet)
    } else if offline_percent > 100 || non_participant_start(n, offline_percent as nat) == 0 {
        Some(ConfigError::DegenerateOfflineFraction)
    } else if (n + 1) * initial_balance > u64::MAX {
        Some(ConfigError::BalanceOverflow)
    } else {
        None
    }
}

impl State {
    /// Populates a registry: one leading participating validator and then `n`
    /// more, all with `initial_balance`; validators from index
    /// `non_participant_start(n, offline_percent)` on are offline. Returns the
    /// registry and that index.
    pub fn bootstrap(config: Config, n: usize, initial_balance: u64, offline_percent: u64) -> (r: Result<
        (State, usize),
        ConfigError,
    >)
        requires
            n < usize::MAX,
        ensures
            bootstrap_error(config, n as nat, initial_balance, offline_percent) matches Some(e) ==> r == Err::<
                (State, usize),
                ConfigError,
            >(e),
            bootstrap_error(config, n as nat, initial_balance, offline_percent) is None ==> (r matches Ok(
                out,
            ) && ({
                let s = out.0;
                let start = non_participant_start(n as nat, offline_percent as nat);
                &&& out.1 == start
                &&& s.wf()
                &&& s.config == config
                &&& s.epoch == 0
                &&& s.exit_queue == (ExitQueue { epoch: 0, churn: 0 })
                &&& s.validators@.len() == n + 1
                &&& forall|i: int|
                    0 <= i <= n ==> #[trigger] s.validators@[i] == (Validator {
                        exit_epoch: ExitEpoch::NotScheduled,
                        balance: initial_balance,
                        inactivity_score: 0,
                        participating: i < start,
                    })
                &&& s.active_count_prev_epoch == n + 1
                &&& s.active_balance == (n + 1) * initial_balance
                &&& s.active_participating_balance == start * initial_balance
                &&& s.participating_count == start
                &&& s.max_active_inactivity_score == 0
            })),
    {
        let mut s = match State::with_config(config) {
            Ok(s) => s,
            Err(e) => return Err(e),
        };
        if n == 0 {
            return Err(ConfigError::EmptyValidatorSet);
        }
        if offline_percent > 100 {
            return Err(ConfigError::DegenerateOfflineFraction);
        }
        let online = (100 - offline_percent) as u128;
        proof {
            assert(online * (n as u128) <= 100 * (n as u128)) by (nonlinear_arith)
                requires online <= 100;
            assert((online * (n as u128)) / 100 <= n) by (nonlinear_arith)
                requires online <= 100;
        }
        let start = ((online * (n as u128)) / 100) as usize;
        if start == 0 {
            return Err(ConfigError::DegenerateOfflineFraction);
        }
        let count = n as u128 + 1;
        let b = initial_balance as u128;
        proof {
            assert(count * b <= (u64::MAX as u128 + 1) * (u64::MAX as u128)) by (nonlinear_arith)
                requires count <= u64::MAX as u128 + 1, b <= u64::MAX;
        }
        if count * b > u64::MAX as u128 {
            return Err(ConfigError::BalanceOverflow);
        }
        let ghost total: int = (n + 1) * initial_balance;
        s.add_validator(true, initial_balance);
        proof {
            assert(s.validators@.drop_last() =~= Seq::<Validator>::empty());
            assert(total_balance(s.validators@.drop_last()) == 0);
            assert((0 + 1) * initial_balance == initial_balance) by (nonlinear_arith);
            assert(1 * initial_balance == initial_balance) by (nonlinear_arith);
        }
        let mut i: usize = 0;
        while i < n
            invariant
                s.wf(),
                s.config == config,
                s.epoch == 0,
                s.exit_queue == (ExitQueue { epoch: 0, churn: 0 }),
                s.max_active_inactivity_score == 0,
                n < usize::MAX,
                1 <= start <= n,
                start == non_participant_start(n as nat, offline_percent as nat),
                total == (n + 1) * initial_balance,
                total <= u64::MAX,
                i <= n,
                s.validators@.len() == i + 1,
                forall|j: int|
                    0 <= j <= i ==> #[trigger] s.validators@[j] == (Validator {
                        exit_epoch: ExitEpoch::NotScheduled,
                        balance: initial_balance,
                        inactivity_score: 0,
                        participating: j < start,
                    }),
                total_balance(s.validators@) == (i + 1) * initial_balance,
                s.active_count_prev_epoch == i + 1,
                s.active_balance == (i + 1) * initial_balance,
                s.participating_count == (if i + 1 < start { i + 1 } else { start as int }),
                s.active_participating_balance == (if i + 1 < start { i + 1 } else { start as int })
                    * initial_balance,
            decreases n - i,
        {
            proof {
                assert((i + 2) * initial_balance == (i + 1) * initial_balance + initial_balance)
                    by (nonlinear_arith);
                assert((i + 2) * initial_balance <= (n + 1) * initial_balance) by (nonlinear_arith)
                    requires i + 1 <= n;
                assert((i + 1) * initial_balance + initial_balance == (i + 2) * initial_balance)
                    by (nonlinear_arith);
            }
            let ghost before = s.validators@;
            s.add_validator(i + 1 < start, initial_balance);
            proof {
                assert(s.validators@.drop_last() =~= before);
            }
            i = i + 1;
        }
        Ok((s, start))
    }

    /// The balances, by validator index.
    pub fn balances(&self) -> (r: Vec<u64>)
        ensures
            r@.len() == self.validators@.len(),
            forall|i: int| 0 <= i < r@.len() ==> r@[i] == #[trigger] self.validators@[i].balance,
    {
        let mut r: Vec<u64> = Vec::new();
        let mut i: usize = 0;
        while i < self.validators.len()
            invariant
                i <= self.validators@.len(),
                r@.len() == i,
                forall|j: int| 0 <= j < i ==> r@[j] == #[trigger] self.validators@[j].balance,
            decreases self.validators@.len() - i,
        {
            r.push(self.validators[i].balance);
            i = i + 1;
        }
        r
    }

    /// The inactivity scores, by validator index.
    pub fn inactivity_scores(&self) -> (r: Vec<u64>)
        ensures
            r@.len() == self.validators@.len(),
            forall|i: int| 0 <= i < r@.len() ==> r@[i] == #[trigger] self.validators@[i].inactivity_score,
    {
        let mut r: Vec<u64> = Vec::new();
        let mut i: usize = 0;
        while i < self.validators.len()
            invariant
                i <= self.validators@.len(),
                r@.len() == i,
                forall|j: int| 0 <= j < i ==> r@[j] == #[trigger] self.validators@[j].inactivity_score,
            decreases self.validators@.len() - i,
        {
            r.push(self.validators[i].inactivity_score);
            i = i + 1;
        }
        r
    }

    /// Finality has recovered and no active validator carries a score: the
    /// point at which a simulation run stops.
    pub fn is_converged(&self) -> (r: bool)
        ensures
            r == (!in_leak_spec(self.active_participating_balance, self.active_balance)
                && self.max_active_inactivity_score == 0),
    {
        !self.is_in_inactivity_leak() && self.max_active_inactivity_score == 0
    }
}

/// Replacing a record by one of the same balance keeps the total.
proof fn lemma_total_balance_update(vs: Seq<Validator>, i: int, v: Validator)
    requires
        0 <= i < vs.len(),
        v.balance == vs[i].balance,
    ensures
        total_balance(vs.update(i, v)) == total_balance(vs),
    decreases vs.len(),
{
    let u = vs.update(i, v);
    if i == vs.len() - 1 {
        assert(u.drop_last() =~= vs.drop_last());
    } else {
        assert(u.drop_last() =~= vs.drop_last().update(i, v));
        lemma_total_balance_update(vs.drop_last(), i, v);
    }
}

} // verus!
