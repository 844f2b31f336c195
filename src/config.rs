use vstd::prelude::*;

verus! {

/// Balance (in Gwei) at or below which an active validator is ejected.
pub const EJECTION_BALANCE: u64 = 16_000_000_000;

/// Divisor applied to the active validator count to derive the churn limit.
pub const CHURN_LIMIT_QUOTIENT: u64 = 65536;

/// Floor of the per-epoch churn limit.
pub const MIN_PER_EPOCH_CHURN_LIMIT: u64 = 4;

/// Epochs of lookahead between an exit request and the earliest exit epoch.
pub const MAX_SEED_LOOKAHEAD: u64 = 4;

/// Score added per epoch to a non-participating validator.
pub const INACTIVITY_SCORE_BIAS: u64 = 4;

/// Score removed per epoch from every active validator outside a leak.
pub const INACTIVITY_SCORE_RECOVERY_RATE: u64 = 16;

/// Divisor of the inactivity penalty.
pub const INACTIVITY_PENALTY_QUOTIENT: u64 = 16777216;

/// The tunable constants of the epoch transition.
#[derive(Clone, Copy, Debug, PartialEq, Eq, Structural)]
pub struct Config {
    pub ejection_balance: u64,
    pub churn_limit_quotient: u64,
    pub min_per_epoch_churn_limit: u64,
    pub seed_lookahead: u64,
    pub inactivity_score_bias: u64,
    pub inactivity_score_recovery_rate: u64,
    pub inactivity_penalty_quotient: u64,
}

/// Why a configuration was rejected.
#[derive(Clone, Copy, Debug, PartialEq, Eq, Structural)]
pub enum ConfigError {
    /// The churn limit quotient is zero.
    ZeroChurnLimitQuotient,
    /// The churn limit floor is zero, so no exit could ever be scheduled.
    ZeroMinChurnLimit,
    /// The penalty denominator (bias times penalty quotient) is zero.
    ZeroPenaltyDenominator,
    /// The validator set would be empty.
    EmptyValidatorSet,
    /// The offline percentage is above 100 or leaves no participating slot.
    DegenerateOfflineFraction,
    /// The total stake does not fit in a `u64`.
    BalanceOverflow,
}

impl Config {
    /// Every divisor is nonzero and the churn limit is at least one.
    pub open spec fn wf(self) -> bool {
        &&& self.churn_limit_quotient > 0
        &&& self.min_per_epoch_churn_limit > 0
        &&& self.inactivity_score_bias > 0
        &&& self.inactivity_penalty_quotient > 0
    }

    /// The reference constant table.
    pub open spec fn mainnet_spec() -> Config {
        Config {
            ejection_balance: EJECTION_BALANCE,
            churn_limit_quotient: CHURN_LIMIT_QUOTIENT,
            min_per_epoch_churn_limit: MIN_PER_EPOCH_CHURN_LIMIT,
            seed_lookahead: MAX_SEED_LOOKAHEAD,
            inactivity_score_bias: INACTIVITY_SCORE_BIAS,
            inactivity_score_recovery_rate: INACTIVITY_SCORE_RECOVERY_RATE,
            inactivity_penalty_quotient: INACTIVITY_PENALTY_QUOTIENT,
        }
    }

    /// The first requirement that the configuration violates, if any.
    pub open spec fn validate_spec(self) -> Result<(), ConfigError> {
        if self.churn_limit_quotient == 0 {
            Err(ConfigError::ZeroChurnLimitQuotient)
        } else if self.min_per_epoch_churn_limit == 0 {
            Err(ConfigError::ZeroMinChurnLimit)
        } else if self.inactivity_score_bias == 0 || self.inactivity_penalty_quotient == 0 {
            Err(ConfigError::ZeroPenaltyDenominator)
        } else {
            Ok(())
        }
    }

    /// The reference constant table.
    pub fn mainnet() -> (r: Config)
        ensures
            r.wf(),
            r == Config::mainnet_spec(),
    {
        Config {
            ejection_balance: EJECTION_BALANCE,
            churn_limit_quotient: CHURN_LIMIT_QUOTIENT,
            min_per_epoch_churn_limit: MIN_PER_EPOCH_CHURN_LIMIT,
            seed_lookahead: MAX_SEED_LOOKAHEAD,
            inactivity_score_bias: INACTIVITY_SCORE_BIAS,
            inactivity_score_recovery_rate: INACTIVITY_SCORE_RECOVERY_RATE,
            inactivity_penalty_quotient: INACTIVITY_PENALTY_QUOTIENT,
        }
    }

    /// Checks the configuration, naming the first violated requirement.
    pub fn validate(&self) -> (r: Result<(), ConfigError>)
        ensures
            r is Ok <==> self.wf(),
            r == self.validate_spec(),
    {
        if self.churn_limit_quotient == 0 {
            Err(ConfigError::ZeroChurnLimitQuotient)
        } else if self.min_per_epoch_churn_limit == 0 {
            Err(ConfigError::ZeroMinChurnLimit)
        } else if self.inactivity_score_bias == 0 || self.inactivity_penalty_quotient == 0 {
            Err(ConfigError::ZeroPenaltyDenominator)
        } else {
            Ok(())
        }
    }
}

} // verus!
