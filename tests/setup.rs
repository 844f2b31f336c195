use leak_sim::config::{Config, ConfigError};
use leak_sim::state::State;
use leak_sim::stats::{compute_min_max_sum, Stats};
use leak_sim::validator::ExitEpoch;

#[test]
fn bootstrap_marks_the_offline_slice() {
    let (s, start) = State::bootstrap(Config::mainnet(), 10, 32_000_000_000, 40).unwrap();
    assert_eq!(start, 6);
    assert_eq!(s.validators.len(), 11);
    for i in 0..11 {
        assert_eq!(s.validators[i].participating, i < 6);
        assert_eq!(s.validators[i].exit_epoch, ExitEpoch::NotScheduled);
        assert_eq!(s.validators[i].balance, 32_000_000_000);
    }
    assert_eq!(s.active_count_prev_epoch, 11);
    assert_eq!(s.active_balance, 11 * 32_000_000_000);
    assert_eq!(s.active_participating_balance, 6 * 32_000_000_000);
    assert_eq!(s.participating_count, 6);
}

#[test]
fn bootstrap_rejects_bad_input() {
    let cfg = Config::mainnet();
    assert_eq!(State::bootstrap(cfg, 0, 1, 40).err(), Some(ConfigError::EmptyValidatorSet));
    assert_eq!(State::bootstrap(cfg, 10, 1, 101).err(), Some(ConfigError::DegenerateOfflineFraction));
    assert_eq!(State::bootstrap(cfg, 10, 1, 100).err(), Some(ConfigError::DegenerateOfflineFraction));
    assert_eq!(State::bootstrap(cfg, 1, u64::MAX, 0).err(), Some(ConfigError::BalanceOverflow));
    let bad = Config { churn_limit_quotient: 0, ..cfg };
    assert_eq!(State::bootstrap(bad, 10, 1, 40).err(), Some(ConfigError::ZeroChurnLimitQuotient));
}

#[test]
fn bootstrap_with_nobody_offline_keeps_one_trailing_offline_validator() {
    let (s, start) = State::bootstrap(Config::mainnet(), 4, 5, 0).unwrap();
    assert_eq!(start, 4);
    assert!(!s.validators[4].participating);
    let balances = s.balances();
    assert_eq!(balances.len(), 5);
    assert_eq!(compute_min_max_sum(&balances[start..]), Some(Stats { min: 5, max: 5, sum: 5, count: 1 }));
    assert_eq!(compute_min_max_sum(&balances[5..]), None);
    assert_eq!(s.inactivity_scores(), vec![0, 0, 0, 0, 0]);
}

#[test]
fn stats_of_values() {
    assert_eq!(compute_min_max_sum(&[]), None);
    assert_eq!(
        compute_min_max_sum(&[3, 1, 2]),
        Some(Stats { min: 1, max: 3, sum: 6, count: 3 })
    );
    assert_eq!(
        compute_min_max_sum(&[u64::MAX, u64::MAX]),
        Some(Stats { min: u64::MAX, max: u64::MAX, sum: 2 * (u64::MAX as u128), count: 2 })
    );
    assert_eq!(compute_min_max_sum(&[7]), Some(Stats { min: 7, max: 7, sum: 7, count: 1 }));
}
