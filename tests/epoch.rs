use leak_sim::config::{Config, ConfigError, EJECTION_BALANCE};
use leak_sim::state::{process_epoch_single_pass, State};
use leak_sim::validator::{
    compute_activation_exit_epoch, process_inactivity_updates_single_pass,
    process_rewards_and_penalties_single_pass, ExitEpoch, ExitQueue, Validator,
};

const BALANCE: u64 = 32_000_000_000;

#[test]
fn single_participating_validator_never_leaks() {
    let mut s = State::new();
    s.add_validator(true, BALANCE);
    for _ in 0..20 {
        assert!(!s.is_in_inactivity_leak());
        process_epoch_single_pass(&mut s);
        assert_eq!(s.validators[0].inactivity_score, 0);
        assert_eq!(s.validators[0].balance, BALANCE);
    }
    assert!(!s.is_in_inactivity_leak());
    assert_eq!(s.epoch, 20);
    assert!(s.is_converged());
}

#[test]
fn forty_percent_offline_enters_leak() {
    let mut s = State::new();
    for i in 0..10 {
        s.add_validator(i < 6, BALANCE);
    }
    process_epoch_single_pass(&mut s);
    assert_eq!(s.epoch, 1);
    assert!(s.is_in_inactivity_leak());
    for i in 0..6 {
        assert_eq!(s.validators[i].inactivity_score, 0);
        assert_eq!(s.validators[i].balance, BALANCE);
    }
    for i in 6..10 {
        assert_eq!(s.validators[i].inactivity_score, 4);
        // 32e9 * 4 / (4 * 16777216) = 1907
        assert_eq!(s.validators[i].balance, BALANCE - 1907);
    }
    assert_eq!(s.active_count_prev_epoch, 10);
    assert_eq!(s.active_balance, 10 * BALANCE - 4 * 1907);
    assert_eq!(s.active_participating_balance, 6 * BALANCE);
    assert_eq!(s.max_active_inactivity_score, 4);
    assert!(!s.is_converged());
}

#[test]
fn ejection_at_exact_threshold_schedules_once() {
    let mut s = State::new();
    s.add_validator(true, EJECTION_BALANCE);
    process_epoch_single_pass(&mut s);
    assert_eq!(s.validators[0].exit_epoch, ExitEpoch::Scheduled(5));
    assert_eq!(s.exit_queue, ExitQueue { epoch: 5, churn: 1 });
    for _ in 0..3 {
        process_epoch_single_pass(&mut s);
        assert_eq!(s.validators[0].exit_epoch, ExitEpoch::Scheduled(5));
        assert_eq!(s.exit_queue, ExitQueue { epoch: 5, churn: 1 });
    }
}

#[test]
fn balance_above_threshold_is_not_ejected() {
    let mut s = State::new();
    s.add_validator(true, EJECTION_BALANCE + 1);
    process_epoch_single_pass(&mut s);
    assert_eq!(s.validators[0].exit_epoch, ExitEpoch::NotScheduled);
    assert_eq!(s.exit_queue, ExitQueue { epoch: 0, churn: 0 });
}

#[test]
fn ten_exits_batch_four_four_two() {
    let mut s = State::new();
    for _ in 0..10 {
        s.add_validator(true, EJECTION_BALANCE);
    }
    assert_eq!(s.get_validator_churn_limit(), 4);
    process_epoch_single_pass(&mut s);
    let expected = [5u64, 5, 5, 5, 6, 6, 6, 6, 7, 7];
    for i in 0..10 {
        assert_eq!(s.validators[i].exit_epoch, ExitEpoch::Scheduled(expected[i]));
    }
    assert_eq!(s.exit_queue, ExitQueue { epoch: 7, churn: 2 });
}

#[test]
fn exited_validators_leave_the_aggregates() {
    let mut s = State::new();
    s.add_validator(true, EJECTION_BALANCE);
    s.add_validator(true, BALANCE);
    for _ in 0..6 {
        process_epoch_single_pass(&mut s);
    }
    // exit at epoch 5: active at previous epoch 4, gone at previous epoch 5
    assert_eq!(s.active_count_prev_epoch, 2);
    process_epoch_single_pass(&mut s);
    assert_eq!(s.active_count_prev_epoch, 1);
    assert_eq!(s.active_balance, BALANCE);
    assert_eq!(s.active_participating_balance, BALANCE);
}

#[test]
fn initiate_exit_twice_is_idempotent() {
    let mut s = State::new();
    s.add_validator(true, BALANCE);
    s.add_validator(true, BALANCE);
    s.initiate_validator_exit(0);
    assert_eq!(s.validators[0].exit_epoch, ExitEpoch::Scheduled(5));
    let queue = s.exit_queue;
    s.initiate_validator_exit(0);
    assert_eq!(s.validators[0].exit_epoch, ExitEpoch::Scheduled(5));
    assert_eq!(s.exit_queue, queue);
    assert_eq!(s.validators[1].exit_epoch, ExitEpoch::NotScheduled);
}

#[test]
fn exit_queue_epoch_never_decreases() {
    let mut s = State::new();
    for _ in 0..12 {
        s.add_validator(true, BALANCE);
    }
    let mut last = s.exit_queue.epoch;
    for i in 0..12 {
        s.initiate_validator_exit(i);
        assert!(s.exit_queue.epoch >= last);
        assert!(s.exit_queue.churn <= s.get_validator_churn_limit());
        last = s.exit_queue.epoch;
    }
    assert_eq!(s.exit_queue, ExitQueue { epoch: 7, churn: 4 });
    process_epoch_single_pass(&mut s);
    assert!(s.exit_queue.epoch >= last);
}

#[test]
fn exit_cursor_rolls_forward_to_min_exit_epoch() {
    let mut s = State::new();
    s.add_validator(true, BALANCE);
    s.add_validator(true, BALANCE);
    s.initiate_validator_exit(0);
    for _ in 0..3 {
        process_epoch_single_pass(&mut s);
    }
    assert_eq!(s.epoch, 3);
    s.initiate_validator_exit(1);
    assert_eq!(compute_activation_exit_epoch(3, 4), 8);
    assert_eq!(s.validators[1].exit_epoch, ExitEpoch::Scheduled(8));
    assert_eq!(s.exit_queue, ExitQueue { epoch: 8, churn: 1 });
}

#[test]
fn churn_limit_scales_with_active_count() {
    let mut s = State::new();
    assert_eq!(s.get_validator_churn_limit(), 4);
    s.active_count_prev_epoch = 65536 * 5;
    assert_eq!(s.get_validator_churn_limit(), 5);
    s.active_count_prev_epoch = 65536 * 4 + 65535;
    assert_eq!(s.get_validator_churn_limit(), 4);
}

#[test]
fn scores_recover_within_ceiling_of_score_over_rate() {
    let mut s = State::new();
    s.add_validator(true, BALANCE);
    s.validators[0].inactivity_score = 40;
    s.max_active_inactivity_score = 40;
    process_epoch_single_pass(&mut s);
    assert_eq!(s.validators[0].inactivity_score, 23);
    process_epoch_single_pass(&mut s);
    assert_eq!(s.validators[0].inactivity_score, 6);
    assert!(!s.is_converged());
    process_epoch_single_pass(&mut s);
    assert_eq!(s.validators[0].inactivity_score, 0);
    assert!(s.is_converged());
}

#[test]
fn empty_registry_is_not_in_leak() {
    let s = State::new();
    assert_eq!(s.active_balance, 0);
    assert!(!s.is_in_inactivity_leak());
}

#[test]
fn leak_threshold_is_strictly_below_two_thirds() {
    let mut s = State::new();
    s.add_validator(true, 200);
    s.add_validator(false, 100);
    assert!(!s.is_in_inactivity_leak());
    s.add_validator(false, 1);
    assert!(s.is_in_inactivity_leak());
}

#[test]
fn inactivity_update_rules() {
    let cfg = Config::mainnet();
    let v = Validator::new(false, BALANCE);
    let r = process_inactivity_updates_single_pass(&cfg, true, v);
    assert_eq!(r.inactivity_score, 4);
    let r = process_inactivity_updates_single_pass(&cfg, false, v);
    assert_eq!(r.inactivity_score, 0);
    let p = Validator { inactivity_score: 30, ..Validator::new(true, BALANCE) };
    assert_eq!(process_inactivity_updates_single_pass(&cfg, true, p).inactivity_score, 29);
    assert_eq!(process_inactivity_updates_single_pass(&cfg, false, p).inactivity_score, 13);
    let z = Validator::new(true, BALANCE);
    assert_eq!(process_inactivity_updates_single_pass(&cfg, true, z).inactivity_score, 0);
    let top = Validator { inactivity_score: u64::MAX, ..v };
    assert_eq!(process_inactivity_updates_single_pass(&cfg, true, top).inactivity_score, u64::MAX);
}

#[test]
fn penalty_formula_and_saturation() {
    let cfg = Config::mainnet();
    let v = Validator { inactivity_score: 4, ..Validator::new(false, BALANCE) };
    assert_eq!(process_rewards_and_penalties_single_pass(&cfg, v).balance, BALANCE - 1907);
    let p = Validator { inactivity_score: 4, ..Validator::new(true, BALANCE) };
    assert_eq!(process_rewards_and_penalties_single_pass(&cfg, p).balance, BALANCE);
    let huge = Validator { inactivity_score: u64::MAX, ..Validator::new(false, 10) };
    assert_eq!(process_rewards_and_penalties_single_pass(&cfg, huge).balance, 0);
}

#[test]
fn config_validation_errors() {
    let good = Config::mainnet();
    assert_eq!(good.validate(), Ok(()));
    let c = Config { churn_limit_quotient: 0, ..good };
    assert_eq!(c.validate(), Err(ConfigError::ZeroChurnLimitQuotient));
    let c = Config { min_per_epoch_churn_limit: 0, ..good };
    assert_eq!(c.validate(), Err(ConfigError::ZeroMinChurnLimit));
    let c = Config { inactivity_penalty_quotient: 0, ..good };
    assert_eq!(c.validate(), Err(ConfigError::ZeroPenaltyDenominator));
    assert!(State::with_config(c).is_err());
    assert!(State::with_config(good).is_ok());
}

#[test]
fn overridden_constants_take_effect() {
    let cfg = Config { min_per_epoch_churn_limit: 2, seed_lookahead: 1, ..Config::mainnet() };
    let mut s = State::with_config(cfg).unwrap();
    for _ in 0..3 {
        s.add_validator(true, EJECTION_BALANCE);
    }
    process_epoch_single_pass(&mut s);
    assert_eq!(s.validators[0].exit_epoch, ExitEpoch::Scheduled(2));
    assert_eq!(s.validators[1].exit_epoch, ExitEpoch::Scheduled(2));
    assert_eq!(s.validators[2].exit_epoch, ExitEpoch::Scheduled(3));
}
