use reward_simulator::types::config::Config;
use reward_simulator::types::probability::Probability;
use reward_simulator::types::state::Aggregate;
use reward_simulator::types::state::State;
use reward_simulator::types::validator::Validator;

fn config(initial_stake: u64) -> Config {
    Config::new(
        "epoch",
        "",
        "csv",
        10,
        initial_stake,
        10_000_000,
        &vec![Probability::certain()],
        Probability::certain(),
    )
    .unwrap()
}

fn state_of(validators: Vec<Validator>) -> State {
    let mut state = State::new(config(500_000));
    state.validators = validators;
    state
}

fn sample() -> State {
    state_of(vec![
        Validator { balance: 10, effective_balance: 7, is_active: true, is_slashed: false },
        Validator { balance: 20, effective_balance: 11, is_active: true, is_slashed: true },
        Validator { balance: 5, effective_balance: 13, is_active: false, is_slashed: false },
        Validator { balance: 40, effective_balance: 17, is_active: false, is_slashed: true },
        Validator { balance: 30, effective_balance: 19, is_active: true, is_slashed: false },
    ])
}

#[test]
fn new_state_holds_one_validator_for_each_maximum_effective_balance() {
    let state = State::new(config(500_000));
    assert_eq!(15_625, state.validators.len());
    for validator in state.validators.iter() {
        assert_eq!(
            Validator {
                balance: 32_000_000_000,
                effective_balance: 32_000_000_000,
                is_active: true,
                is_slashed: false
            },
            *validator
        );
    }
    assert_eq!(500_000_000_000_000, state.config.total_at_stake_initial);
}

#[test]
fn new_state_rounds_the_number_of_validators_down() {
    // 500,031 units of stake hold 15,625 times 32, and 31 more
    let state = State::new(config(500_031));
    assert_eq!(15_625, state.validators.len());
    let state = State::new(config(500_032));
    assert_eq!(15_626, state.validators.len());
}

#[test]
fn totals_of_a_new_state() {
    let state = State::new(config(500_000));
    assert_eq!(500_000_000_000_000, state.get_total_staked_balance());
    assert_eq!(500_000_000_000_000, state.get_total_active_balance());
    assert_eq!(500_000_000_000_000, state.get_matching_balance());
    assert_eq!(15_625, state.get_total_active_validators());
    assert_eq!(15_625, state.get_eligible_validators());
    assert_eq!(32_000_000_000, state.get_max_balance());
    assert_eq!(32_000_000_000, state.get_min_balance());
}

#[test]
fn totals_follow_the_flags() {
    let state = sample();
    assert_eq!(105, state.get_total_staked_balance());
    assert_eq!(7 + 11 + 19, state.get_total_active_balance());
    assert_eq!(7 + 19, state.get_matching_balance());
    assert_eq!(3, state.get_total_active_validators());
    assert_eq!(2, state.get_eligible_validators());
    assert_eq!(40, state.get_max_balance());
    assert_eq!(5, state.get_min_balance());
    assert_eq!(vec![0, 4], state.eligible_indices());
}

#[test]
fn totals_of_a_state_without_validators() {
    let state = state_of(vec![]);
    assert_eq!(0, state.get_total_staked_balance());
    assert_eq!(0, state.get_total_active_balance());
    assert_eq!(0, state.get_matching_balance());
    assert_eq!(0, state.get_total_active_validators());
    assert_eq!(0, state.get_max_balance());
    assert_eq!(u64::MAX, state.get_min_balance());
    assert_eq!(Vec::<usize>::new(), state.eligible_indices());
}

#[test]
fn checked_totals_report_what_exceeds_64_bits() {
    let rich = Validator {
        balance: u64::MAX,
        effective_balance: u64::MAX - 1,
        is_active: true,
        is_slashed: true,
    };
    let poor = Validator { balance: 1, effective_balance: 1, is_active: true, is_slashed: false };
    let state = state_of(vec![rich, poor]);
    assert_eq!(None, state.checked_total(Aggregate::StakedBalance));
    assert_eq!(Some(u64::MAX), state.checked_total(Aggregate::ActiveBalance));
    assert_eq!(Some(1), state.checked_total(Aggregate::MatchingBalance));
    assert_eq!(Some(2), state.checked_total(Aggregate::ActiveValidators));
    assert_eq!(Some(1), state.checked_total(Aggregate::EligibleValidators));
    assert_eq!(u64::MAX, state.get_max_balance());
    assert_eq!(1, state.get_min_balance());
}

#[test]
fn measure_of_one_validator() {
    let validator =
        Validator { balance: 10, effective_balance: 7, is_active: true, is_slashed: true };
    assert_eq!(10, Aggregate::StakedBalance.measure(&validator));
    assert_eq!(7, Aggregate::ActiveBalance.measure(&validator));
    assert_eq!(0, Aggregate::MatchingBalance.measure(&validator));
    assert_eq!(1, Aggregate::ActiveValidators.measure(&validator));
    assert_eq!(0, Aggregate::EligibleValidators.measure(&validator));
}
