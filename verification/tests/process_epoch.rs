use reward_simulator::process_epoch::advance_epoch;
use reward_simulator::process_epoch::draw_participations;
use reward_simulator::process_epoch::process_epoch;
use reward_simulator::types::config::Config;
use reward_simulator::types::dice::Dice;
use reward_simulator::types::error::SimulationError;
use reward_simulator::types::output::EpochReportRow;
use reward_simulator::types::output::Output;
use reward_simulator::types::probability::Probability;
use reward_simulator::types::state::State;
use reward_simulator::types::validator::Validator;

fn config(online: Probability) -> Config {
    let mut config = Config::new(
        "epoch",
        "",
        "csv",
        10,
        500_000,
        10_000_000,
        &vec![online],
        Probability::certain(),
    )
    .unwrap();
    config.exp_value_inclusion_prob = Probability::certain();
    config
}

fn first_proposers() -> Vec<usize> {
    (0..32).collect()
}

// the row of an epoch in which all 15,625 validators of the start take part
fn row_of_full_participation(epoch_id: i32) -> EpochReportRow {
    EpochReportRow {
        epoch_id,
        deltas_head_ffg_rewards: 1_073_296_875,
        deltas_head_ffg_penalties: 0,
        deltas_proposer_rewards: 44_692_992,
        deltas_attester_rewards: 313_046_875,
        total_staked_balance: 500_001_431_036_742,
        total_effective_balance: 500_000_000_000_000,
        max_balance: 32_001_485_382,
        min_balance: 32_000_088_726,
        total_validators: 15_625,
        total_active_validators: 15_625,
        time_elapsed: 0,
    }
}

#[test]
fn epoch_in_which_every_validator_takes_part() {
    let state = State::new(config(Probability::certain()));
    let participation = vec![true; 15_625];
    let (post_state, row) = advance_epoch(state, 3, &first_proposers(), &participation).unwrap();
    assert_eq!(row_of_full_participation(3), row);
    assert_eq!(15_625, post_state.validators.len());
    for (index, validator) in post_state.validators.iter().enumerate() {
        let balance = if index < 32 { 32_001_485_382 } else { 32_000_088_726 };
        assert_eq!(
            Validator {
                balance,
                effective_balance: 32_000_000_000,
                is_active: true,
                is_slashed: false
            },
            *validator
        );
    }
    assert_eq!(500_000_000_000_000, post_state.config.total_at_stake_initial);
}

#[test]
fn epoch_in_which_no_validator_takes_part() {
    let state = State::new(config(Probability::impossible()));
    let participation = vec![false; 15_625];
    let (post_state, row) = advance_epoch(state, 0, &first_proposers(), &participation).unwrap();
    assert_eq!(
        EpochReportRow {
            epoch_id: 0,
            deltas_head_ffg_rewards: 0,
            deltas_head_ffg_penalties: 1_073_296_875,
            deltas_proposer_rewards: 0,
            deltas_attester_rewards: 0,
            total_staked_balance: 499_998_926_703_125,
            total_effective_balance: 484_375_000_000_000,
            max_balance: 31_999_931_309,
            min_balance: 31_999_931_309,
            total_validators: 15_625,
            total_active_validators: 15_625,
            time_elapsed: 0,
        },
        row
    );
    for validator in post_state.validators.iter() {
        assert_eq!(31_999_931_309, validator.balance);
        assert_eq!(31_000_000_000, validator.effective_balance);
    }
}

#[test]
fn epoch_with_validators_of_every_kind() {
    let mut state = State::new(config(Probability::certain()));
    state.validators[0].is_active = false;
    state.validators[1].is_slashed = true;
    let mut participation = vec![true; 15_625];
    participation[2] = false;
    let proposers: Vec<usize> = (3..35).collect();
    let (post_state, row) = advance_epoch(state, 1, &proposers, &participation).unwrap();
    // the total active balance is 15,624 * 32,000,000,000, its integer square
    // root 22,359,964, the base reward 22,898; the matching balance is
    // 15,623 * 32,000,000,000
    assert_eq!(32_000_000_000, post_state.validators[0].balance);
    assert_eq!(32_000_000_000 - 68_694, post_state.validators[1].balance);
    assert_eq!(31_000_000_000, post_state.validators[1].effective_balance);
    assert_eq!(32_000_000_000 - 68_694, post_state.validators[2].balance);
    // 3 * 22,898 * 15,623 / 15,624 = 68,689; 22,898 / 8 = 2,862;
    // 15,624 / 32 = 488
    assert_eq!(
        32_000_000_000 + 68_689 + 2_862 * 488 + (22_898 - 2_862),
        post_state.validators[3].balance
    );
    assert_eq!(32_000_000_000 + 68_689 + (22_898 - 2_862), post_state.validators[35].balance);
    assert_eq!(2 * 68_694, row.deltas_head_ffg_penalties);
    assert_eq!(15_622 * 68_689, row.deltas_head_ffg_rewards);
    assert_eq!(32 * 2_862 * 488, row.deltas_proposer_rewards);
    assert_eq!(15_622 * (22_898 - 2_862), row.deltas_attester_rewards);
    assert_eq!(15_625, row.total_validators);
    assert_eq!(15_624, row.total_active_validators);
    assert_eq!(15_622 * 32_000_000_000 + 2 * 31_000_000_000, row.total_effective_balance);
    assert_eq!(32_000_000_000 - 68_694, row.min_balance);
    assert_eq!(
        15_625 * 32_000_000_000 - 2 * 68_694
            + 15_622 * (68_689 + 22_898 - 2_862)
            + 32 * 2_862 * 488,
        row.total_staked_balance
    );
}

#[test]
fn epoch_without_active_balance_divides_by_zero() {
    let mut state = State::new(config(Probability::certain()));
    for validator in state.validators.iter_mut() {
        validator.effective_balance = 0;
    }
    let participation = vec![true; 15_625];
    assert_eq!(
        SimulationError::DivisionByZero,
        advance_epoch(state, 0, &first_proposers(), &participation).err().unwrap()
    );
}

#[test]
fn epoch_whose_balances_exceed_64_bits_overflows() {
    // the new balance of one validator
    let mut state = State::new(config(Probability::certain()));
    state.validators.truncate(40);
    state.validators[5].balance = u64::MAX;
    let participation = vec![true; 40];
    assert_eq!(
        SimulationError::BalanceOverflow,
        advance_epoch(state, 0, &first_proposers(), &participation).err().unwrap()
    );
    // the sum of the new balances
    let mut state = State::new(config(Probability::certain()));
    state.validators.truncate(40);
    state.validators[5].balance = u64::MAX - 39 * 32_000_000_000;
    let participation = vec![true; 40];
    assert_eq!(
        SimulationError::BalanceOverflow,
        advance_epoch(state, 0, &first_proposers(), &participation).err().unwrap()
    );
    // the total active balance before the epoch
    let mut state = State::new(config(Probability::certain()));
    state.validators.truncate(40);
    state.validators[5].effective_balance = u64::MAX;
    let participation = vec![true; 40];
    assert_eq!(
        SimulationError::BalanceOverflow,
        advance_epoch(state, 0, &first_proposers(), &participation).err().unwrap()
    );
}

#[test]
fn epoch_with_the_largest_balance_that_fits() {
    let mut state = State::new(config(Probability::impossible()));
    state.validators.truncate(40);
    state.validators[5].balance = u64::MAX - 39 * 32_000_000_000;
    let participation = vec![false; 40];
    let (post_state, row) = advance_epoch(state, 0, &first_proposers(), &participation).unwrap();
    // the total active balance is 40 * 32,000,000,000, its integer square
    // root 1,131,370, the base reward 452,548
    assert_eq!(40 * 3 * 452_548, row.deltas_head_ffg_penalties);
    assert_eq!(u64::MAX - 40 * 3 * 452_548, row.total_staked_balance);
    assert_eq!(u64::MAX - 39 * 32_000_000_000 - 3 * 452_548, row.max_balance);
    assert_eq!(32_000_000_000, post_state.validators[5].effective_balance);
}

#[test]
fn processed_epoch_is_reported() {
    let mut dice = Dice::new();
    let mut output = Output::new();
    let state = State::new(config(Probability::certain()));
    let post_state = process_epoch(state, 0, &mut output, &mut dice).unwrap();
    assert_eq!(1, output.rows.len());
    // whoever proposes, the sums are the same
    let mut row = output.rows[0];
    row.time_elapsed = 0;
    assert_eq!(row_of_full_participation(0), row);
    let proposers =
        post_state.validators.iter().filter(|validator| validator.balance == 32_001_485_382).count();
    assert_eq!(32, proposers);
    let others =
        post_state.validators.iter().filter(|validator| validator.balance == 32_000_088_726).count();
    assert_eq!(15_625 - 32, others);
    // the next epoch starts from what the first has left
    let post_state = process_epoch(post_state, 1, &mut output, &mut dice).unwrap();
    assert_eq!(2, output.rows.len());
    assert_eq!(1, output.rows[1].epoch_id);
    assert_eq!(2 * 1_431_036_742 + 500_000_000_000_000, output.rows[1].total_staked_balance);
    assert_eq!(15_625, post_state.validators.len());
}

#[test]
fn processed_epoch_of_absent_validators_charges_penalties() {
    let mut dice = Dice::new();
    let mut output = Output::new();
    let state = State::new(config(Probability::impossible()));
    process_epoch(state, 5, &mut output, &mut dice).unwrap();
    assert_eq!(5, output.rows[0].epoch_id);
    assert_eq!(1_073_296_875, output.rows[0].deltas_head_ffg_penalties);
    assert_eq!(0, output.rows[0].deltas_head_ffg_rewards);
    assert_eq!(0, output.rows[0].deltas_proposer_rewards);
    assert_eq!(0, output.rows[0].deltas_attester_rewards);
}

#[test]
fn processed_epoch_with_uncertain_validators_keeps_its_books() {
    let mut dice = Dice::new();
    let mut output = Output::new();
    let half = Probability::from_parts_per_billion(500_000_000).unwrap();
    let state = State::new(config(half));
    let post_state = process_epoch(state, 0, &mut output, &mut dice).unwrap();
    let row = output.rows[0];
    // every validator either earns for its vote or pays for missing it
    assert_eq!(0, row.deltas_head_ffg_rewards % 68_691);
    assert_eq!(0, row.deltas_head_ffg_penalties % 68_691);
    assert_eq!(
        15_625,
        row.deltas_head_ffg_rewards / 68_691 + row.deltas_head_ffg_penalties / 68_691
    );
    assert!(row.deltas_head_ffg_rewards > 0);
    assert!(row.deltas_head_ffg_penalties > 0);
    assert_eq!(row.deltas_head_ffg_rewards / 68_691 * 20_035, row.deltas_attester_rewards);
    assert_eq!(
        500_000_000_000_000 + row.deltas_head_ffg_rewards + row.deltas_proposer_rewards
            + row.deltas_attester_rewards
            - row.deltas_head_ffg_penalties,
        row.total_staked_balance
    );
    let total: u64 = post_state.validators.iter().map(|validator| validator.balance).sum();
    assert_eq!(total, row.total_staked_balance);
}

#[test]
fn failed_epoch_is_not_reported() {
    let mut dice = Dice::new();
    let mut output = Output::new();
    output.push(EpochReportRow::new());
    let mut state = State::new(config(Probability::certain()));
    state.validators.truncate(31);
    assert_eq!(
        SimulationError::InsufficientEligibleValidators,
        process_epoch(state, 0, &mut output, &mut dice).err().unwrap()
    );
    assert_eq!(vec![EpochReportRow::new()], output.rows);

    let mut state = State::new(config(Probability::certain()));
    for validator in state.validators.iter_mut() {
        validator.effective_balance = 0;
    }
    assert_eq!(
        SimulationError::DivisionByZero,
        process_epoch(state, 0, &mut output, &mut dice).err().unwrap()
    );
    assert_eq!(vec![EpochReportRow::new()], output.rows);
}

#[test]
fn participation_is_drawn_for_each_validator() {
    let mut dice = Dice::new();
    let mut state = State::new(config(Probability::certain()));
    state.validators.truncate(6);
    state.validators[1].is_active = false;
    state.validators[4].is_slashed = true;
    assert_eq!(
        vec![true, false, true, true, false, true],
        draw_participations(&state, &mut dice)
    );
    state.config.probability_online = Probability::impossible();
    assert_eq!(vec![false; 6], draw_participations(&state, &mut dice));
}
