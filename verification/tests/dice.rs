use reward_simulator::types::config::Config;
use reward_simulator::types::dice::accepts_candidate;
use reward_simulator::types::dice::is_chosen;
use reward_simulator::types::dice::Dice;
use reward_simulator::types::error::SimulationError;
use reward_simulator::types::probability::Probability;
use reward_simulator::types::state::State;
use reward_simulator::types::validator::Validator;

fn config() -> Config {
    Config::new(
        "epoch",
        "",
        "csv",
        10,
        500_000,
        10_000_000,
        &vec![Probability::certain()],
        Probability::certain(),
    )
    .unwrap()
}

fn validator(effective_balance: u64, is_active: bool, is_slashed: bool) -> Validator {
    Validator { balance: effective_balance, effective_balance, is_active, is_slashed }
}

// a state of `count` validators of which every third is inactive and every
// fifth is slashed
fn mixed_state(count: usize) -> State {
    let mut state = State::new(config());
    state.validators.clear();
    for i in 0..count {
        state.validators.push(validator(32_000_000_000, i % 3 != 0, i % 5 == 0));
    }
    state
}

fn assert_proposers(state: &State, proposers: &Vec<usize>) {
    assert_eq!(32, proposers.len());
    for (place, index) in proposers.iter().enumerate() {
        assert!(*index < state.validators.len());
        assert!(state.validators[*index].is_active);
        assert!(!state.validators[*index].is_slashed);
        assert!(!proposers[..place].contains(index));
    }
}

#[test]
fn proposers_are_unique_active_and_unslashed() {
    let mut dice = Dice::new();
    let state = mixed_state(200);
    for _ in 0..50 {
        let proposers = dice.pick_epoch_proposers(&state).unwrap();
        assert_proposers(&state, &proposers);
    }
}

#[test]
fn proposers_are_found_among_exactly_as_many_eligible_validators() {
    let mut dice = Dice::new();
    // of 60 validators, 32 are neither a multiple of 3 nor of 5
    let state = mixed_state(60);
    assert_eq!(32, state.get_eligible_validators());
    let mut proposers = dice.pick_epoch_proposers(&state).unwrap();
    assert_proposers(&state, &proposers);
    proposers.sort();
    assert_eq!(state.eligible_indices(), proposers);
}

#[test]
fn election_fails_for_want_of_eligible_validators() {
    let mut dice = Dice::new();
    // of 59 validators, 31 are neither a multiple of 3 nor of 5
    let state = mixed_state(59);
    assert_eq!(31, state.get_eligible_validators());
    assert_eq!(
        Err(SimulationError::InsufficientEligibleValidators),
        dice.pick_epoch_proposers(&state)
    );
    assert_eq!(
        Err(SimulationError::InsufficientEligibleValidators),
        dice.pick_epoch_proposers(&mixed_state(0))
    );
}

#[test]
fn election_counts_slashed_validators_out() {
    let mut dice = Dice::new();
    let mut state = mixed_state(0);
    for i in 0..40 {
        state.validators.push(validator(32_000_000_000, true, i < 9));
    }
    // 40 validators are active, 31 of them unslashed
    assert_eq!(
        Err(SimulationError::InsufficientEligibleValidators),
        dice.pick_epoch_proposers(&state)
    );
}

#[test]
fn election_without_a_draw_takes_the_first_eligible_validators() {
    let mut dice = Dice::new();
    let state = mixed_state(200);
    let proposers = dice.pick_epoch_proposers_within(&state, 0).unwrap();
    assert_proposers(&state, &proposers);
    let eligible = state.eligible_indices();
    assert_eq!(eligible[..32].to_vec(), proposers);
    assert_eq!(vec![1, 2, 4, 7, 8], proposers[..5].to_vec());
}

#[test]
fn election_with_few_draws_still_fills_every_slot() {
    let mut dice = Dice::new();
    let state = mixed_state(200);
    for draws in [1, 5, 31, 32, 33, 100] {
        let proposers = dice.pick_epoch_proposers_within(&state, draws).unwrap();
        assert_proposers(&state, &proposers);
    }
}

#[test]
fn election_ends_where_effective_balances_are_low() {
    let mut dice = Dice::new();
    let mut state = mixed_state(0);
    for _ in 0..40 {
        state.validators.push(validator(0, true, false));
    }
    let proposers = dice.pick_epoch_proposers(&state).unwrap();
    assert_proposers(&state, &proposers);
}

#[test]
fn election_prefers_high_effective_balances() {
    let mut dice = Dice::new();
    let mut state = mixed_state(0);
    // 1000 validators: the first 500 hold the maximum, the others 1/32 of it
    for i in 0..1000 {
        let effective_balance = if i < 500 { 32_000_000_000 } else { 1_000_000_000 };
        state.validators.push(validator(effective_balance, true, false));
    }
    let mut high = 0;
    for _ in 0..100 {
        let proposers = dice.pick_epoch_proposers(&state).unwrap();
        high += proposers.iter().filter(|index| **index < 500).count();
    }
    // 3200 proposers; a validator of the second half passes 8 bytes of 256
    assert!(high > 2800);
}

#[test]
fn candidate_passes_the_bytes_that_its_effective_balance_covers() {
    // the maximum passes every byte
    assert!(accepts_candidate(32_000_000_000, 0));
    assert!(accepts_candidate(32_000_000_000, 255));
    // nothing passes the byte 0 only
    assert!(accepts_candidate(0, 0));
    assert!(!accepts_candidate(0, 1));
    // 16 * 255 = 4080 >= byte * 32
    assert!(accepts_candidate(16_000_000_000, 127));
    assert!(!accepts_candidate(16_000_000_000, 128));
    // 1 * 255 >= 7 * 32 = 224, but not 8 * 32 = 256
    assert!(accepts_candidate(1_000_000_000, 7));
    assert!(!accepts_candidate(1_000_000_000, 8));
    // the numbers of 64 bits are compared without loss
    assert!(accepts_candidate(u64::MAX, 146_997_491_837));
    assert!(!accepts_candidate(u64::MAX, 146_997_491_838));
    assert!(!accepts_candidate(u64::MAX, u64::MAX));
}

#[test]
fn certain_coin_always_shows_heads() {
    let mut dice = Dice::new();
    for _ in 0..10_000 {
        assert!(dice.throw_dice(Probability::certain()));
    }
}

#[test]
fn impossible_coin_never_shows_heads() {
    let mut dice = Dice::new();
    for _ in 0..10_000 {
        assert!(!dice.throw_dice(Probability::impossible()));
    }
}

#[test]
fn fair_coin_shows_both_sides() {
    let mut dice = Dice::new();
    let half = Probability::from_parts_per_billion(500_000_000).unwrap();
    let mut heads = 0;
    for _ in 0..10_000 {
        if dice.throw_dice(half) {
            heads += 1;
        }
    }
    assert!(4_000 < heads && heads < 6_000);
}

#[test]
fn biased_coin_shows_heads_as_often_as_it_should() {
    let mut dice = Dice::new();
    let tenth = Probability::from_parts_per_billion(100_000_000).unwrap();
    let mut heads = 0;
    for _ in 0..10_000 {
        if dice.throw_dice(tenth) {
            heads += 1;
        }
    }
    assert!(500 < heads && heads < 1_500);
}

#[test]
fn chosen_indices_are_found() {
    let chosen = vec![4, 9, 2];
    assert!(is_chosen(&chosen, 4));
    assert!(is_chosen(&chosen, 2));
    assert!(!is_chosen(&chosen, 3));
    assert!(!is_chosen(&vec![], 0));
}
