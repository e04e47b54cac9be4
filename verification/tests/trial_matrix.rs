use argonbench::trial::{standard_sweep, Trial, STANDARD_SWEEP_LENGTH};

#[test]
fn trial_new_keeps_the_three_costs() {
    let trial = Trial::new(65536, 1, 2);
    assert_eq!(trial.memory_cost, 65536);
    assert_eq!(trial.time_cost, 1);
    assert_eq!(trial.parallelism, 2);
    assert_eq!(trial, Trial { memory_cost: 65536, time_cost: 1, parallelism: 2 });
}

#[test]
fn trial_with_positive_costs_is_well_formed() {
    assert!(Trial::new(1, 1, 1).is_well_formed());
    assert!(Trial::new(65536, 1, 2).is_well_formed());
    assert!(Trial::new(u32::MAX, u32::MAX, u32::MAX).is_well_formed());
}

#[test]
fn trial_with_a_zero_cost_is_not_well_formed() {
    assert!(!Trial::new(0, 1, 2).is_well_formed());
    assert!(!Trial::new(65536, 0, 2).is_well_formed());
    assert!(!Trial::new(65536, 1, 0).is_well_formed());
    assert!(!Trial::new(0, 0, 0).is_well_formed());
}

#[test]
fn standard_sweep_has_eighteen_trials() {
    assert_eq!(STANDARD_SWEEP_LENGTH, 18);
    assert_eq!(standard_sweep().len(), 18);
}

#[test]
fn standard_sweep_lists_the_matrix_in_order() {
    let expected: Vec<(u32, u32, u32)> = vec![
        (0x10000, 1, 2),
        (0x20000, 1, 2),
        (0x40000, 1, 2),
        (0x80000, 1, 2),
        (0x100_000, 1, 2),
        (0x200_000, 1, 2),
        (0x10000, 1, 4),
        (0x20000, 1, 4),
        (0x40000, 1, 4),
        (0x80000, 1, 4),
        (0x100_000, 1, 4),
        (0x200_000, 1, 4),
        (0x10000, 2, 2),
        (0x20000, 2, 2),
        (0x40000, 2, 2),
        (0x80000, 2, 2),
        (0x100_000, 2, 2),
        (0x200_000, 2, 2),
    ];
    let sweep = standard_sweep();
    assert_eq!(sweep.len(), expected.len());
    for (trial, (memory_cost, time_cost, parallelism)) in sweep.iter().zip(expected) {
        assert_eq!(trial.memory_cost, memory_cost);
        assert_eq!(trial.time_cost, time_cost);
        assert_eq!(trial.parallelism, parallelism);
    }
}

#[test]
fn standard_sweep_starts_at_64_mib_and_ends_at_2_gib() {
    let sweep = standard_sweep();
    assert_eq!(sweep[0], Trial::new(65536, 1, 2));
    assert_eq!(sweep[17], Trial::new(2097152, 2, 2));
    for trial in sweep.iter() {
        assert!(trial.is_well_formed());
        assert!(65536 <= trial.memory_cost && trial.memory_cost <= 2097152);
    }
}

#[test]
fn standard_sweep_is_the_same_each_time() {
    assert_eq!(standard_sweep(), standard_sweep());
}
