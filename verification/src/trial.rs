//! The cost parameters of a trial, and the matrix that a standard run sweeps.

use vstd::prelude::*;

verus! {

/// The cost parameters of one hashing trial.
#[derive(Clone, Copy, Debug, PartialEq, Eq, Structural)]
pub struct Trial {
    /// Memory that the primitive is to use, in kibibytes.
    pub memory_cost: u32,
    /// Number of passes over that memory.
    pub time_cost: u32,
    /// Number of lanes that are filled side by side.
    pub parallelism: u32,
}

impl Trial {
    /// A trial is well formed when all three costs are positive.
    pub open spec fn well_formed(self) -> bool {
        &&& self.memory_cost >= 1
        &&& self.time_cost >= 1
        &&& self.parallelism >= 1
    }

    /// A trial with the given costs, whatever they are: a sweep may hold a
    /// trial that the primitive will refuse.
    pub fn new(memory_cost: u32, time_cost: u32, parallelism: u32) -> (trial: Trial)
        ensures
            trial == (Trial { memory_cost, time_cost, parallelism }),
    {
        Trial { memory_cost, time_cost, parallelism }
    }

    /// Tells whether all three costs are positive.
    pub fn is_well_formed(&self) -> (answer: bool)
        ensures
            answer == self.well_formed(),
    {
        self.memory_cost >= 1 && self.time_cost >= 1 && self.parallelism >= 1
    }
}

/// Number of trials in the standard matrix.
pub const STANDARD_SWEEP_LENGTH: usize = 18;

/// Number of memory costs that the standard matrix tries for each setting
/// of passes and lanes.
pub const MEMORY_STEPS: usize = 6;

/// Memory cost of the first step of each setting: 64 MiB.
pub const FIRST_MEMORY_COST: u32 = 0x1_0000;

/// `cost`, doubled `times` times.
pub open spec fn doubled(cost: int, times: nat) -> int
    decreases times,
{
    if times == 0 {
        cost
    } else {
        2 * doubled(cost, (times - 1) as nat)
    }
}

/// The trial at place `i` of the standard matrix. The matrix has three
/// settings of passes and lanes, in this order: one pass on two lanes, one
/// pass on four lanes, two passes on two lanes. Within each setting the
/// memory cost starts at 64 MiB and doubles from step to step, up to 2 GiB.
pub open spec fn standard_trial(i: int) -> Trial {
    let setting = i / MEMORY_STEPS as int;
    let step = i % MEMORY_STEPS as int;
    Trial {
        memory_cost: doubled(FIRST_MEMORY_COST as int, step as nat) as u32,
        time_cost: if setting == 2 {
            2
        } else {
            1
        },
        parallelism: if setting == 1 {
            4
        } else {
            2
        },
    }
}

/// The standard matrix of eighteen trials, in the order in which a run takes
/// them.
pub open spec fn sweep_matrix() -> Seq<Trial> {
    Seq::new(STANDARD_SWEEP_LENGTH as nat, |i: int| standard_trial(i))
}

/// The standard matrix.
pub fn standard_sweep() -> (trials: Vec<Trial>)
    ensures
        trials@ == sweep_matrix(),
{
    let trials = vec![
        Trial { memory_cost: 0x1_0000, time_cost: 1, parallelism: 2 },
        Trial { memory_cost: 0x2_0000, time_cost: 1, parallelism: 2 },
        Trial { memory_cost: 0x4_0000, time_cost: 1, parallelism: 2 },
        Trial { memory_cost: 0x8_0000, time_cost: 1, parallelism: 2 },
        Trial { memory_cost: 0x10_0000, time_cost: 1, parallelism: 2 },
        Trial { memory_cost: 0x20_0000, time_cost: 1, parallelism: 2 },
        Trial { memory_cost: 0x1_0000, time_cost: 1, parallelism: 4 },
        Trial { memory_cost: 0x2_0000, time_cost: 1, parallelism: 4 },
        Trial { memory_cost: 0x4_0000, time_cost: 1, parallelism: 4 },
        Trial { memory_cost: 0x8_0000, time_cost: 1, parallelism: 4 },
        Trial { memory_cost: 0x10_0000, time_cost: 1, parallelism: 4 },
        Trial { memory_cost: 0x20_0000, time_cost: 1, parallelism: 4 },
        Trial { memory_cost: 0x1_0000, time_cost: 2, parallelism: 2 },
        Trial { memory_cost: 0x2_0000, time_cost: 2, parallelism: 2 },
        Trial { memory_cost: 0x4_0000, time_cost: 2, parallelism: 2 },
        Trial { memory_cost: 0x8_0000, time_cost: 2, parallelism: 2 },
        Trial { memory_cost: 0x10_0000, time_cost: 2, parallelism: 2 },
        Trial { memory_cost: 0x20_0000, time_cost: 2, parallelism: 2 },
    ];
    proof {
        reveal_with_fuel(doubled, 6);
    }
    trials
}

/// Every trial of the standard matrix is well formed, and none asks for
/// less than 64 MiB or more than 2 GiB.
pub proof fn lemma_standard_trial_bounds(i: int)
    requires
        0 <= i < STANDARD_SWEEP_LENGTH,
    ensures
        standard_trial(i).well_formed(),
        0x1_0000 <= standard_trial(i).memory_cost <= 0x20_0000,
{
    reveal_with_fuel(doubled, 6);
}

} // verus!
