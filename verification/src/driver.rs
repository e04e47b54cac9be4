//! The benchmark driver: one trial, a sweep of trials, and a standard run.
//!
//! A sweep takes its trials in order. Each trial is timed and hashed once.
//! The first trial that the primitive refuses ends the sweep: no later trial
//! is run, and the report holds the failure in place of a sample.
//!
//! A sweep can be run in one go, or step by step, so that each line can be
//! shown as soon as its trial has ended.

use vstd::prelude::*;
use vstd::slice::slice_to_vec;
use vstd::string::*;
use crate::hasher::{
    accepts, addressable, hash, is_addressable, refusal, request_hash, standard,
    standard_request, HashRequestView, HashThreads, HashVariant, HashVersion, HashingFailure,
    STANDARD_HASH_LENGTH,
};
use crate::report::{line_text, Observation, SweepReport};
use crate::salt::{fresh_salt, SALT_LENGTH};
use crate::trial::{
    lemma_standard_trial_bounds, standard_sweep, sweep_matrix, Trial, STANDARD_SWEEP_LENGTH,
};

verus! {

/// The password that a standard run hashes.
pub const PASSWORD: &'static str = "MyS3cretPassw*rd";

/// Whether hashing each of `trials` under a salt of `salt_len` bytes fits
/// this machine.
pub open spec fn all_addressable(salt_len: nat, trials: Seq<Trial>) -> bool {
    forall|i: int| 0 <= i < trials.len() ==> addressable(salt_len, #[trigger] trials[i])
}

/// A sweep stops at `n` when the primitive takes each of the first `n`
/// trials, and `n` is either the end of the sweep or the place of a trial
/// that the primitive refuses.
pub open spec fn stops_at(password_len: nat, salt_len: nat, trials: Seq<Trial>, n: int) -> bool {
    &&& 0 <= n <= trials.len()
    &&& forall|i: int| 0 <= i < n ==> accepts(password_len, salt_len, #[trigger] trials[i])
    &&& n < trials.len() ==> !accepts(password_len, salt_len, trials[n])
}

/// Whether `sample` is a sample of `trial`: it names the trial, its time is
/// not negative, and it holds the hash that the primitive gives for the
/// standard request of the trial.
pub open spec fn is_sample_of(
    sample: Observation,
    password: Seq<u8>,
    salt: Seq<u8>,
    trial: Trial,
) -> bool {
    &&& sample.trial == trial
    &&& sample.elapsed_ms >= 0
    &&& sample.encoded@ == request_hash(password, salt, standard(trial))
}

/// Whether `failure` is the failure of `trial`: it names the trial and the
/// error with which the primitive refuses its standard request.
pub open spec fn is_failure_of(
    failure: HashingFailure,
    password_len: nat,
    salt_len: nat,
    trial: Trial,
) -> bool {
    &&& failure.trial == trial
    &&& refusal(password_len, salt_len, standard(trial)) == Some(failure.cause@)
}

/// Whether `report` is what a sweep of `trials` has left behind so far: a
/// sample of each trial that ran, in order, and, where a trial was refused,
/// the failure of the trial that comes after the last sample.
pub open spec fn is_partial_outcome(
    password: Seq<u8>,
    salt: Seq<u8>,
    trials: Seq<Trial>,
    report: SweepReport,
) -> bool {
    let n = report.observations@.len() as int;
    &&& n <= trials.len()
    &&& forall|i: int| 0 <= i < n ==> accepts(password.len(), salt.len(), #[trigger] trials[i])
    &&& forall|i: int|
        0 <= i < n ==> is_sample_of(#[trigger] report.observations@[i], password, salt, trials[i])
    &&& report.failure matches Some(failure) ==> n < trials.len() && is_failure_of(
        failure,
        password.len(),
        salt.len(),
        trials[n],
    )
}

/// Whether `report` is what a whole sweep of `trials` leaves behind: a
/// sample of each trial before the stopping place, in order, and, where the
/// sweep stops before its end, the failure of the trial at the stopping
/// place.
pub open spec fn is_sweep_outcome(
    password: Seq<u8>,
    salt: Seq<u8>,
    trials: Seq<Trial>,
    report: SweepReport,
) -> bool {
    let n = report.observations@.len() as int;
    &&& stops_at(password.len(), salt.len(), trials, n)
    &&& forall|i: int|
        0 <= i < n ==> is_sample_of(#[trigger] report.observations@[i], password, salt, trials[i])
    &&& n == trials.len() ==> report.failure is None
    &&& n < trials.len() ==> (report.failure matches Some(failure) && is_failure_of(
        failure,
        password.len(),
        salt.len(),
        trials[n],
    ))
}

/// Tells whether hashing each of `trials` under a salt of `salt_len` bytes
/// fits this machine.
pub fn are_addressable(salt_len: usize, trials: &[Trial]) -> (answer: bool)
    ensures
        answer == all_addressable(salt_len as nat, trials@),
{
    let mut index: usize = 0;
    while index < trials.len()
        invariant
            index <= trials@.len(),
            forall|i: int| 0 <= i < index ==> addressable(salt_len as nat, #[trigger] trials@[i]),
        decreases trials@.len() - index,
    {
        if !is_addressable(salt_len, trials[index]) {
            return false;
        }
        index += 1;
    }
    true
}

/// Times one hashing of `password` under `salt` as the standard request of
/// `trial` asks.
///
/// The stopwatch runs from just before the call of the primitive to just
/// after it. A refused trial gives a failure and no sample.
pub fn run_trial(password: &[u8], salt: &[u8], trial: Trial) -> (outcome: Result<
    Observation,
    HashingFailure,
>)
    requires
        addressable(salt@.len(), trial),
    ensures
        outcome is Ok <==> accepts(password@.len(), salt@.len(), trial),
        outcome matches Ok(sample) ==> is_sample_of(sample, password@, salt@, trial),
        outcome matches Err(failure) ==> is_failure_of(
            failure,
            password@.len(),
            salt@.len(),
            trial,
        ),
{
    let request = standard_request(trial);
    let watch = stopwatch::Stopwatch::start_new();
    match hash(password, salt, &request) {
        Ok(encoded) => Ok(Observation::new(trial, watch.elapsed_ms(), encoded)),
        Err(cause) => Err(HashingFailure { trial, cause }),
    }
}

/// Runs `trials` in order, one hashing each, until the end or the first
/// refusal.
pub fn run_sweep(password: &[u8], salt: &[u8], trials: &[Trial]) -> (report: SweepReport)
    requires
        all_addressable(salt@.len(), trials@),
    ensures
        is_sweep_outcome(password@, salt@, trials@, report),
{
    let mut report = SweepReport::new();
    let mut index: usize = 0;
    while index < trials.len()
        invariant
            index == report.observations@.len(),
            all_addressable(salt@.len(), trials@),
            report.completed(),
            is_partial_outcome(password@, salt@, trials@, report),
        decreases trials@.len() - index,
    {
        let outcome = run_trial(password, salt, trials[index]);
        if !report.record(outcome) {
            return report;
        }
        index += 1;
    }
    report
}

/// Runs `trials` in order under a fresh salt of sixteen bytes, which all of
/// them share. Gives back the salt and the report.
pub fn run_benchmark(password: &[u8], trials: &[Trial]) -> (run: ([u8; SALT_LENGTH], SweepReport))
    requires
        all_addressable(SALT_LENGTH as nat, trials@),
    ensures
        is_sweep_outcome(password@, run.0@, trials@, run.1),
{
    let salt = fresh_salt();
    let report = run_sweep(password, &salt, trials);
    (salt, report)
}

/// Runs the standard matrix once: the fixed password, a fresh salt, and the
/// eighteen trials in order. Gives back the salt and the report.
///
/// The primitive takes every trial of the standard matrix, so the report is
/// complete whatever the salt.
pub fn hashbench() -> (run: ([u8; SALT_LENGTH], SweepReport))
    requires
        all_addressable(SALT_LENGTH as nat, sweep_matrix()),
    ensures
        is_sweep_outcome(PASSWORD.spec_bytes(), run.0@, sweep_matrix(), run.1),
        run.1.completed(),
        run.1.observations@.len() == STANDARD_SWEEP_LENGTH,
{
    let trials = standard_sweep();
    let run = run_benchmark(PASSWORD.as_bytes(), trials.as_slice());
    proof {
        lemma_standard_sweep_accepted(PASSWORD.spec_bytes().len(), run.0@.len());
        lemma_line_count(PASSWORD.spec_bytes(), run.0@, sweep_matrix(), run.1);
    }
    run
}

/// A sweep that is run step by step: what it hashes, and what it has left
/// behind so far.
#[derive(Debug, PartialEq, Eq)]
pub struct SweepRun {
    pub password: Vec<u8>,
    pub salt: Vec<u8>,
    pub trials: Vec<Trial>,
    pub report: SweepReport,
}

impl SweepRun {
    /// The report holds what the trials that ran so far have left behind.
    pub open spec fn well_formed(self) -> bool {
        is_partial_outcome(self.password@, self.salt@, self.trials@, self.report)
    }

    /// No trial is left to run: the sweep has failed or reached its end.
    pub open spec fn finished(self) -> bool {
        self.report.failure is Some || self.report.observations@.len() == self.trials@.len()
    }

    /// The place of the trial that the next step runs.
    pub open spec fn cursor(self) -> int {
        self.report.observations@.len() as int
    }

    /// A sweep of `trials` under `salt` that has not run a trial yet.
    pub fn with_salt(password: &[u8], salt: &[u8], trials: Vec<Trial>) -> (run: SweepRun)
        ensures
            run.password@ == password@,
            run.salt@ == salt@,
            run.trials@ == trials@,
            run.cursor() == 0,
            run.report.completed(),
            run.well_formed(),
    {
        SweepRun {
            password: slice_to_vec(password),
            salt: slice_to_vec(salt),
            trials,
            report: SweepReport::new(),
        }
    }

    /// A sweep of `trials` under a fresh salt of sixteen bytes that has not
    /// run a trial yet.
    pub fn start(password: &[u8], trials: Vec<Trial>) -> (run: SweepRun)
        ensures
            run.password@ == password@,
            run.salt@.len() == SALT_LENGTH,
            run.trials@ == trials@,
            run.cursor() == 0,
            run.report.completed(),
            run.well_formed(),
    {
        let salt = fresh_salt();
        SweepRun::with_salt(password, salt.as_slice(), trials)
    }

    /// A standard run that has not run a trial yet: the fixed password, a
    /// fresh salt and the standard matrix.
    pub fn standard() -> (run: SweepRun)
        ensures
            run.password@ == PASSWORD.spec_bytes(),
            run.salt@.len() == SALT_LENGTH,
            run.trials@ == sweep_matrix(),
            run.cursor() == 0,
            run.report.completed(),
            run.well_formed(),
    {
        SweepRun::start(PASSWORD.as_bytes(), standard_sweep())
    }

    /// Tells whether no trial is left to run.
    pub fn is_finished(&self) -> (answer: bool)
        ensures
            answer == self.finished(),
    {
        self.report.failure.is_some() || self.report.observations.len() == self.trials.len()
    }

    /// Tells whether hashing the next trial fits this machine.
    pub fn next_is_addressable(&self) -> (answer: bool)
        requires
            self.well_formed(),
            !self.finished(),
        ensures
            answer == addressable(self.salt@.len(), self.trials@[self.cursor()]),
    {
        is_addressable(self.salt.len(), self.trials[self.report.observations.len()])
    }

    /// Runs the next trial. Where the primitive takes it, its sample joins
    /// the report and its line comes back. Where the primitive refuses it,
    /// the report keeps the failure, nothing comes back, and the sweep is
    /// finished.
    pub fn step(&mut self) -> (line: Option<String>)
        requires
            old(self).well_formed(),
            !old(self).finished(),
            addressable(old(self).salt@.len(), old(self).trials@[old(self).cursor()]),
        ensures
            final(self).well_formed(),
            final(self).password@ == old(self).password@,
            final(self).salt@ == old(self).salt@,
            final(self).trials@ == old(self).trials@,
            line is Some <==> accepts(
                old(self).password@.len(),
                old(self).salt@.len(),
                old(self).trials@[old(self).cursor()],
            ),
            match line {
                Some(text) => {
                    &&& final(self).report.completed()
                    &&& final(self).cursor() == old(self).cursor() + 1
                    &&& final(self).report.observations@.drop_last() == old(
                        self,
                    ).report.observations@
                    &&& text@ == line_text(
                        final(self).report.observations@.last().trial,
                        final(self).report.observations@.last().elapsed_ms,
                    )
                },
                None => {
                    &&& final(self).finished()
                    &&& final(self).report.observations@ == old(self).report.observations@
                },
            },
    {
        let trial = self.trials[self.report.observations.len()];
        match run_trial(self.password.as_slice(), self.salt.as_slice(), trial) {
            Ok(sample) => {
                let text = sample.line();
                self.report.record(Ok(sample));
                Some(text)
            },
            Err(failure) => {
                self.report.record(Err(failure));
                None
            },
        }
    }

    /// Ends the run and hands out its report.
    pub fn into_report(self) -> (report: SweepReport)
        requires
            self.well_formed(),
            self.finished(),
        ensures
            report == self.report,
            is_sweep_outcome(self.password@, self.salt@, self.trials@, report),
    {
        self.report
    }
}

/// The bytes of the password of a standard run: its sixteen characters, one
/// byte each.
pub proof fn lemma_password_bytes()
    ensures
        PASSWORD.spec_bytes().len() == 16,
        forall|i: int| 0 <= i < 16 ==> PASSWORD.spec_bytes()[i] == PASSWORD@[i] as u8,
{
    reveal_strlit("MyS3cretPassw*rd");
    is_ascii_spec_bytes(PASSWORD);
}

/// With the password of a standard run and a salt of eight bytes or more,
/// and no longer than the primitive takes, the primitive takes every trial
/// of the standard matrix: a standard sweep stops at its end.
pub proof fn lemma_standard_sweep_accepted(password_len: nat, salt_len: nat)
    requires
        password_len == PASSWORD.spec_bytes().len(),
        8 <= salt_len <= 0xFFFF_FFFF,
    ensures
        forall|i: int|
            0 <= i < STANDARD_SWEEP_LENGTH ==> accepts(
                password_len,
                salt_len,
                #[trigger] sweep_matrix()[i],
            ),
        stops_at(password_len, salt_len, sweep_matrix(), STANDARD_SWEEP_LENGTH as int),
{
    lemma_password_bytes();
    assert forall|i: int| 0 <= i < STANDARD_SWEEP_LENGTH implies accepts(
        password_len,
        salt_len,
        #[trigger] sweep_matrix()[i],
    ) by {
        lemma_standard_trial_bounds(i);
    }
}

/// Every hashing of a sweep asks for the Argon2id variant, version 0x13,
/// one thread for each lane, a digest of 32 bytes, no secret and no
/// associated data: two hashings of a sweep differ in their three costs
/// alone.
pub proof fn lemma_requests_differ_in_costs_alone(first: Trial, second: Trial)
    ensures
        standard(first).variant == HashVariant::Argon2id,
        standard(first).version == HashVersion::Version13,
        standard(first).threads == HashThreads::Parallel,
        standard(first).hash_length == STANDARD_HASH_LENGTH == 32,
        standard(first).secret.len() == 0,
        standard(first).associated_data.len() == 0,
        standard(first).trial == first,
        standard(first) == (HashRequestView { trial: first, ..standard(second) }),
{
}

/// A sweep has one stopping place.
pub proof fn lemma_stop_is_unique(
    password_len: nat,
    salt_len: nat,
    trials: Seq<Trial>,
    first: int,
    second: int,
)
    requires
        stops_at(password_len, salt_len, trials, first),
        stops_at(password_len, salt_len, trials, second),
    ensures
        first == second,
{
}

/// The number of samples in a report, and so of the lines that it gives, is
/// the length of the sweep where the primitive takes every trial, and the
/// place of the first refused trial, counted from zero, where it refuses
/// one. In the first case the report is complete; in the second its failure
/// names that trial, and there is no sample of it or of a later one.
pub proof fn lemma_line_count(
    password: Seq<u8>,
    salt: Seq<u8>,
    trials: Seq<Trial>,
    report: SweepReport,
)
    requires
        is_sweep_outcome(password, salt, trials, report),
    ensures
        (forall|i: int|
            0 <= i < trials.len() ==> accepts(password.len(), salt.len(), #[trigger] trials[i]))
            ==> report.observations@.len() == trials.len() && report.completed(),
        forall|k: int|
            stops_at(password.len(), salt.len(), trials, k) && k < trials.len() ==> {
                &&& report.observations@.len() == k
                &&& report.failure matches Some(failure)
                &&& is_failure_of(failure, password.len(), salt.len(), trials[k])
            },
{
}

/// The time of every sample of a sweep is not negative.
pub proof fn lemma_times_are_not_negative(
    password: Seq<u8>,
    salt: Seq<u8>,
    trials: Seq<Trial>,
    report: SweepReport,
)
    requires
        is_partial_outcome(password, salt, trials, report) || is_sweep_outcome(
            password,
            salt,
            trials,
            report,
        ),
    ensures
        forall|i: int|
            0 <= i < report.observations@.len() ==> (#[trigger] report.observations@[i]).elapsed_ms
                >= 0,
{
}

/// Two sweeps of the same trials with the same password and salt leave the
/// same number of samples, with the same trial and the same hash at each
/// place, and either both are complete or both fail at the same trial with
/// the same error. Only the times may differ.
pub proof fn lemma_sweep_repeatable(
    password: Seq<u8>,
    salt: Seq<u8>,
    trials: Seq<Trial>,
    first: SweepReport,
    second: SweepReport,
)
    requires
        is_sweep_outcome(password, salt, trials, first),
        is_sweep_outcome(password, salt, trials, second),
    ensures
        first.observations@.len() == second.observations@.len(),
        forall|i: int|
            0 <= i < first.observations@.len() ==> {
                &&& (#[trigger] first.observations@[i]).trial == second.observations@[i].trial
                &&& first.observations@[i].encoded@ == second.observations@[i].encoded@
            },
        first.completed() == second.completed(),
        first.failure matches Some(failure) ==> {
            &&& second.failure matches Some(other)
            &&& other.trial == failure.trial
            &&& other.cause@ == failure.cause@
        },
{
    lemma_stop_is_unique(
        password.len(),
        salt.len(),
        trials,
        first.observations@.len() as int,
        second.observations@.len() as int,
    );
}

} // verus!
