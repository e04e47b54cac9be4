//! What one trial leaves behind, and the line of text that reports it.

use vstd::prelude::*;
use vstd::string::*;
use crate::hasher::HashingFailure;
use crate::trial::Trial;

verus! {

/// The ten decimal digits, in order.
pub open spec fn digits() -> Seq<char> {
    seq!['0', '1', '2', '3', '4', '5', '6', '7', '8', '9']
}

/// The decimal numeral of `n`, without leading zeros.
pub open spec fn decimal(n: nat) -> Seq<char>
    decreases n,
{
    if n < 10 {
        seq![digits()[n as int]]
    } else {
        decimal(n / 10).push(digits()[(n % 10) as int])
    }
}

/// The decimal numeral of `i`, with a minus sign in front of a negative one.
pub open spec fn signed_decimal(i: int) -> Seq<char> {
    if i < 0 {
        seq!['-'] + decimal((-i) as nat)
    } else {
        decimal(i as nat)
    }
}

/// The line that reports a trial and the milliseconds it took.
pub open spec fn line_text(trial: Trial, elapsed_ms: i64) -> Seq<char> {
    "Test: M:"@ + decimal(trial.memory_cost as nat) + " T: "@ + decimal(trial.time_cost as nat)
        + ", P:"@ + decimal(trial.parallelism as nat) + "\t "@ + signed_decimal(elapsed_ms as int)
        + "ms"@
}

/// The text of one decimal digit.
fn digit_text(d: u64) -> (text: &'static str)
    requires
        d < 10,
    ensures
        text@ == seq![digits()[d as int]],
{
    proof {
        reveal_strlit("0");
        reveal_strlit("1");
        reveal_strlit("2");
        reveal_strlit("3");
        reveal_strlit("4");
        reveal_strlit("5");
        reveal_strlit("6");
        reveal_strlit("7");
        reveal_strlit("8");
        reveal_strlit("9");
    }
    let text = if d == 0 {
        "0"
    } else if d == 1 {
        "1"
    } else if d == 2 {
        "2"
    } else if d == 3 {
        "3"
    } else if d == 4 {
        "4"
    } else if d == 5 {
        "5"
    } else if d == 6 {
        "6"
    } else if d == 7 {
        "7"
    } else if d == 8 {
        "8"
    } else {
        "9"
    };
    text
}

/// Appends the decimal numeral of `n` to `text`.
pub fn append_decimal(text: &mut String, n: u64)
    ensures
        final(text)@ == old(text)@ + decimal(n as nat),
    decreases n,
{
    if n >= 10 {
        append_decimal(text, n / 10);
    }
    text.append(digit_text(n % 10));
}

/// Appends the decimal numeral of `i` to `text`, a minus sign first where
/// `i` is negative.
pub fn append_signed_decimal(text: &mut String, i: i64)
    ensures
        final(text)@ == old(text)@ + signed_decimal(i as int),
{
    if i < 0 {
        proof {
            reveal_strlit("-");
        }
        text.append("-");
        let magnitude: u64 = if i == i64::MIN {
            0x8000_0000_0000_0000
        } else {
            (-i) as u64
        };
        append_decimal(text, magnitude);
    } else {
        append_decimal(text, i as u64);
    }
}

/// Writes the line that reports `trial` and `elapsed_ms`.
pub fn report_line(trial: Trial, elapsed_ms: i64) -> (line: String)
    ensures
        line@ == line_text(trial, elapsed_ms),
{
    let mut line = String::from_str("Test: M:");
    append_decimal(&mut line, trial.memory_cost as u64);
    line.append(" T: ");
    append_decimal(&mut line, trial.time_cost as u64);
    line.append(", P:");
    append_decimal(&mut line, trial.parallelism as u64);
    line.append("\t ");
    append_signed_decimal(&mut line, elapsed_ms);
    line.append("ms");
    line
}

/// One timing sample: a trial, the milliseconds that hashing took, and the
/// encoded hash that came out.
#[derive(Debug, PartialEq, Eq)]
pub struct Observation {
    pub trial: Trial,
    pub elapsed_ms: i64,
    pub encoded: String,
}

impl Observation {
    /// The sample of a trial that took `elapsed_ms` milliseconds and gave
    /// the hash `encoded`.
    pub fn new(trial: Trial, elapsed_ms: i64, encoded: String) -> (sample: Observation)
        ensures
            sample == (Observation { trial, elapsed_ms, encoded }),
    {
        Observation { trial, elapsed_ms, encoded }
    }

    /// The line that reports this sample.
    pub fn line(&self) -> (line: String)
        ensures
            line@ == line_text(self.trial, self.elapsed_ms),
    {
        report_line(self.trial, self.elapsed_ms)
    }
}

/// What a sweep leaves behind: the samples of the trials that ran, in order,
/// and the failure that ended the sweep early, if one did.
#[derive(Debug, PartialEq, Eq)]
pub struct SweepReport {
    pub observations: Vec<Observation>,
    pub failure: Option<HashingFailure>,
}

impl SweepReport {
    /// Whether the sweep has not failed.
    pub open spec fn completed(self) -> bool {
        self.failure is None
    }

    /// The report of a sweep that has not run a trial yet.
    pub fn new() -> (report: SweepReport)
        ensures
            report.observations@.len() == 0,
            report.completed(),
    {
        SweepReport { observations: Vec::new(), failure: None }
    }

    /// Tells whether the sweep has not failed.
    pub fn is_complete(&self) -> (answer: bool)
        ensures
            answer == self.completed(),
    {
        self.failure.is_none()
    }

    /// Takes in the outcome of the next trial and tells whether the sweep
    /// goes on. A sample joins the samples, and the sweep goes on. A failure
    /// is kept as the failure of the sweep, and the sweep ends.
    pub fn record(&mut self, outcome: Result<Observation, HashingFailure>) -> (goes_on: bool)
        requires
            old(self).completed(),
        ensures
            goes_on == (outcome is Ok),
            match outcome {
                Ok(sample) => {
                    &&& final(self).observations@ == old(self).observations@.push(sample)
                    &&& final(self).failure is None
                },
                Err(failure) => {
                    &&& final(self).observations@ == old(self).observations@
                    &&& final(self).failure == Some(failure)
                },
            },
    {
        match outcome {
            Ok(sample) => {
                self.observations.push(sample);
                true
            },
            Err(failure) => {
                self.failure = Some(failure);
                false
            },
        }
    }

    /// The lines that report the samples, one for each, in order.
    pub fn lines(&self) -> (lines: Vec<String>)
        ensures
            lines@.len() == self.observations@.len(),
            forall|i: int|
                0 <= i < lines@.len() ==> (#[trigger] lines@[i])@ == line_text(
                    self.observations@[i].trial,
                    self.observations@[i].elapsed_ms,
                ),
    {
        let mut lines: Vec<String> = Vec::new();
        let mut index: usize = 0;
        while index < self.observations.len()
            invariant
                index <= self.observations@.len(),
                lines@.len() == index,
                forall|i: int|
                    0 <= i < index ==> (#[trigger] lines@[i])@ == line_text(
                        self.observations@[i].trial,
                        self.observations@[i].elapsed_ms,
                    ),
            decreases self.observations@.len() - index,
        {
            lines.push(self.observations[index].line());
            index += 1;
        }
        lines
    }
}

} // verus!
