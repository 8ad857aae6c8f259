//! The words in which a failed cycle is reported: the phase that failed, the
//! epoch it failed in, and why.

use crate::layout::{decimal, decimal_string};
use crate::protocol::{Failure, FailureCause, Phase};
use vstd::prelude::*;
use vstd::string::*;

verus! {

/// The name of a phase.
pub open spec fn phase_name(phase: Phase) -> Seq<char> {
    match phase {
        Phase::Provision => "Provision"@,
        Phase::Spawn => "Spawn"@,
        Phase::Settle => "Settle"@,
        Phase::Await => "Await"@,
        Phase::Drain => "Drain"@,
        Phase::Release => "Release"@,
        Phase::Adopt => "Adopt"@,
    }
}

/// What went wrong, in words.
pub open spec fn cause_text(cause: FailureCause) -> Seq<char> {
    match cause {
        FailureCause::ProvisionFailed => "the metrics or storage scope could not be opened"@,
        FailureCause::SpawnFailed => "the primary or a worker could not be started"@,
        FailureCause::PartialGeneration => "the generation came up partially formed"@,
        FailureCause::ShutdownUndeliverable => "the shutdown notification could not be delivered"@,
        FailureCause::DrainIncomplete => "not every task of the generation is accounted for"@,
        FailureCause::TaskFailed { failed } => "tasks that did not exit cleanly: "@ + decimal(
            failed as nat,
        ),
        FailureCause::EpochNotAdvanced => "the committee to adopt is not of a later epoch"@,
        FailureCause::UnexpectedEvent => "an event arrived that the phase does not wait for"@,
    }
}

/// The diagnostic of `failure`: the phase, the epoch, and the cause.
pub open spec fn diagnostic_spec(failure: Failure) -> Seq<char> {
    phase_name(failure.phase) + " failed in epoch "@ + decimal(failure.epoch as nat) + ": "@
        + cause_text(failure.cause)
}

fn phase_str(phase: Phase) -> (name: &'static str)
    ensures
        name@ == phase_name(phase),
{
    match phase {
        Phase::Provision => "Provision",
        Phase::Spawn => "Spawn",
        Phase::Settle => "Settle",
        Phase::Await => "Await",
        Phase::Drain => "Drain",
        Phase::Release => "Release",
        Phase::Adopt => "Adopt",
    }
}

fn cause_string(cause: FailureCause) -> (text: String)
    ensures
        text@ == cause_text(cause),
{
    match cause {
        FailureCause::ProvisionFailed => String::from_str(
            "the metrics or storage scope could not be opened",
        ),
        FailureCause::SpawnFailed => String::from_str(
            "the primary or a worker could not be started",
        ),
        FailureCause::PartialGeneration => String::from_str(
            "the generation came up partially formed",
        ),
        FailureCause::ShutdownUndeliverable => String::from_str(
            "the shutdown notification could not be delivered",
        ),
        FailureCause::DrainIncomplete => String::from_str(
            "not every task of the generation is accounted for",
        ),
        FailureCause::TaskFailed { failed } => {
            let mut text = String::from_str("tasks that did not exit cleanly: ");
            let number = decimal_string(failed as u64);
            text.append(number.as_str());
            text
        },
        FailureCause::EpochNotAdvanced => String::from_str(
            "the committee to adopt is not of a later epoch",
        ),
        FailureCause::UnexpectedEvent => String::from_str(
            "an event arrived that the phase does not wait for",
        ),
    }
}

impl Failure {
    /// Says in words which phase failed, in which epoch, and why.
    pub fn diagnostic(&self) -> (text: String)
        ensures
            text@ == diagnostic_spec(*self),
    {
        let mut text = String::from_str(phase_str(self.phase));
        text.append(" failed in epoch ");
        let epoch = decimal_string(self.epoch);
        text.append(epoch.as_str());
        text.append(": ");
        let cause = cause_string(self.cause);
        text.append(cause.as_str());
        text
    }
}

} // verus!
