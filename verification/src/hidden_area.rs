//! Erasing vendor-hidden regions (HPA and DCO) through a facility of the
//! platform.
//!
//! The phase is best effort. Its outcome is reported beside the result of the
//! overwrite and never changes it.

use crate::error::WipeError;
use crate::platform::Platform;
use vstd::prelude::*;
use vstd::string::*;

verus! {

/// Whether the target is known to have a hidden area.
#[derive(Clone, Copy, Debug, PartialEq, Eq)]
pub enum Presence {
    Unknown,
    Absent,
    Present,
}

/// What was found on the host at run time.
#[derive(Clone, Copy, Debug, PartialEq, Eq)]
pub struct EraseFacilities {
    /// The host platform.
    pub platform: Platform,
    /// Whether an ATA management utility can be invoked.
    pub ata_utility: bool,
    /// Whether a secure-erase utility of the operating system can be invoked.
    pub native_utility: bool,
    /// Whether the target has a hidden area.
    pub hidden_areas: Presence,
}

/// The way in which hidden areas are erased.
#[derive(Clone, Copy, Debug, PartialEq, Eq)]
pub enum EraseStrategy {
    /// The enhanced security erase of the ATA management utility.
    AtaSecurityErase,
    /// The operating system's secure erase, at its zero-fill level.
    NativeSecureErase,
}

/// How the phase ended.
#[derive(Clone, Copy, Debug, PartialEq, Eq)]
pub enum HiddenAreaOutcome {
    /// The target has no hidden area.
    NotPresent,
    /// The facility ran and reported success.
    Erased,
    /// The platform has no known facility; nothing was invoked.
    Unsupported(Platform),
    /// The facility failed; the exit status where there was one.
    Failed(Option<i32>),
}

/// What to do about the hidden areas of a target.
#[derive(Clone, Copy, Debug, PartialEq, Eq)]
pub enum ErasePlan {
    /// Nothing is to be invoked; the outcome is known.
    Settled(HiddenAreaOutcome),
    /// The command of this strategy is to be run.
    Invoke(EraseStrategy),
}

/// An external command, ready to be run.
#[derive(Debug, PartialEq, Eq)]
pub struct EraseCommand {
    pub program: String,
    pub arguments: Vec<String>,
}

/// What an [`EraseCommand`] holds, as plain values.
pub struct CommandView {
    pub program: Seq<char>,
    pub arguments: Seq<Seq<char>>,
}

impl View for EraseCommand {
    type V = CommandView;

    open spec fn view(&self) -> CommandView {
        CommandView {
            program: self.program@,
            arguments: Seq::new(self.arguments@.len(), |i: int| self.arguments@[i]@),
        }
    }
}

/// The plan for a host with these facilities. Without a facility the
/// platform is unsupported, whatever else is known. With one, a target known
/// to have no hidden area needs nothing; any other target gets the ATA
/// utility where there is one, else the utility of the operating system.
pub open spec fn spec_plan_erase(facilities: EraseFacilities) -> ErasePlan {
    if !facilities.ata_utility && !facilities.native_utility {
        ErasePlan::Settled(HiddenAreaOutcome::Unsupported(facilities.platform))
    } else if facilities.hidden_areas == Presence::Absent {
        ErasePlan::Settled(HiddenAreaOutcome::NotPresent)
    } else if facilities.ata_utility {
        ErasePlan::Invoke(EraseStrategy::AtaSecurityErase)
    } else {
        ErasePlan::Invoke(EraseStrategy::NativeSecureErase)
    }
}

/// Computes [`spec_plan_erase`].
#[verifier::when_used_as_spec(spec_plan_erase)]
pub fn plan_erase(facilities: EraseFacilities) -> (plan: ErasePlan)
    ensures
        plan == spec_plan_erase(facilities),
{
    if !facilities.ata_utility && !facilities.native_utility {
        ErasePlan::Settled(HiddenAreaOutcome::Unsupported(facilities.platform))
    } else if matches!(facilities.hidden_areas, Presence::Absent) {
        ErasePlan::Settled(HiddenAreaOutcome::NotPresent)
    } else if facilities.ata_utility {
        ErasePlan::Invoke(EraseStrategy::AtaSecurityErase)
    } else {
        ErasePlan::Invoke(EraseStrategy::NativeSecureErase)
    }
}

/// Without a facility the plan is settled as unsupported on every platform
/// and for every target: no command is ever invoked.
pub proof fn lemma_no_facility_is_unsupported(facilities: EraseFacilities)
    requires
        !facilities.ata_utility,
        !facilities.native_utility,
    ensures
        spec_plan_erase(facilities) == ErasePlan::Settled(
            HiddenAreaOutcome::Unsupported(facilities.platform),
        ),
        !(spec_plan_erase(facilities) is Invoke),
{
}

/// The outcome of a command that has ended: erased on exit status 0, failed
/// on any other and where the command gave none.
pub open spec fn spec_outcome_of_exit(status: Option<i32>) -> HiddenAreaOutcome {
    if status == Some(0i32) {
        HiddenAreaOutcome::Erased
    } else {
        HiddenAreaOutcome::Failed(status)
    }
}

/// Computes [`spec_outcome_of_exit`].
#[verifier::when_used_as_spec(spec_outcome_of_exit)]
pub fn outcome_of_exit(status: Option<i32>) -> (outcome: HiddenAreaOutcome)
    ensures
        outcome == spec_outcome_of_exit(status),
{
    match status {
        Some(0) => HiddenAreaOutcome::Erased,
        _ => HiddenAreaOutcome::Failed(status),
    }
}

/// The command line of a strategy for the target at `path`.
pub open spec fn spec_erase_command(strategy: EraseStrategy, path: Seq<char>) -> CommandView {
    match strategy {
        EraseStrategy::AtaSecurityErase => CommandView {
            program: "hdparm"@,
            arguments: seq!["--user-master"@, "u"@, "--security-erase-enhanced"@, path],
        },
        EraseStrategy::NativeSecureErase => CommandView {
            program: "diskutil"@,
            arguments: seq!["secureErase"@, "0"@, path],
        },
    }
}

/// Builds the command line of a strategy for the target at `path`.
pub fn erase_command(strategy: EraseStrategy, path: &str) -> (command: EraseCommand)
    ensures
        command@ == spec_erase_command(strategy, path@),
{
    let mut arguments: Vec<String> = Vec::new();
    let program = match strategy {
        EraseStrategy::AtaSecurityErase => {
            arguments.push(String::from_str("--user-master"));
            arguments.push(String::from_str("u"));
            arguments.push(String::from_str("--security-erase-enhanced"));
            String::from_str("hdparm")
        },
        EraseStrategy::NativeSecureErase => {
            arguments.push(String::from_str("secureErase"));
            arguments.push(String::from_str("0"));
            String::from_str("diskutil")
        },
    };
    arguments.push(String::from_str(path));
    let command = EraseCommand { program, arguments };
    assert(command@.arguments =~= spec_erase_command(strategy, path@).arguments);
    command
}

impl HiddenAreaOutcome {
    /// The outcome as callers of the erase alone see it: an error where
    /// nothing was erased for want of a facility or because the facility
    /// failed.
    pub open spec fn spec_as_result(self) -> Result<(), WipeError> {
        match self {
            HiddenAreaOutcome::NotPresent => Ok(()),
            HiddenAreaOutcome::Erased => Ok(()),
            HiddenAreaOutcome::Unsupported(platform) => Err(
                WipeError::HiddenAreaUnsupported(platform),
            ),
            HiddenAreaOutcome::Failed(status) => Err(WipeError::HiddenAreaCommandFailed(status)),
        }
    }

    /// See [`HiddenAreaOutcome::spec_as_result`].
    #[verifier::when_used_as_spec(spec_as_result)]
    pub fn as_result(self) -> (result: Result<(), WipeError>)
        ensures
            result == self.spec_as_result(),
    {
        match self {
            HiddenAreaOutcome::NotPresent => Ok(()),
            HiddenAreaOutcome::Erased => Ok(()),
            HiddenAreaOutcome::Unsupported(platform) => Err(
                WipeError::HiddenAreaUnsupported(platform),
            ),
            HiddenAreaOutcome::Failed(status) => Err(WipeError::HiddenAreaCommandFailed(status)),
        }
    }
}

} // verus!
