//! Forced termination of the active session and the processes it spawned.
//!
//! Killing is a short protocol. The registry slot is taken first; then the
//! host runs the primary tree kill, and, where that cannot run or reports
//! failure, a direct kill of the process id. Each step here decides what the
//! host does next from what the previous one gave.

use vstd::prelude::*;

use crate::registry::ProcessRegistry;
use vstd::string::*;

verus! {

/// Why a kill request failed.
#[derive(Clone, Debug)]
pub enum KillError {
    /// No session was registered.
    NoActiveProcess,
    /// Neither the tree kill nor the direct kill succeeded.
    KillFailed { reason: String },
}

/// A kill that the host is asked to carry out.
#[derive(Clone, Copy, Debug, PartialEq, Eq, Structural)]
pub enum KillAction {
    /// Forcefully end the process tree rooted at this id.
    KillTree(u32),
    /// Forcefully end this one process.
    KillProcess(u32),
}

/// How a kill action went, as the host saw it.
#[derive(Clone, Debug)]
pub enum KillOutcome {
    /// The kill facility ran and reported success.
    Succeeded,
    /// The kill facility ran and reported failure.
    Reported,
    /// The kill facility could not be run.
    Unavailable { reason: String },
}

/// What the host does next.
#[derive(Debug)]
pub enum KillStep {
    Run(KillAction),
    Done(Result<(), KillError>),
}

/// Message of a direct kill that ran and reported failure.
pub const KILL_FAILED: &'static str = "Failed to kill process";

/// Message of a kill request with nothing registered.
pub const NOTHING_TO_KILL: &'static str = "No process to kill";

/// The first step of a kill, for a registry slot `slot`.
pub open spec fn first_step(slot: Option<u32>) -> KillStep {
    match slot {
        Some(id) => KillStep::Run(KillAction::KillTree(id)),
        None => KillStep::Done(Err(KillError::NoActiveProcess)),
    }
}

/// Whether `step` is the right successor of `action` ending with `outcome`.
pub open spec fn next_step_ok(action: KillAction, outcome: KillOutcome, step: KillStep) -> bool {
    match action {
        KillAction::KillTree(id) => match outcome {
            KillOutcome::Succeeded => step == KillStep::Done(Ok::<(), KillError>(())),
            _ => step == KillStep::Run(KillAction::KillProcess(id)),
        },
        KillAction::KillProcess(_) => match outcome {
            KillOutcome::Succeeded => step == KillStep::Done(Ok::<(), KillError>(())),
            KillOutcome::Reported => step matches KillStep::Done(Err(KillError::KillFailed { reason }))
                && reason@ == KILL_FAILED@,
            KillOutcome::Unavailable { reason: why } => step matches KillStep::Done(
                Err(KillError::KillFailed { reason }),
            ) && reason@ == why@,
        },
    }
}

/// The registry slot once a kill has started, whatever it held before.
pub open spec fn slot_after_kill(slot: Option<u32>) -> Option<u32> {
    None
}

/// Starts a kill: takes the registry slot and says what to do with it.
pub fn begin_kill(registry: &mut ProcessRegistry) -> (r: KillStep)
    ensures
        final(registry)@ == slot_after_kill(old(registry)@),
        r == first_step(old(registry)@),
{
    match registry.take() {
        Some(id) => KillStep::Run(KillAction::KillTree(id)),
        None => KillStep::Done(Err(KillError::NoActiveProcess)),
    }
}

/// The step after `action` ended with `outcome`: a failed tree kill falls
/// back to a direct kill; a failed direct kill ends the request in error.
pub fn after_kill(action: KillAction, outcome: KillOutcome) -> (r: KillStep)
    ensures
        next_step_ok(action, outcome, r),
{
    match action {
        KillAction::KillTree(id) => match outcome {
            KillOutcome::Succeeded => KillStep::Done(Ok(())),
            _ => KillStep::Run(KillAction::KillProcess(id)),
        },
        KillAction::KillProcess(_) => match outcome {
            KillOutcome::Succeeded => KillStep::Done(Ok(())),
            KillOutcome::Reported => KillStep::Done(
                Err(KillError::KillFailed { reason: String::from_str(KILL_FAILED) }),
            ),
            KillOutcome::Unavailable { reason } => KillStep::Done(
                Err(KillError::KillFailed { reason }),
            ),
        },
    }
}

/// A kill that finds a session leaves the slot empty, and a second kill
/// that follows it fails with `NoActiveProcess`.
pub proof fn kill_then_kill_fails(slot: Option<u32>)
    ensures
        slot_after_kill(slot) == None::<u32>,
        first_step(slot_after_kill(slot)) == KillStep::Done(Err(KillError::NoActiveProcess)),
{
}

impl KillError {
    /// The text reported to the caller.
    pub fn message(&self) -> (r: String)
        ensures
            r@ == match *self {
                KillError::NoActiveProcess => NOTHING_TO_KILL@,
                KillError::KillFailed { reason } => reason@,
            },
    {
        match self {
            KillError::NoActiveProcess => String::from_str(NOTHING_TO_KILL),
            KillError::KillFailed { reason } => reason.clone(),
        }
    }
}

} // verus!
