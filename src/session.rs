//! One spawned process and its lifecycle.

use vstd::prelude::*;

use crate::events::Event;
use crate::text::join2;

verus! {

/// What waiting for a process to end gave.
#[derive(Clone, Debug)]
pub enum ExitReport {
    /// The process exited with a success status.
    Success,
    /// The process exited with another status, or was ended by a signal;
    /// `status` is that status as text.
    Failure { status: String },
    /// The operating system could not report the process's status.
    WaitError { reason: String },
}

/// Where a session stands.
#[derive(Clone, Debug)]
pub enum SessionState {
    Running,
    /// Exited with a success status.
    Succeeded,
    /// Exited with another status.
    ExitedWith { status: String },
    /// Its status could not be had.
    Failed { reason: String },
}

/// Text before the status of a process that did not succeed.
pub const EXIT_STATUS_PREFIX: &'static str = "Process exited with status: ";

/// Text before the reason why waiting for a process failed.
pub const WAIT_FAILED_PREFIX: &'static str = "[ERROR] Process failed: ";

/// The termination message for a report: empty on success.
pub open spec fn exit_message(report: ExitReport) -> Seq<char> {
    match report {
        ExitReport::Success => Seq::empty(),
        ExitReport::Failure { status } => EXIT_STATUS_PREFIX@ + status@,
        ExitReport::WaitError { reason } => WAIT_FAILED_PREFIX@ + reason@,
    }
}

/// The state a running session reaches with a report.
pub open spec fn state_after(report: ExitReport) -> SessionState {
    match report {
        ExitReport::Success => SessionState::Succeeded,
        ExitReport::Failure { status } => SessionState::ExitedWith { status },
        ExitReport::WaitError { reason } => SessionState::Failed { reason },
    }
}

/// Whether `needle` occurs in `hay` as a contiguous run.
pub open spec fn contains(hay: Seq<char>, needle: Seq<char>) -> bool {
    exists|k: int| 0 <= k && k + needle.len() <= hay.len() && #[trigger] hay.subrange(k, k + needle.len()) == needle
}

/// A process that did not succeed is reported with a non-empty message that
/// holds its status.
pub proof fn failure_message_holds_status(status: String)
    ensures
        exit_message(ExitReport::Failure { status }).len() > 0,
        contains(exit_message(ExitReport::Failure { status }), status@),
{
    let m = exit_message(ExitReport::Failure { status });
    let k = EXIT_STATUS_PREFIX@.len() as int;
    assert(EXIT_STATUS_PREFIX@.len() > 0) by {
        reveal_strlit("Process exited with status: ");
    }
    assert(m.subrange(k, k + status@.len()) =~= status@);
}

/// A spawned process as the library tracks it.
pub struct Session {
    pub id: u32,
    pub command_line: String,
    pub working_directory: String,
    pub state: SessionState,
}

impl Session {
    /// A running session for a process just spawned.
    pub fn start(id: u32, command_line: String, working_directory: String) -> (r: Session)
        ensures
            r.id == id,
            r.command_line == command_line,
            r.working_directory == working_directory,
            r.state == SessionState::Running,
    {
        Session { id, command_line, working_directory, state: SessionState::Running }
    }

    /// Whether the session is still running.
    pub fn is_running(&self) -> (r: bool)
        ensures
            r == (self.state == SessionState::Running),
    {
        match self.state {
            SessionState::Running => true,
            _ => false,
        }
    }

    /// Records how the process ended. The first report of a running session
    /// gives its one termination event; any later one gives none and changes
    /// nothing.
    pub fn finish(&mut self, report: ExitReport) -> (r: Option<Event>)
        ensures
            final(self).id == old(self).id,
            final(self).command_line == old(self).command_line,
            final(self).working_directory == old(self).working_directory,
            old(self).state == SessionState::Running ==> {
                &&& final(self).state == state_after(report)
                &&& r matches Some(Event::Terminated { message }) && message@ == exit_message(report)
            },
            old(self).state != SessionState::Running ==> r.is_none() && final(self).state == old(
                self,
            ).state,
    {
        if !self.is_running() {
            return None;
        }
        let message = match &report {
            ExitReport::Success => String::new(),
            ExitReport::Failure { status } => join2(EXIT_STATUS_PREFIX, status.as_str()),
            ExitReport::WaitError { reason } => join2(WAIT_FAILED_PREFIX, reason.as_str()),
        };
        self.state = match report {
            ExitReport::Success => SessionState::Succeeded,
            ExitReport::Failure { status } => SessionState::ExitedWith { status },
            ExitReport::WaitError { reason } => SessionState::Failed { reason },
        };
        Some(Event::Terminated { message })
    }
}

} // verus!
