//! The entry point for shell requests: change directory, or spawn.
//!
//! A request is first planned. A directory change is settled at once: the
//! host tries it and hands the outcome back, and the events come out in one
//! go. A spawn is carried out by the host; its outcome registers a session,
//! and the end of the process later finishes that session and frees the slot.

use vstd::prelude::*;
use vstd::string::*;

use crate::events::{Event, Stream};
use crate::registry::ProcessRegistry;
use crate::session::{exit_message, state_after, ExitReport, Session, SessionState};
use crate::text::join2;

verus! {

/// The pseudo-command that changes the working directory.
pub const CHANGE_DIR_COMMAND: &'static str = "cd";

/// Where `cd` without an argument goes.
pub const PARENT_DIR: &'static str = "..";

/// Text before the reason why a directory change failed.
pub const CD_FAILED_PREFIX: &'static str = "Failed to change directory: ";

/// Text before the reason why a spawn failed.
pub const SPAWN_FAILED_PREFIX: &'static str = "Failed to spawn command: ";

/// Message of a spawned process whose id could not be had.
pub const NO_PROCESS_ID: &'static str = "Failed to get process ID";

/// What a shell request asks the host to do.
#[derive(Clone, Debug)]
pub enum Plan {
    /// Change the working directory to `target`; nothing is spawned.
    ChangeDirectory { target: String },
    /// Run `command_line` through the platform shell.
    Spawn { command_line: String },
}

/// Why an execution request failed.
#[derive(Clone, Debug)]
pub enum ExecError {
    /// The shell could not be started.
    SpawnFailure { reason: String },
    /// The process started but reported no id.
    NoProcessId,
}

/// The command line for a command and its arguments: all of them joined
/// by single spaces.
pub open spec fn command_line_of(command: Seq<char>, args: Seq<String>) -> Seq<char>
    decreases args.len(),
{
    if args.len() == 0 {
        command
    } else {
        command_line_of(command, args.drop_last()) + " "@ + args.last()@
    }
}

/// Where `cd` goes for the given arguments.
pub open spec fn cd_target_of(args: Seq<String>) -> Seq<char> {
    if args.len() > 0 {
        args[0]@
    } else {
        PARENT_DIR@
    }
}

/// Joins a command and its arguments with single spaces.
pub fn command_line(command: &String, args: &Vec<String>) -> (r: String)
    ensures
        r@ == command_line_of(command@, args@),
{
    let mut line = command.clone();
    let mut i: usize = 0;
    while i < args.len()
        invariant
            i <= args@.len(),
            line@ == command_line_of(command@, args@.subrange(0, i as int)),
        decreases args@.len() - i,
    {
        proof {
            reveal_strlit(" ");
            assert(args@.subrange(0, i + 1).drop_last() =~= args@.subrange(0, i as int));
        }
        line.append(" ");
        line.append(args[i].as_str());
        i += 1;
    }
    proof {
        assert(args@.subrange(0, args@.len() as int) =~= args@);
    }
    line
}

/// Decides what a request asks for: `cd` changes directory (to its first
/// argument, or to the parent directory); anything else is spawned.
pub fn plan_command(command: &String, args: &Vec<String>) -> (r: Plan)
    ensures
        command@ == CHANGE_DIR_COMMAND@ ==> (r matches Plan::ChangeDirectory { target } && target@
            == cd_target_of(args@)),
        command@ != CHANGE_DIR_COMMAND@ ==> (r matches Plan::Spawn { command_line } && command_line@
            == command_line_of(command@, args@)),
{
    let cd = String::from_str(CHANGE_DIR_COMMAND);
    if command.eq(&cd) {
        if args.len() > 0 {
            Plan::ChangeDirectory { target: args[0].clone() }
        } else {
            Plan::ChangeDirectory { target: String::from_str(PARENT_DIR) }
        }
    } else {
        Plan::Spawn { command_line: command_line(command, args) }
    }
}

/// The working directory that new processes start in.
pub struct WorkingDirectoryStore {
    path: String,
}

impl View for WorkingDirectoryStore {
    type V = Seq<char>;

    closed spec fn view(&self) -> Seq<char> {
        self.path@
    }
}

impl WorkingDirectoryStore {
    /// A store that starts at `path`.
    pub fn new(path: String) -> (r: WorkingDirectoryStore)
        ensures
            r@ == path@,
    {
        WorkingDirectoryStore { path }
    }

    /// The current working directory.
    pub fn path(&self) -> (r: String)
        ensures
            r@ == self@,
    {
        self.path.clone()
    }

    /// Settles a directory change from what the host's attempt gave: the new
    /// absolute path, or why it failed. On success the store moves and the
    /// events are `DirectoryChanged` then an empty `Terminated`; on failure
    /// the store stays and the events are an error line then an empty
    /// `Terminated`.
    pub fn change_directory(&mut self, outcome: Result<String, String>) -> (r: Vec<Event>)
        ensures
            r@.len() == 2,
            r@[1] matches Event::Terminated { message } && message@.len() == 0,
            outcome matches Ok(path) ==> {
                &&& final(self)@ == path@
                &&& r@[0] matches Event::DirectoryChanged { path: p } && p@ == path@
            },
            outcome matches Err(reason) ==> {
                &&& final(self)@ == old(self)@
                &&& r@[0] matches Event::OutputLine { stream: Stream::Stderr, text } && text@
                    == CD_FAILED_PREFIX@ + reason@
            },
    {
        let mut events: Vec<Event> = Vec::new();
        match outcome {
            Ok(path) => {
                self.path = path.clone();
                events.push(Event::DirectoryChanged { path });
            },
            Err(reason) => {
                events.push(
                    Event::OutputLine {
                        stream: Stream::Stderr,
                        text: join2(CD_FAILED_PREFIX, reason.as_str()),
                    },
                );
            },
        }
        events.push(Event::terminated_ok());
        events
    }
}

/// Registers a spawned process: with an id it becomes the active session and
/// takes the registry slot; otherwise the request fails, no session exists,
/// and the slot is left as it was.
pub fn register_spawn(
    registry: &mut ProcessRegistry,
    command_line: String,
    working_directory: String,
    spawned: Result<Option<u32>, String>,
) -> (r: Result<Session, ExecError>)
    ensures
        spawned matches Ok(Some(id)) ==> {
            &&& final(registry)@ == Some(id)
            &&& r matches Ok(s) && s.id == id && s.command_line == command_line
                && s.working_directory == working_directory && s.state == SessionState::Running
        },
        spawned matches Ok(None) ==> {
            &&& final(registry)@ == old(registry)@
            &&& r matches Err(ExecError::NoProcessId)
        },
        spawned matches Err(why) ==> {
            &&& final(registry)@ == old(registry)@
            &&& r matches Err(ExecError::SpawnFailure { reason }) && reason@ == why@
        },
{
    match spawned {
        Ok(Some(id)) => {
            registry.set(id);
            Ok(Session::start(id, command_line, working_directory))
        },
        Ok(None) => Err(ExecError::NoProcessId),
        Err(reason) => Err(ExecError::SpawnFailure { reason }),
    }
}

/// The process of `session` ended: gives its termination event (once) and
/// frees the registry slot.
pub fn on_exit(registry: &mut ProcessRegistry, session: &mut Session, report: ExitReport) -> (r:
    Option<Event>)
    ensures
        final(registry)@ == None::<u32>,
        final(session).id == old(session).id,
        old(session).state == SessionState::Running ==> {
            &&& final(session).state == state_after(report)
            &&& r matches Some(Event::Terminated { message }) && message@ == exit_message(report)
        },
        old(session).state != SessionState::Running ==> r.is_none() && final(session).state == old(
            session,
        ).state,
{
    let event = session.finish(report);
    registry.clear();
    event
}

impl ExecError {
    /// The text reported to the caller.
    pub fn message(&self) -> (r: String)
        ensures
            r@ == match *self {
                ExecError::SpawnFailure { reason } => SPAWN_FAILED_PREFIX@ + reason@,
                ExecError::NoProcessId => NO_PROCESS_ID@,
            },
    {
        match self {
            ExecError::SpawnFailure { reason } => join2(SPAWN_FAILED_PREFIX, reason.as_str()),
            ExecError::NoProcessId => String::from_str(NO_PROCESS_ID),
        }
    }
}

} // verus!
