use shell_core::dispatch::{
    command_line, on_exit, plan_command, register_spawn, ExecError, Plan, WorkingDirectoryStore,
};
use shell_core::events::{line_event, Event, Stream};
use shell_core::framer::{frame_stream, LineFramer};
use shell_core::registry::ProcessRegistry;
use shell_core::session::{ExitReport, Session, SessionState};
use shell_core::streamer::{forward_lines, OutputForwarder};
use shell_core::terminator::{after_kill, begin_kill, KillAction, KillError, KillOutcome, KillStep};

fn strings(words: &[&str]) -> Vec<String> {
    words.iter().map(|w| w.to_string()).collect()
}

fn texts(events: &[Event]) -> Vec<(Stream, String)> {
    events
        .iter()
        .map(|e| match e {
            Event::OutputLine { stream, text } => (*stream, text.clone()),
            other => panic!("not an output line: {:?}", other),
        })
        .collect()
}

#[test]
fn framer_splits_on_newlines() {
    let mut f = LineFramer::new();
    let lines = f.push(b"one\ntwo\nthr");
    assert_eq!(lines, vec![b"one".to_vec(), b"two".to_vec()]);
    assert_eq!(f.finish(), Some(b"thr".to_vec()));
    assert_eq!(f.finish(), None);
}

#[test]
fn framer_joins_lines_across_chunks() {
    let mut f = LineFramer::new();
    assert!(f.push(b"hel").is_empty());
    assert_eq!(f.push(b"lo\nwor"), vec![b"hello".to_vec()]);
    assert!(f.push(b"ld").is_empty());
    assert_eq!(f.finish(), Some(b"world".to_vec()));
}

#[test]
fn framer_drops_carriage_return_before_newline() {
    assert_eq!(frame_stream(b"a\r\nb\r\n"), vec![b"a".to_vec(), b"b".to_vec()]);
    assert_eq!(frame_stream(b"tail\r"), vec![b"tail\r".to_vec()]);
}

#[test]
fn framer_keeps_empty_lines_and_ignores_empty_input() {
    assert_eq!(frame_stream(b""), Vec::<Vec<u8>>::new());
    assert_eq!(frame_stream(b"\n\nx\n"), vec![b"".to_vec(), b"".to_vec(), b"x".to_vec()]);
}

#[test]
fn chunked_and_whole_stream_agree() {
    let stream: &[u8] = b"alpha\r\nbeta\n\ngamma";
    for cut in 0..=stream.len() {
        let mut f = LineFramer::new();
        let mut lines = f.push(&stream[..cut]);
        lines.extend(f.push(&stream[cut..]));
        if let Some(last) = f.finish() {
            lines.push(last);
        }
        assert_eq!(lines, frame_stream(stream), "cut at {}", cut);
    }
}

#[test]
fn printed_lines_arrive_once_each_in_order() {
    let mut fwd = OutputForwarder::new(Stream::Stdout);
    let mut events = fwd.feed(b"first\nsec");
    events.extend(fwd.feed(b"ond\nthird\n"));
    events.extend(fwd.close());
    assert_eq!(
        texts(&events),
        vec![
            (Stream::Stdout, "first".to_string()),
            (Stream::Stdout, "second".to_string()),
            (Stream::Stdout, "third".to_string()),
        ]
    );
    assert!(!fwd.is_open());
}

#[test]
fn forwarder_hands_out_unterminated_last_line_on_close() {
    let mut fwd = OutputForwarder::new(Stream::Stderr);
    assert!(fwd.feed(b"oops").is_empty());
    assert_eq!(texts(&fwd.close()), vec![(Stream::Stderr, "oops".to_string())]);
}

#[test]
fn undecodable_line_ends_forwarding() {
    let mut fwd = OutputForwarder::new(Stream::Stdout);
    let events = fwd.feed(b"ok\n\xff\xfe\nlater\n");
    assert_eq!(texts(&events), vec![(Stream::Stdout, "ok".to_string())]);
    assert!(!fwd.is_open());
    assert!(fwd.feed(b"more\n").is_empty());
    assert!(fwd.close().is_empty());
}

#[test]
fn line_event_decodes_utf8() {
    let e = line_event(Stream::Stdout, "h\u{e9}llo \u{2713}".as_bytes().to_vec()).unwrap();
    assert_eq!(texts(&[e]), vec![(Stream::Stdout, "h\u{e9}llo \u{2713}".to_string())]);
    assert!(line_event(Stream::Stdout, vec![0x68, 0xc3]).is_none());
    let lines = vec![b"a".to_vec(), vec![0xc3, 0x28], b"b".to_vec()];
    assert_eq!(texts(&forward_lines(Stream::Stderr, lines)), vec![(Stream::Stderr, "a".to_string())]);
}

#[test]
fn payload_and_channel_rendering() {
    let err = Event::OutputLine { stream: Stream::Stderr, text: "bad".to_string() };
    assert_eq!(err.payload(), "[ERROR] bad");
    assert_eq!(err.channel(), "terminal-output");
    let out = Event::OutputLine { stream: Stream::Stdout, text: "fine".to_string() };
    assert_eq!(out.payload(), "fine");
    let dir = Event::DirectoryChanged { path: "/tmp".to_string() };
    assert_eq!(dir.payload(), "/tmp");
    assert_eq!(dir.channel(), "directory-changed");
    let done = Event::terminated_ok();
    assert_eq!(done.payload(), "");
    assert_eq!(done.channel(), "terminal-terminated");
}

#[test]
fn echo_hello_yields_line_then_clean_termination() {
    let mut registry = ProcessRegistry::new();
    let args = strings(&["hello"]);
    let line = match plan_command(&"echo".to_string(), &args) {
        Plan::Spawn { command_line } => command_line,
        other => panic!("expected a spawn, got {:?}", other),
    };
    assert_eq!(line, "echo hello");
    let mut session = register_spawn(&mut registry, line, "/home".to_string(), Ok(Some(42))).unwrap();
    assert_eq!(registry.current(), Some(42));
    let mut fwd = OutputForwarder::new(Stream::Stdout);
    let mut events = fwd.feed(b"hello\n");
    events.extend(fwd.close());
    assert_eq!(texts(&events), vec![(Stream::Stdout, "hello".to_string())]);
    let end = on_exit(&mut registry, &mut session, ExitReport::Success).unwrap();
    assert!(matches!(&end, Event::Terminated { message } if message.is_empty()));
    assert_eq!(registry.current(), None);
}

#[test]
fn nonzero_exit_message_holds_status() {
    let mut session = Session::start(7, "false".to_string(), "/".to_string());
    let report = ExitReport::Failure { status: "exit status: 1".to_string() };
    match session.finish(report).unwrap() {
        Event::Terminated { message } => {
            assert_eq!(message, "Process exited with status: exit status: 1");
            assert!(message.contains("exit status: 1"));
        }
        other => panic!("unexpected {:?}", other),
    }
    assert!(matches!(session.state, SessionState::ExitedWith { ref status } if status == "exit status: 1"));
}

#[test]
fn wait_failure_is_reported_and_terminates_once() {
    let mut registry = ProcessRegistry::new();
    registry.set(9);
    let mut session = Session::start(9, "sleep 5".to_string(), "/".to_string());
    let first = on_exit(&mut registry, &mut session, ExitReport::WaitError { reason: "gone".to_string() });
    assert!(matches!(first, Some(Event::Terminated { ref message }) if message == "[ERROR] Process failed: gone"));
    assert!(matches!(session.state, SessionState::Failed { .. }));
    assert_eq!(registry.current(), None);
    assert!(session.finish(ExitReport::Success).is_none());
    assert!(matches!(session.state, SessionState::Failed { .. }));
}

#[test]
fn kill_empties_slot_and_second_kill_finds_nothing() {
    let mut registry = ProcessRegistry::new();
    registry.set(1234);
    match begin_kill(&mut registry) {
        KillStep::Run(KillAction::KillTree(1234)) => {}
        other => panic!("unexpected {:?}", other),
    }
    assert_eq!(registry.current(), None);
    match begin_kill(&mut registry) {
        KillStep::Done(Err(e)) => {
            assert!(matches!(e, KillError::NoActiveProcess));
            assert_eq!(e.message(), "No process to kill");
        }
        other => panic!("unexpected {:?}", other),
    }
}

#[test]
fn tree_kill_success_ends_request() {
    let step = after_kill(KillAction::KillTree(5), KillOutcome::Succeeded);
    assert!(matches!(step, KillStep::Done(Ok(()))));
}

#[test]
fn failed_or_missing_tree_kill_falls_back_to_direct_kill() {
    let step = after_kill(KillAction::KillTree(5), KillOutcome::Reported);
    assert!(matches!(step, KillStep::Run(KillAction::KillProcess(5))));
    let step = after_kill(KillAction::KillTree(5), KillOutcome::Unavailable { reason: "no pkill".to_string() });
    assert!(matches!(step, KillStep::Run(KillAction::KillProcess(5))));
    let step = after_kill(KillAction::KillProcess(5), KillOutcome::Succeeded);
    assert!(matches!(step, KillStep::Done(Ok(()))));
}

#[test]
fn failed_direct_kill_is_kill_failed() {
    match after_kill(KillAction::KillProcess(5), KillOutcome::Reported) {
        KillStep::Done(Err(e)) => assert_eq!(e.message(), "Failed to kill process"),
        other => panic!("unexpected {:?}", other),
    }
    match after_kill(KillAction::KillProcess(5), KillOutcome::Unavailable { reason: "no kill".to_string() }) {
        KillStep::Done(Err(KillError::KillFailed { reason })) => assert_eq!(reason, "no kill"),
        other => panic!("unexpected {:?}", other),
    }
}

#[test]
fn cd_to_valid_directory() {
    let registry = ProcessRegistry::new();
    let plan = plan_command(&"cd".to_string(), &strings(&["src"]));
    assert!(matches!(plan, Plan::ChangeDirectory { ref target } if target == "src"));
    let mut store = WorkingDirectoryStore::new("/work".to_string());
    let events = store.change_directory(Ok("/work/src".to_string()));
    assert_eq!(events.len(), 2);
    assert!(matches!(&events[0], Event::DirectoryChanged { path } if path == "/work/src"));
    assert!(matches!(&events[1], Event::Terminated { message } if message.is_empty()));
    assert_eq!(store.path(), "/work/src");
    assert_eq!(registry.current(), None);
}

#[test]
fn cd_without_argument_goes_to_parent() {
    let plan = plan_command(&"cd".to_string(), &Vec::new());
    assert!(matches!(plan, Plan::ChangeDirectory { ref target } if target == ".."));
}

#[test]
fn cd_to_invalid_directory() {
    let mut store = WorkingDirectoryStore::new("/work".to_string());
    let events = store.change_directory(Err("No such file or directory (os error 2)".to_string()));
    assert_eq!(events.len(), 2);
    assert_eq!(
        texts(&events[..1]),
        vec![(Stream::Stderr, "Failed to change directory: No such file or directory (os error 2)".to_string())]
    );
    assert_eq!(events[0].payload(), "[ERROR] Failed to change directory: No such file or directory (os error 2)");
    assert!(matches!(&events[1], Event::Terminated { message } if message.is_empty()));
    assert_eq!(store.path(), "/work");
}

#[test]
fn command_line_joins_with_single_spaces() {
    assert_eq!(command_line(&"ls".to_string(), &Vec::new()), "ls");
    assert_eq!(command_line(&"git".to_string(), &strings(&["commit", "-m", "x"])), "git commit -m x");
    let plan = plan_command(&"cdx".to_string(), &strings(&["a"]));
    assert!(matches!(plan, Plan::Spawn { ref command_line } if command_line == "cdx a"));
}

#[test]
fn spawn_failure_registers_nothing() {
    let mut registry = ProcessRegistry::new();
    registry.set(3);
    let r = register_spawn(
        &mut registry,
        "nosuchprogram".to_string(),
        "/".to_string(),
        Err("No such file or directory (os error 2)".to_string()),
    );
    match r {
        Err(e) => {
            assert!(matches!(e, ExecError::SpawnFailure { .. }));
            assert_eq!(e.message(), "Failed to spawn command: No such file or directory (os error 2)");
        }
        Ok(_) => panic!("a failed spawn gave a session"),
    }
    assert_eq!(registry.current(), Some(3));
}

#[test]
fn spawn_without_id_fails() {
    let mut registry = ProcessRegistry::new();
    match register_spawn(&mut registry, "true".to_string(), "/".to_string(), Ok(None)) {
        Err(e) => assert_eq!(e.message(), "Failed to get process ID"),
        Ok(_) => panic!("expected an error"),
    }
    assert_eq!(registry.current(), None);
}

#[test]
fn last_spawn_wins_the_slot() {
    let mut registry = ProcessRegistry::new();
    let first = register_spawn(&mut registry, "a".to_string(), "/".to_string(), Ok(Some(10))).unwrap();
    let second = register_spawn(&mut registry, "b".to_string(), "/".to_string(), Ok(Some(11))).unwrap();
    assert_eq!((first.id, second.id), (10, 11));
    assert_eq!(registry.current(), Some(11));
    assert_eq!(registry.take(), Some(11));
    assert_eq!(registry.take(), None);
}
