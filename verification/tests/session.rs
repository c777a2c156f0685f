use agent_master::client::{AgentMaster, Error};
use agent_master::environment::Environment;
use agent_master::launch::Launched;
use agent_master::protocol::{
    Incoming, ProcessSpec, Refusal, Request, Response, State, Window, WindowSize,
};
use agent_master::server::{
    act, converse, fitted, resized, started, stopped, typed, Step, Turn,
};
use agent_master::session::{
    least_window, Clipboard, Session, Shot, Signal, Stop, LAST_FRAME_WAIT_MS,
};

fn spec() -> ProcessSpec {
    ProcessSpec {
        command: "sh".to_string(),
        args: Vec::new(),
        cwd: "/tmp".to_string(),
        env: Environment::new(),
        size: WindowSize { rows: 24, cols: 80 },
    }
}

fn causes(all: &[&str]) -> Vec<String> {
    all.iter().map(|cause| (*cause).to_string()).collect()
}

fn launched(session: &Session, spec: ProcessSpec, pid: u32) -> Result<Launched, Refusal> {
    session.start(spec)?.opened(Ok(()))?.sized(Ok(()))?.spawned(Ok(Some(pid)))
}

fn running(pid: u32) -> (Session, u64) {
    let mut session = Session::new();
    let run = run_again(&mut session, pid);
    (session, run)
}

fn run_again(session: &mut Session, pid: u32) -> u64 {
    let launched = launched(session, spec(), pid).expect("launch");
    let (run, state) = session.started(launched).expect("start");
    assert_eq!(state, State::Running);
    run
}

fn ended(pid: u32, code: i32, painted: &[u8]) -> (Session, u64) {
    let (mut session, run) = running(pid);
    session.released(run);
    session.reaped(run, Some((Some(code), None)), painted.to_vec()).expect("an end");
    (session, run)
}

fn answered(session: &Session, request: Request, painted: &[u8]) -> Response {
    match act(session, request, painted.to_vec()) {
        Step::Answer(response) => response,
        other => panic!("expected an answer, got {other:?}"),
    }
}

fn encoded(text: &str) -> Vec<u8> {
    agent_master::base64_text::to_text(text.as_bytes()).into_bytes()
}

#[test]
fn nothing_runs_until_something_is_started() {
    let mut session = Session::new();
    assert_eq!(session.state(), State::NotStarted);
    assert!(!session.running());
    session.released(0);
    assert_eq!(session.reaped(0, None, Vec::new()), None);
    assert_eq!(session.copied(0, b"aGk="), Ok(()));
    assert_eq!(session.state(), State::NotStarted);
}

#[test]
fn every_operation_says_so_before_a_process_exists() {
    let mut session = Session::new();
    let size = WindowSize { rows: 10, cols: 40 };
    for request in [
        Request::Window,
        Request::Input { data: b"x".to_vec() },
        Request::Resize { size },
        Request::Stop { grace_ms: 1_000 },
        Request::Clipboard,
    ] {
        let response = answered(&session, request, b"");
        assert_eq!(response, Response::Refused(Refusal::NothingStarted));
    }
    let response = answered(&session, Request::State, b"");
    assert_eq!(response, Response::State(State::NotStarted));
}

#[test]
fn what_is_painted_is_the_window_while_the_process_runs() {
    let (mut session, _) = running(7);
    let window = Window { size: WindowSize { rows: 24, cols: 80 }, contents: b"hello".to_vec() };
    let response = answered(&session, Request::Window, b"hello");
    assert_eq!(response, Response::Window(window));
    assert_eq!(answered(&session, Request::State, b""), Response::State(State::Running));
}

#[test]
fn control_bytes_reach_the_process_unchanged() {
    let (mut session, _) = running(7);
    match act(&session, Request::Input { data: b"\x1b[A\r".to_vec() }, Vec::new()) {
        Step::Type { data } => assert_eq!(data, b"\x1b[A\r"),
        other => panic!("expected something to type, got {other:?}"),
    }
    assert_eq!(typed(Ok(())), Response::Done);
    assert_eq!(
        typed(Err(causes(&["Input/output error (os error 5)"]))),
        Response::Refused(Refusal::Failed {
            message: "typing into the terminal: Input/output error (os error 5)".to_string()
        })
    );
}

#[test]
fn the_process_sees_the_size_it_was_started_with() {
    let mut session = Session::new();
    let mut wide = spec();
    wide.size = WindowSize { rows: 30, cols: 100 };
    let launched = launched(&session, wide, 7).expect("launch");
    assert_eq!(launched.size(), WindowSize { rows: 30, cols: 100 });
    session.started(launched).expect("start");
    let window = session.window(Vec::new()).expect("window");
    assert_eq!(window.size, WindowSize { rows: 30, cols: 100 });
}

#[test]
fn the_process_sees_a_resize() {
    let (mut session, run) = running(7);
    let size = WindowSize { rows: 30, cols: 100 };
    match act(&session, Request::Resize { size }, Vec::new()) {
        Step::Resize { run: resizing, size: given } => {
            assert_eq!(resizing, run);
            assert_eq!(given, size);
        }
        other => panic!("expected a resize, got {other:?}"),
    }
    let before = session.window(Vec::new()).expect("window").size;
    assert_eq!(before, WindowSize { rows: 24, cols: 80 });
    assert_eq!(fitted(&mut session, run, size), Ok(()));
    assert_eq!(session.window(Vec::new()).expect("window").size, size);
    assert_eq!(resized(Ok(())), Response::Done);
    assert_eq!(
        resized(Err(causes(&["outer", "inner"]))),
        Response::Refused(Refusal::Failed {
            message: "sizing the terminal: outer: inner".to_string()
        })
    );
}

#[test]
fn a_resize_that_comes_too_late_reaches_neither_the_last_window_nor_the_next_run() {
    let (mut session, first) = ended(7, 0, b"first");
    let size = WindowSize { rows: 30, cols: 100 };
    assert_eq!(session.fitted(first, size), Ok(()));
    let last = session.window(Vec::new()).expect("window");
    assert_eq!(last.size, WindowSize { rows: 24, cols: 80 });
    run_again(&mut session, 8);
    assert_eq!(session.fitted(first, size), Ok(()));
    let window = session.window(Vec::new()).expect("window");
    assert_eq!(window.size, WindowSize { rows: 24, cols: 80 });
}

#[test]
fn a_window_too_small_to_draw_is_refused_at_the_start() {
    let session = Session::new();
    for size in [
        WindowSize { rows: 0, cols: 0 },
        WindowSize { rows: 0, cols: 80 },
        WindowSize { rows: 24, cols: 0 },
        WindowSize { rows: 1, cols: 80 },
        WindowSize { rows: 24, cols: 1 },
    ] {
        let mut small = spec();
        small.size = size;
        let refused = launched(&session, small, 7).expect_err("launch");
        assert_eq!(
            refused,
            Refusal::UnusableWindowSize { least: WindowSize { rows: 2, cols: 2 } },
            "{size:?}"
        );
        assert_eq!(session.state(), State::NotStarted, "{size:?}");
    }
    let smallest = WindowSize { rows: 2, cols: 2 };
    assert_eq!(least_window(), smallest);
    let mut small = spec();
    small.size = smallest;
    let launched = launched(&session, small, 7).expect("the smallest drawable window is allowed");
    assert_eq!(launched.size(), smallest);
}

#[test]
fn a_resize_to_a_window_too_small_to_draw_is_refused() {
    let (mut session, run) = running(7);
    let size = WindowSize { rows: 0, cols: 0 };
    assert_eq!(session.resize(size), Ok((run, size)));
    let refused = Refusal::UnusableWindowSize { least: WindowSize { rows: 2, cols: 2 } };
    assert_eq!(fitted(&mut session, run, size), Err(Response::Refused(refused)));
    let window = session.window(Vec::new()).expect("window");
    assert_eq!(window.size, WindowSize { rows: 24, cols: 80 });
    assert_eq!(session.state(), State::Running);
}

#[test]
fn the_smallest_drawable_window_is_the_limit_for_a_resize_too() {
    let (mut session, run) = running(7);
    let smallest = WindowSize { rows: 2, cols: 2 };
    assert_eq!(session.fitted(run, smallest), Ok(()));
    for size in [WindowSize { rows: 1, cols: 80 }, WindowSize { rows: 24, cols: 1 }] {
        let refused = session.fitted(run, size).expect_err("fit");
        assert_eq!(refused, Refusal::UnusableWindowSize { least: smallest }, "{size:?}");
        assert_eq!(session.window(Vec::new()).expect("window").size, smallest, "{size:?}");
    }
    assert_eq!(session.state(), State::Running);
}

#[test]
fn a_stop_is_gentle_first_and_forcible_once_the_grace_runs_out() {
    let (mut session, run) = running(4711);
    match act(&session, Request::Stop { grace_ms: 200 }, Vec::new()) {
        Step::Stop { run: stopping, shot, patience_ms } => {
            assert_eq!(stopping, run);
            assert_eq!(shot, Some(Shot { target: -4711, signal: Signal::Terminate }));
            assert_eq!(patience_ms, Some(200));
        }
        other => panic!("expected a stop, got {other:?}"),
    }
    match session.grace_over(run) {
        Stop::Waiting { run: stopping, shot, patience_ms } => {
            assert_eq!(stopping, run);
            assert_eq!(shot, Some(Shot { target: -4711, signal: Signal::Kill }));
            assert_eq!(patience_ms, None);
        }
        other => panic!("expected to wait, got {other:?}"),
    }
    let exit = session.reaped(run, Some((None, Some(9))), b"last".to_vec());
    let window = Window { size: WindowSize { rows: 24, cols: 80 }, contents: b"last".to_vec() };
    let killed = State::Exited { code: None, signal: Some(9), window };
    assert_eq!(stopped(&exit), Response::State(killed.clone()));
    assert_eq!(session.state(), killed);
}

#[test]
fn no_signal_is_sent_to_a_number_that_may_be_another_process() {
    let (mut session, run) = running(7);
    session.released(run);
    assert_eq!(session.state(), State::Running);
    match session.stop(200).expect("stop") {
        Stop::Waiting { shot, patience_ms, .. } => {
            assert_eq!(shot, None);
            assert_eq!(patience_ms, Some(200));
        }
        other => panic!("expected to wait, got {other:?}"),
    }
    assert!(matches!(session.grace_over(run), Stop::Waiting { shot: None, .. }));
}

#[test]
fn the_last_window_outlives_the_process() {
    let (session, _) = ended(7, 0, b"farewell");
    let window = session.window(b"something else".to_vec()).expect("window");
    assert_eq!(window.contents, b"farewell");
}

#[test]
fn once_the_process_has_ended_there_is_only_one_window() {
    let (mut session, run) = ended(7, 0, b"settled");
    let ending = session.state();
    session.released(run);
    assert_eq!(session.reaped(run, Some((Some(1), None)), b"later".to_vec()), None);
    let _ = session.copied(run, b"aGk=");
    let _ = session.fitted(run, WindowSize { rows: 10, cols: 40 });
    assert_eq!(session.state(), ending);
    let State::Exited { window, .. } = ending else { panic!("expected an end") };
    assert_eq!(session.window(b"painted".to_vec()), Ok(window));
}

#[test]
fn an_end_that_nobody_could_tell_is_still_an_end() {
    let (mut session, run) = running(7);
    session.reaped(run, None, Vec::new()).expect("an end");
    assert!(matches!(session.state(), State::Exited { code: None, signal: None, .. }));
}

#[test]
fn a_second_process_is_refused_while_the_first_runs() {
    let mut session = Session::new();
    let late = launched(&session, spec(), 8).expect("launch");
    run_again(&mut session, 7);
    let response = answered(&session, Request::Start(spec()), b"");
    assert_eq!(response, Response::Refused(Refusal::AlreadyRunning));
    assert!(matches!(session.started(late), Err(Refusal::AlreadyRunning)));
    assert!(matches!(
        session.stop(0),
        Ok(Stop::Waiting { shot: Some(Shot { target: -7, .. }), .. })
    ));
}

#[test]
fn a_process_can_be_started_once_the_previous_one_ended() {
    let (mut session, first) = ended(7, 0, b"first");
    assert!(matches!(
        act(&session, Request::Start(spec()), Vec::new()),
        Step::Launch(_)
    ));
    let second = run_again(&mut session, 8);
    assert_ne!(first, second);
    assert_eq!(session.window(b"second".to_vec()).expect("window").contents, b"second");
}

#[test]
fn an_earlier_run_does_not_reach_the_next() {
    let (mut session, first) = ended(7, 0, b"first");
    let second = run_again(&mut session, 8);
    assert_eq!(session.copied(first, &encoded("from the first")), Ok(()));
    assert_eq!(session.clipboard(), Ok(None));
    session.released(first);
    assert_eq!(session.reaped(first, Some((Some(1), None)), Vec::new()), None);
    assert_eq!(session.state(), State::Running);
    assert!(matches!(session.grace_over(first), Stop::Waiting { shot: None, .. }));
    assert!(matches!(session.grace_over(second), Stop::Waiting { shot: Some(_), .. }));
}

#[test]
fn an_ended_process_takes_no_input_and_no_resize() {
    let (mut session, _) = ended(7, 0, b"done");
    let size = WindowSize { rows: 10, cols: 40 };
    for request in [Request::Input { data: b"x".to_vec() }, Request::Resize { size }] {
        let response = answered(&session, request, b"");
        assert_eq!(response, Response::Refused(Refusal::AlreadyExited));
    }
    assert_eq!(session.input(b"x".to_vec()), Err(Refusal::AlreadyExited));
    assert_eq!(session.resize(size), Err(Refusal::AlreadyExited));
}

#[test]
fn stopping_an_ended_process_reports_how_it_ended() {
    let (mut session, _) = ended(7, 3, b"");
    let response = answered(&session, Request::Stop { grace_ms: 1_000 }, b"");
    assert!(matches!(response, Response::State(State::Exited { code: Some(3), .. })));
}

#[test]
fn a_process_that_cannot_be_spawned_is_reported_and_leaves_nothing_behind() {
    let session = Session::new();
    let mut missing = spec();
    missing.command = "/nonexistent/agent-master-test-binary".to_string();
    let spawning =
        session.start(missing).expect("start").opened(Ok(())).expect("open").sized(Ok(()));
    let spawning = spawning.expect("size");
    assert_eq!(spawning.spec().command, "/nonexistent/agent-master-test-binary");
    let refused = spawning
        .spawned(Err(causes(&["No such file or directory (os error 2)"])))
        .expect_err("spawn");
    let said = "spawning /nonexistent/agent-master-test-binary: \
                No such file or directory (os error 2)";
    assert_eq!(refused, Refusal::Failed { message: said.to_string() });
    assert_eq!(started(Err(refused.clone())), Response::Refused(refused));
    assert_eq!(session.state(), State::NotStarted);
}

#[test]
fn every_step_of_a_start_may_fail() {
    let failed = |message: &str| Refusal::Failed { message: message.to_string() };
    let start = || Session::new().start(spec()).expect("start");
    assert_eq!(
        start().opened(Err(causes(&["no more terminals"]))).expect_err("open"),
        failed("opening a terminal: no more terminals")
    );
    let sizing = start().opened(Ok(())).expect("open");
    assert_eq!(sizing.size(), WindowSize { rows: 24, cols: 80 });
    assert_eq!(
        sizing.sized(Err(causes(&["no such size"]))).expect_err("size"),
        failed("sizing the terminal: no such size")
    );
    let spawning = || start().opened(Ok(())).expect("open").sized(Ok(())).expect("size");
    assert_eq!(
        spawning().spawned(Ok(None)).expect_err("spawn"),
        failed("the spawned process has no pid")
    );
    assert_eq!(
        spawning().spawned(Ok(Some(2_147_483_648))).expect_err("spawn"),
        failed(
            "the spawned process has an unreadable pid: \
             out of range integral type conversion attempted"
        )
    );
    assert_eq!(i32::try_from(2_147_483_648u32).map_err(|error| error.to_string()), Err(
        "out of range integral type conversion attempted".to_string()
    ));
    let launched = spawning().spawned(Ok(Some(2_147_483_647))).expect("spawn");
    assert_eq!(launched.leader(), i32::MAX);
    assert_eq!(started(Ok(State::Running)), Response::State(State::Running));
}

#[test]
fn a_failed_start_leaves_the_previous_run_as_it_was() {
    let (session, _) = ended(7, 5, b"before");
    let before = session.state();
    let spawning = session.start(spec()).expect("start").opened(Ok(())).expect("open");
    spawning.sized(Ok(())).expect("size").spawned(Err(causes(&["gone"]))).expect_err("spawn");
    assert_eq!(session.state(), before);
}

#[test]
fn the_clipboard_is_empty_until_the_process_puts_something_on_it() {
    let (session, _) = running(7);
    assert_eq!(session.clipboard(), Ok(None));
}

#[test]
fn what_the_process_copies_is_on_the_clipboard() {
    let (mut session, run) = running(7);
    assert_eq!(session.copied(run, &encoded("first thing")), Ok(()));
    assert_eq!(session.clipboard(), Ok(Some(b"first thing".to_vec())));
    let response = answered(&session, Request::Clipboard, b"");
    assert_eq!(response, Response::Clipboard { data: Some(b"first thing".to_vec()) });
}

#[test]
fn copying_nothing_is_not_the_same_as_copying_nothing_yet() {
    let (mut session, run) = running(7);
    assert_eq!(session.copied(run, b""), Ok(()));
    assert_eq!(session.clipboard(), Ok(Some(Vec::new())));
}

#[test]
fn a_copy_the_terminal_cannot_read_leaves_the_buffer_as_it_was() {
    let (mut session, run) = running(7);
    session.copied(run, &encoded("the good link")).expect("copy");
    assert_eq!(session.copied(run, b"aGk"), Err("Invalid padding".to_string()));
    assert_eq!(session.clipboard(), Ok(Some(b"the good link".to_vec())));
}

#[test]
fn a_copy_the_terminal_cannot_read_leaves_an_empty_buffer_empty() {
    let (mut session, run) = running(7);
    assert!(session.copied(run, b"aGk").is_err());
    assert_eq!(session.clipboard(), Ok(None));
    assert_eq!(session.state(), State::Running);
}

#[test]
fn a_later_copy_replaces_the_earlier_one() {
    let (mut session, run) = running(7);
    session.copied(run, &encoded("first thing")).expect("copy");
    session.copied(run, &encoded("second thing")).expect("copy");
    assert_eq!(session.clipboard(), Ok(Some(b"second thing".to_vec())));
}

#[test]
fn what_was_copied_outlives_the_process() {
    let (mut session, run) = running(7);
    session.copied(run, &encoded("outlives me")).expect("copy");
    session.reaped(run, Some((Some(0), None)), Vec::new()).expect("an end");
    assert_eq!(session.clipboard(), Ok(Some(b"outlives me".to_vec())));
}

#[test]
fn a_new_process_starts_with_an_empty_clipboard() {
    let (mut session, run) = running(7);
    session.copied(run, &encoded("from the first")).expect("copy");
    session.reaped(run, Some((Some(0), None)), Vec::new()).expect("an end");
    assert_eq!(session.clipboard(), Ok(Some(b"from the first".to_vec())));

    run_again(&mut session, 8);
    assert_eq!(session.clipboard(), Ok(None));
}

#[test]
fn a_clipboard_takes_a_copy_too_big_for_one_read() {
    let mut clipboard = Clipboard::new();
    assert_eq!(clipboard.contents(), None);
    let huge = "abcdefghij".repeat(1_200);
    assert_eq!(clipboard.copy_to_clipboard(&encoded(&huge)), Ok(()));
    assert_eq!(clipboard.contents(), Some(huge.into_bytes()));
}

#[test]
fn an_unreadable_request_is_answered_without_dropping_the_connection() {
    match converse(Incoming::Unreadable("not a request".to_string())) {
        Turn::Answer(Response::Refused(Refusal::Unreadable { message })) => {
            assert_eq!(message, "not a request");
        }
        other => panic!("expected a refusal, got {other:?}"),
    }
    match converse(Incoming::Message(Request::State)) {
        Turn::Act(request) => assert_eq!(request, Request::State),
        other => panic!("the connection did not survive the unreadable request: {other:?}"),
    }
    assert!(matches!(converse(Incoming::Ended), Turn::Close));
}

#[test]
fn a_client_understands_every_answer_of_the_server() {
    let (live, _) = running(7);
    for session in [Session::new(), live, ended(7, 0, b"last").0] {
        let mut complaints = Vec::new();
        let mut note = |error: Option<Error>| complaints.extend(error);
        let answer = |request| match act(&session, request, b"painted".to_vec()) {
            Step::Answer(response) => response,
            Step::Launch(_) => started(Ok(State::Running)),
            Step::Type { .. } => typed(Ok(())),
            Step::Resize { .. } => resized(Ok(())),
            Step::Stop { .. } => stopped(&None),
        };
        let asked = |request| Incoming::Message(answer(request));
        let size = WindowSize { rows: 10, cols: 40 };
        note(AgentMaster::start(asked(Request::Start(spec()))).err());
        note(AgentMaster::window(asked(Request::Window)).err());
        note(AgentMaster::input(asked(Request::Input { data: b"x".to_vec() })).err());
        note(AgentMaster::resize(asked(Request::Resize { size })).err());
        note(AgentMaster::stop(asked(Request::Stop { grace_ms: 1 })).err());
        note(AgentMaster::state(asked(Request::State)).err());
        note(AgentMaster::clipboard(asked(Request::Clipboard)).err());
        for complaint in complaints {
            assert!(matches!(complaint, Error::Refused(_)), "{complaint:?}");
        }
    }
}

#[test]
fn a_released_number_stays_released() {
    let (mut session, run) = running(7);
    session.released(run);
    session.fitted(run, WindowSize { rows: 10, cols: 40 }).expect("fit");
    session.copied(run, b"aGk=").expect("copy");
    assert!(matches!(session.stop(0), Ok(Stop::Waiting { shot: None, .. })));
    session.reaped(run, Some((Some(0), None)), Vec::new()).expect("an end");
    assert!(matches!(session.grace_over(run), Stop::Waiting { shot: None, .. }));
}

#[test]
fn a_clipboard_takes_what_was_read_and_complains_of_what_was_not() {
    let mut clipboard = Clipboard::default();
    assert_eq!(clipboard.take(Err("no text".to_string())), Err("no text".to_string()));
    assert_eq!(clipboard.contents(), None);
    assert_eq!(clipboard.take(Ok(b"copied".to_vec())), Ok(()));
    assert_eq!(clipboard.take(Err("no text".to_string())), Err("no text".to_string()));
    assert_eq!(clipboard.contents(), Some(b"copied".to_vec()));
}

#[test]
fn a_session_takes_what_its_own_run_copied() {
    let (mut session, run) = running(7);
    assert_eq!(session.take(run + 1, Ok(b"another".to_vec())), Ok(()));
    assert_eq!(session.take(run + 1, Err("no text".to_string())), Ok(()));
    assert_eq!(session.clipboard(), Ok(None));
    assert_eq!(session.take(run, Err("no text".to_string())), Err("no text".to_string()));
    assert_eq!(session.take(run, Ok(b"its own".to_vec())), Ok(()));
    assert_eq!(session.clipboard(), Ok(Some(b"its own".to_vec())));
}

#[test]
fn a_session_begins_as_one_that_has_started_nothing() {
    assert_eq!(Session::default().state(), State::NotStarted);
    assert_eq!(Session::new().state(), State::NotStarted);
}

#[test]
fn what_was_started_stays_started() {
    let (mut session, run) = ended(7, 0, b"");
    session.released(run);
    session.fitted(run, WindowSize { rows: 10, cols: 40 }).expect("fit");
    assert_ne!(session.state(), State::NotStarted);
    run_again(&mut session, 8);
    assert_ne!(session.state(), State::NotStarted);
}

#[test]
fn the_last_frame_is_waited_for_a_fifth_of_a_second() {
    assert_eq!(LAST_FRAME_WAIT_MS, 200);
}
