use agent_master::client::{ask, AgentMaster, Error};
use agent_master::environment::Environment;
use agent_master::protocol::{
    Incoming, ProcessSpec, Refusal, Request, Response, State, Window, WindowSize,
};

fn window() -> Window {
    Window { size: WindowSize { rows: 24, cols: 80 }, contents: b"painted".to_vec() }
}

fn answering(answer: Response) -> Incoming<Response> {
    Incoming::Message(answer)
}

#[test]
fn a_peer_that_hangs_up_is_reported() {
    assert_eq!(AgentMaster::state(Incoming::Ended), Err(Error::HungUp));
}

#[test]
fn an_answer_that_is_not_a_reply_is_reported() {
    let said = Incoming::Unreadable("expected value: gibberish".to_string());
    match AgentMaster::state(said).expect_err("state") {
        Error::Unreadable(complaint) => assert!(complaint.contains("gibberish"), "{complaint}"),
        other => panic!("{other:?}"),
    }
}

#[test]
fn a_refusal_arrives_as_itself() {
    let refused = Response::Refused(Refusal::AlreadyRunning);
    let error = AgentMaster::state(answering(refused)).expect_err("state");
    assert_eq!(error, Error::Refused(Refusal::AlreadyRunning));
}

#[test]
fn an_answer_to_a_different_question_is_reported() {
    let error = AgentMaster::state(answering(Response::Done)).expect_err("state");
    assert_eq!(error, Error::Mismatched { asked: "state", answer: "done" });

    let error = AgentMaster::input(answering(Response::Window(window()))).expect_err("input");
    assert_eq!(error, Error::Mismatched { asked: "input", answer: "a window" });

    let error = AgentMaster::window(answering(Response::State(State::Running))).expect_err("window");
    assert_eq!(error, Error::Mismatched { asked: "window", answer: "a state" });

    let error = AgentMaster::stop(answering(Response::Done)).expect_err("stop");
    assert_eq!(error, Error::Mismatched { asked: "stop", answer: "done" });

    let error = AgentMaster::resize(answering(Response::Window(window()))).expect_err("resize");
    assert_eq!(error, Error::Mismatched { asked: "resize", answer: "a window" });

    let error = AgentMaster::clipboard(answering(Response::Done)).expect_err("clipboard");
    assert_eq!(error, Error::Mismatched { asked: "clipboard", answer: "done" });

    let error =
        AgentMaster::state(answering(Response::Clipboard { data: None })).expect_err("state");
    assert_eq!(error, Error::Mismatched { asked: "state", answer: "a clipboard" });
}

#[test]
fn an_answer_to_a_start_that_is_not_a_state_is_reported() {
    let error = AgentMaster::start(answering(Response::Done)).expect_err("start");
    assert_eq!(error, Error::Mismatched { asked: "start", answer: "done" });
}

#[test]
fn a_peer_that_went_away_is_reported_on_the_next_question_too() {
    assert_eq!(AgentMaster::state(Incoming::Ended), Err(Error::HungUp));
    assert_eq!(AgentMaster::state(Incoming::Ended), Err(Error::HungUp));
}

#[test]
fn an_answer_to_the_question_is_taken() {
    let running = || answering(Response::State(State::Running));
    assert_eq!(AgentMaster::start(running()), Ok(State::Running));
    assert_eq!(AgentMaster::stop(running()), Ok(State::Running));
    assert_eq!(AgentMaster::state(running()), Ok(State::Running));
    assert_eq!(AgentMaster::window(answering(Response::Window(window()))), Ok(window()));
    assert_eq!(AgentMaster::input(answering(Response::Done)), Ok(()));
    assert_eq!(AgentMaster::resize(answering(Response::Done)), Ok(()));
    let copied = Response::Clipboard { data: Some(b"copied".to_vec()) };
    assert_eq!(AgentMaster::clipboard(answering(copied)), Ok(Some(b"copied".to_vec())));
    assert_eq!(ask(answering(Response::Done)), Ok(Response::Done));
}

#[test]
fn the_grace_travels_as_whole_milliseconds_and_never_overflows() {
    for (grace, expected) in [
        (std::time::Duration::from_millis(250), 250),
        (std::time::Duration::from_micros(250_999), 250),
        (std::time::Duration::MAX, u64::MAX),
    ] {
        assert_eq!(AgentMaster::stop_request(grace.as_millis()), Request::Stop { grace_ms: expected });
    }
    assert_eq!(
        AgentMaster::stop_request(u128::from(u64::MAX) + 1),
        Request::Stop { grace_ms: u64::MAX }
    );
}

#[test]
fn every_complaint_reads_plainly() {
    let unreachable = std::io::Error::new(std::io::ErrorKind::ConnectionRefused, "no one");
    let unreachable = Error::Unreachable(unreachable.to_string());
    assert_eq!(unreachable.to_string(), "cannot reach agent-master: no one");
    assert_eq!(Error::HungUp.to_string(), "agent-master hung up");
    assert_eq!(
        Error::Unreadable("gibberish".to_string()).to_string(),
        "agent-master said something unreadable: gibberish"
    );
    assert_eq!(
        Error::Refused(Refusal::AlreadyRunning).to_string(),
        "agent-master refused: a process is already running"
    );
    assert_eq!(
        Error::Mismatched { asked: "state", answer: "done" }.to_string(),
        "agent-master answered done to state"
    );
}

#[test]
fn every_question_is_asked_as_it_is_called() {
    let size = WindowSize { rows: 24, cols: 80 };
    let spec = ProcessSpec {
        command: "sh".to_string(),
        args: vec!["-c".to_string()],
        cwd: "/".to_string(),
        env: Environment::new(),
        size,
    };
    assert_eq!(AgentMaster::start_request(spec.clone()), Request::Start(spec));
    assert_eq!(AgentMaster::window_request(), Request::Window);
    let typed = Request::Input { data: b"\x1b[A".to_vec() };
    assert_eq!(AgentMaster::input_request(b"\x1b[A"), typed);
    assert_eq!(AgentMaster::resize_request(size), Request::Resize { size });
    assert_eq!(AgentMaster::state_request(), Request::State);
    assert_eq!(AgentMaster::clipboard_request(), Request::Clipboard);
}
