//! Answering clients: what each line that comes in is answered, or what is to be done
//! before it can be.
use vstd::prelude::*;

use crate::launch;
use crate::launch::{failed_while, sized, Opening};
use crate::protocol::{
    Incoming, IncomingView, ProcessSpecView, Refusal, RefusalView, Request, RequestView, Response,
    ResponseView, State, StateView, WindowSize,
};
use crate::session;
use crate::session::{state_of, Exit, Session, SessionView, Shot, Stop, StopView};

verus! {

/// What a connection does next.
#[derive(Debug)]
pub enum Turn {
    /// The request is to be acted on.
    Act(Request),
    /// The response is to be written.
    Answer(Response),
    /// The connection is to be closed.
    Close,
}

/// What a `Turn` says.
pub enum TurnView {
    Act(Request),
    Answer(ResponseView),
    Close,
}

impl View for Turn {
    type V = TurnView;

    open spec fn view(&self) -> TurnView {
        match self {
            Turn::Act(request) => TurnView::Act(*request),
            Turn::Answer(response) => TurnView::Answer(response@),
            Turn::Close => TurnView::Close,
        }
    }
}

/// What a connection does about what came in: a line that is no request is answered
/// as such, and does not end the conversation.
pub open spec fn turn(incoming: IncomingView<Request>) -> TurnView {
    match incoming {
        IncomingView::Message(request) => TurnView::Act(request),
        IncomingView::Unreadable(message) => TurnView::Answer(
            ResponseView::Refused(RefusalView::Unreadable { message }),
        ),
        IncomingView::Ended => TurnView::Close,
    }
}

/// Tells what a connection does about what came in.
pub fn converse(incoming: Incoming<Request>) -> (next: Turn)
    ensures
        next@ == turn(incoming@),
{
    match incoming {
        Incoming::Message(request) => Turn::Act(request),
        Incoming::Unreadable(message) => Turn::Answer(
            Response::Refused(Refusal::Unreadable { message }),
        ),
        Incoming::Ended => Turn::Close,
    }
}

/// What comes of a request: its answer, or what is to be done first.
#[derive(Debug)]
pub enum Step {
    /// The response is to be written.
    Answer(Response),
    /// A process is to be launched.
    Launch(Opening),
    /// The bytes are to be typed into the terminal.
    Type { data: Vec<u8> },
    /// The terminal of the run is to be given the size, once nothing is typed into it any
    /// more.
    Resize { run: u64, size: WindowSize },
    /// The signal is to be sent, where there is one, and the end of the run waited for,
    /// no longer than so many milliseconds.
    Stop { run: u64, shot: Option<Shot>, patience_ms: Option<u64> },
}

/// What a `Step` says.
pub enum StepView {
    Answer(ResponseView),
    Launch(ProcessSpecView),
    Type { data: Seq<u8> },
    Resize { run: u64, size: WindowSize },
    Stop { run: u64, shot: Option<Shot>, patience_ms: Option<u64> },
}

impl View for Step {
    type V = StepView;

    open spec fn view(&self) -> StepView {
        match self {
            Step::Answer(response) => StepView::Answer(response@),
            Step::Launch(opening) => StepView::Launch(opening@@),
            Step::Type { data } => StepView::Type { data: data@ },
            Step::Resize { run, size } => StepView::Resize { run: *run, size: *size },
            Step::Stop { run, shot, patience_ms } => StepView::Stop {
                run: *run,
                shot: *shot,
                patience_ms: *patience_ms,
            },
        }
    }
}

/// The step that refuses.
pub open spec fn refused(refusal: RefusalView) -> StepView {
    StepView::Answer(ResponseView::Refused(refusal))
}

/// What comes of a request, `painted` being what the emulator shows.
pub open spec fn step(session: SessionView, request: RequestView, painted: Seq<u8>) -> StepView {
    match request {
        RequestView::Start(spec) => if session::runs(session) {
            refused(RefusalView::AlreadyRunning)
        } else {
            StepView::Launch(spec)
        },
        RequestView::Window => match session::session_window(session, painted) {
            Ok(window) => StepView::Answer(ResponseView::Window(window)),
            Err(refusal) => refused(refusal),
        },
        RequestView::Input { data } => match session::not_live(session) {
            Some(refusal) => refused(refusal),
            None => StepView::Type { data },
        },
        RequestView::Resize { size } => match session::not_live(session) {
            Some(refusal) => refused(refusal),
            None => StepView::Resize { run: session.process->0.run, size },
        },
        RequestView::Stop { grace_ms } => match session::stop_begun(session, grace_ms) {
            Ok(StopView::Over(state)) => StepView::Answer(ResponseView::State(state)),
            Ok(StopView::Waiting { run, shot, patience_ms }) => StepView::Stop {
                run,
                shot,
                patience_ms,
            },
            Err(refusal) => refused(refusal),
        },
        RequestView::State => StepView::Answer(
            ResponseView::State(session::session_state(session)),
        ),
        RequestView::Clipboard => match session::session_clipboard(session) {
            Ok(data) => StepView::Answer(ResponseView::Clipboard { data }),
            Err(refusal) => refused(refusal),
        },
    }
}

/// Acts on a request. `painted` is what the emulator shows; it matters where the window
/// is asked for.
pub fn act(session: &Session, request: Request, painted: Vec<u8>) -> (next: Step)
    ensures
        next@ == step(session@, request@, painted@),
{
    let done = match request {
        Request::Start(spec) => match session.start(spec) {
            Ok(opening) => Ok(Step::Launch(opening)),
            Err(refusal) => Err(refusal),
        },
        Request::Window => match session.window(painted) {
            Ok(window) => Ok(Step::Answer(Response::Window(window))),
            Err(refusal) => Err(refusal),
        },
        Request::Input { data } => match session.input(data) {
            Ok(data) => Ok(Step::Type { data }),
            Err(refusal) => Err(refusal),
        },
        Request::Resize { size } => match session.resize(size) {
            Ok((run, size)) => Ok(Step::Resize { run, size }),
            Err(refusal) => Err(refusal),
        },
        Request::Stop { grace_ms } => match session.stop(grace_ms) {
            Ok(Stop::Over(state)) => Ok(Step::Answer(Response::State(state))),
            Ok(Stop::Waiting { run, shot, patience_ms }) => Ok(
                Step::Stop { run, shot, patience_ms },
            ),
            Err(refusal) => Err(refusal),
        },
        Request::State => Ok(Step::Answer(Response::State(session.state()))),
        Request::Clipboard => match session.clipboard() {
            Ok(data) => Ok(Step::Answer(Response::Clipboard { data })),
            Err(refusal) => Err(refusal),
        },
    };
    match done {
        Ok(next) => next,
        Err(refusal) => Step::Answer(Response::Refused(refusal)),
    }
}

/// What a start is answered: the state of the process, or why there is none.
pub open spec fn start_answer(outcome: Result<StateView, RefusalView>) -> ResponseView {
    match outcome {
        Ok(state) => ResponseView::State(state),
        Err(refusal) => ResponseView::Refused(refusal),
    }
}

/// What a start came to.
pub open spec fn start_view(outcome: Result<State, Refusal>) -> Result<StateView, RefusalView> {
    match outcome {
        Ok(state) => Ok(state@),
        Err(refusal) => Err(refusal@),
    }
}

/// Answers a start, once its process runs or its launch was refused.
pub fn started(outcome: Result<State, Refusal>) -> (response: Response)
    ensures
        response@ == start_answer(start_view(outcome)),
{
    match outcome {
        Ok(state) => Response::State(state),
        Err(refusal) => Response::Refused(refusal),
    }
}

/// What an input is answered once it was typed, or was not.
pub open spec fn input_answer(typed: Result<(), Seq<Seq<char>>>) -> ResponseView {
    match typed {
        Ok(_) => ResponseView::Done,
        Err(causes) => ResponseView::Refused(
            launch::failure_while("typing into the terminal"@, causes),
        ),
    }
}

/// Answers an input, once it was typed or was not.
pub fn typed(done: Result<(), Vec<String>>) -> (response: Response)
    ensures
        response@ == input_answer(launch::done_view(done)),
{
    match done {
        Ok(_) => Response::Done,
        Err(causes) => Response::Refused(
            failed_while("typing into the terminal".to_owned(), causes),
        ),
    }
}

/// Notes that the terminal of a run is to be given a size now, or answers why it is not.
pub fn fitted(session: &mut Session, run: u64, size: WindowSize) -> (outcome: Result<(), Response>)
    ensures
        final(session)@ == session::after_fit(old(session)@, run, size),
        outcome is Ok <==> session::fit_refused(size) is None,
        outcome matches Err(response) ==> session::fit_refused(size) matches Some(refusal)
            && response@ == ResponseView::Refused(refusal),
{
    match session.fitted(run, size) {
        Ok(_) => Ok(()),
        Err(refusal) => Err(Response::Refused(refusal)),
    }
}

/// What a resize is answered once the terminal was given its size, or was not.
pub open spec fn resize_answer(sized: Result<(), Seq<Seq<char>>>) -> ResponseView {
    match launch::size_refused(sized) {
        None => ResponseView::Done,
        Some(refusal) => ResponseView::Refused(refusal),
    }
}

/// Answers a resize, once the terminal was given its size or was not.
pub fn resized(done: Result<(), Vec<String>>) -> (response: Response)
    ensures
        response@ == resize_answer(launch::done_view(done)),
{
    match sized(done) {
        Ok(_) => Response::Done,
        Err(refusal) => Response::Refused(refusal),
    }
}

/// What a stop is answered once the run that it waited for has ended.
pub open spec fn stop_answer(exit: Option<session::ExitView>) -> ResponseView {
    ResponseView::State(session::state_after(exit))
}

/// Answers a stop, once the run that it waited for has ended.
pub fn stopped(exit: &Option<Exit>) -> (response: Response)
    ensures
        response@ == stop_answer(session::ending(*exit)),
{
    Response::State(state_of(exit))
}

} // verus!
