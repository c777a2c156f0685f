//! Asking: what a client makes of the answers that it gets.
use vstd::prelude::*;
use vstd::string::StringExecFns;

use crate::protocol;
use crate::protocol::{
    Incoming, IncomingView, ProcessSpec, Refusal, RefusalView, Request, RequestView, Response,
    ResponseView, State, StateView, Window, WindowSize, WindowView,
};

verus! {

/// Why a question got no answer.
#[derive(Debug, Clone, PartialEq, Eq)]
pub enum Error {
    Unreachable(String),
    HungUp,
    Unreadable(String),
    Refused(Refusal),
    Mismatched { asked: &'static str, answer: &'static str },
}

/// What an `Error` says.
pub enum ErrorView {
    Unreachable(Seq<char>),
    HungUp,
    Unreadable(Seq<char>),
    Refused(RefusalView),
    Mismatched { asked: Seq<char>, answer: Seq<char> },
}

impl View for Error {
    type V = ErrorView;

    open spec fn view(&self) -> ErrorView {
        match self {
            Error::Unreachable(cause) => ErrorView::Unreachable(cause@),
            Error::HungUp => ErrorView::HungUp,
            Error::Unreadable(complaint) => ErrorView::Unreadable(complaint@),
            Error::Refused(refusal) => ErrorView::Refused(refusal@),
            Error::Mismatched { asked, answer } => ErrorView::Mismatched {
                asked: asked@,
                answer: answer@,
            },
        }
    }
}

/// How an error reads.
pub open spec fn error_text(error: ErrorView) -> Seq<char> {
    match error {
        ErrorView::Unreachable(cause) => "cannot reach agent-master: "@ + cause,
        ErrorView::HungUp => "agent-master hung up"@,
        ErrorView::Unreadable(complaint) => "agent-master said something unreadable: "@ + complaint,
        ErrorView::Refused(refusal) => "agent-master refused: "@ + protocol::refusal_text(refusal),
        ErrorView::Mismatched { asked, answer } => "agent-master answered "@ + answer + " to "@
            + asked,
    }
}

impl Error {
    /// Says in words why the question got no answer.
    pub fn to_string(&self) -> (said: String)
        ensures
            said@ == error_text(self@),
    {
        match self {
            Error::Unreachable(cause) => "cannot reach agent-master: ".to_owned().concat(
                cause.as_str(),
            ),
            Error::HungUp => "agent-master hung up".to_owned(),
            Error::Unreadable(complaint) => {
                "agent-master said something unreadable: ".to_owned().concat(complaint.as_str())
            },
            Error::Refused(refusal) => "agent-master refused: ".to_owned().concat(
                refusal.to_string().as_str(),
            ),
            Error::Mismatched { asked, answer } => "agent-master answered ".to_owned().concat(
                answer,
            ).concat(" to ").concat(asked),
        }
    }
}

/// The milliseconds of a grace as a stop carries them: no more than it can hold.
pub open spec fn carried_grace(millis: u128) -> u64 {
    if millis <= u64::MAX {
        millis as u64
    } else {
        u64::MAX
    }
}

/// What a question is answered with: a response, or the reason why there is none.
pub open spec fn answer(incoming: IncomingView<Response>) -> Result<ResponseView, ErrorView> {
    match incoming {
        IncomingView::Message(response) => match response@ {
            ResponseView::Refused(refusal) => Err(ErrorView::Refused(refusal)),
            other => Ok(other),
        },
        IncomingView::Unreadable(complaint) => Err(ErrorView::Unreadable(complaint)),
        IncomingView::Ended => Err(ErrorView::HungUp),
    }
}

/// Tells what a question is answered with.
pub fn ask(incoming: Incoming<Response>) -> (outcome: Result<Response, Error>)
    ensures
        outcome matches Ok(response) ==> answer(incoming@) == Result::<
            ResponseView,
            ErrorView,
        >::Ok(response@),
        outcome matches Err(error) ==> answer(incoming@) == Result::<
            ResponseView,
            ErrorView,
        >::Err(error@),
{
    match incoming {
        Incoming::Message(Response::Refused(refusal)) => Err(Error::Refused(refusal)),
        Incoming::Message(response) => Ok(response),
        Incoming::Unreadable(message) => Err(Error::Unreadable(message)),
        Incoming::Ended => Err(Error::HungUp),
    }
}

/// What a response is called when it answers another question.
pub open spec fn called(response: ResponseView) -> Seq<char> {
    match response {
        ResponseView::Done => "done"@,
        ResponseView::Window(_) => "a window"@,
        ResponseView::State(_) => "a state"@,
        ResponseView::Clipboard { .. } => "a clipboard"@,
        ResponseView::Refused(_) => "a refusal"@,
    }
}

/// The error of a response that answers another question than the one asked.
pub open spec fn mismatched(asked: Seq<char>, response: ResponseView) -> ErrorView {
    ErrorView::Mismatched { asked, answer: called(response) }
}

/// Complains of a response that answers another question than the one asked.
pub fn mismatch(asked: &'static str, answer: &Response) -> (error: Error)
    ensures
        error@ == mismatched(asked@, answer@),
{
    let answer = match answer {
        Response::Done => "done",
        Response::Window(_) => "a window",
        Response::State(_) => "a state",
        Response::Clipboard { .. } => "a clipboard",
        Response::Refused(_) => "a refusal",
    };
    Error::Mismatched { asked, answer }
}

/// Takes the state out of the response to a question that asks for one.
pub fn expect_state(response: Response, asked: &'static str) -> (outcome: Result<State, Error>)
    ensures
        outcome is Ok <==> response@ is State,
        outcome matches Ok(state) ==> response@ == ResponseView::State(state@),
        outcome matches Err(error) ==> error@ == mismatched(asked@, response@),
{
    match response {
        Response::State(state) => Ok(state),
        other => Err(mismatch(asked, &other)),
    }
}

/// Takes note that what was asked for is done.
pub fn expect_done(response: Response, asked: &'static str) -> (outcome: Result<(), Error>)
    ensures
        outcome is Ok <==> response@ is Done,
        outcome matches Err(error) ==> error@ == mismatched(asked@, response@),
{
    match response {
        Response::Done => Ok(()),
        other => Err(mismatch(asked, &other)),
    }
}

/// Takes the window out of the response to a question that asks for one.
pub fn expect_window(response: Response, asked: &'static str) -> (outcome: Result<Window, Error>)
    ensures
        outcome is Ok <==> response@ is Window,
        outcome matches Ok(window) ==> response@ == ResponseView::Window(window@),
        outcome matches Err(error) ==> error@ == mismatched(asked@, response@),
{
    match response {
        Response::Window(window) => Ok(window),
        other => Err(mismatch(asked, &other)),
    }
}

/// Takes the clipboard out of the response to a question that asks for it.
pub fn expect_clipboard(response: Response, asked: &'static str) -> (outcome: Result<
    Option<Vec<u8>>,
    Error,
>)
    ensures
        outcome is Ok <==> response@ is Clipboard,
        outcome matches Ok(data) ==> response@ == (ResponseView::Clipboard {
            data: crate::base64_bytes_or_nothing::held(data),
        }),
        outcome matches Err(error) ==> error@ == mismatched(asked@, response@),
{
    match response {
        Response::Clipboard { data } => Ok(data),
        other => Err(mismatch(asked, &other)),
    }
}

/// A reading of what came in for an answer to the question `asked`: what `take` finds
/// in a response of the kind that was asked for, or the reason why there is none.
pub open spec fn reading<V>(
    asked: Seq<char>,
    incoming: IncomingView<Response>,
    take: spec_fn(ResponseView) -> Option<V>,
) -> Result<V, ErrorView> {
    match answer(incoming) {
        Err(error) => Err(error),
        Ok(response) => match take(response) {
            Some(value) => Ok(value),
            None => Err(mismatched(asked, response)),
        },
    }
}

/// The state that a response gives.
pub open spec fn state_in(response: ResponseView) -> Option<StateView> {
    match response {
        ResponseView::State(state) => Some(state),
        _ => None,
    }
}

/// The window that a response gives.
pub open spec fn window_in(response: ResponseView) -> Option<WindowView> {
    match response {
        ResponseView::Window(window) => Some(window),
        _ => None,
    }
}

/// The clipboard that a response gives.
pub open spec fn clipboard_in(response: ResponseView) -> Option<Option<Seq<u8>>> {
    match response {
        ResponseView::Clipboard { data } => Some(data),
        _ => None,
    }
}

/// That a response says that something is done.
pub open spec fn done_in(response: ResponseView) -> Option<()> {
    match response {
        ResponseView::Done => Some(()),
        _ => None,
    }
}

/// What came of a question for a state.
pub open spec fn state_outcome(outcome: Result<State, Error>) -> Result<StateView, ErrorView> {
    match outcome {
        Ok(state) => Ok(state@),
        Err(error) => Err(error@),
    }
}

/// What came of a question for a window.
pub open spec fn window_outcome(outcome: Result<Window, Error>) -> Result<WindowView, ErrorView> {
    match outcome {
        Ok(window) => Ok(window@),
        Err(error) => Err(error@),
    }
}

/// What came of a question for the clipboard.
pub open spec fn clipboard_outcome(outcome: Result<Option<Vec<u8>>, Error>) -> Result<
    Option<Seq<u8>>,
    ErrorView,
> {
    match outcome {
        Ok(data) => Ok(crate::base64_bytes_or_nothing::held(data)),
        Err(error) => Err(error@),
    }
}

/// What came of asking for something to be done.
pub open spec fn done_outcome(outcome: Result<(), Error>) -> Result<(), ErrorView> {
    match outcome {
        Ok(_) => Ok(()),
        Err(error) => Err(error@),
    }
}

/// A client of the one process: for each operation the request that asks for it, and what
/// is made of the answer that came in.
pub struct AgentMaster;

impl AgentMaster {
    /// Asks for a process to be started.
    pub fn start_request(spec: ProcessSpec) -> (request: Request)
        ensures
            request@ == RequestView::Start(spec@),
    {
        Request::Start(spec)
    }

    /// Asks for the window.
    pub fn window_request() -> (request: Request)
        ensures
            request@ == RequestView::Window,
    {
        Request::Window
    }

    /// Asks for these bytes to be typed.
    pub fn input_request(data: &[u8]) -> (request: Request)
        ensures
            request@ == (RequestView::Input { data: data@ }),
    {
        Request::Input { data: vstd::slice::slice_to_vec(data) }
    }

    /// Asks for the window to be given another size.
    pub fn resize_request(size: WindowSize) -> (request: Request)
        ensures
            request@ == (RequestView::Resize { size }),
    {
        Request::Resize { size }
    }

    /// Asks for the process to be stopped with a grace of so many milliseconds.
    pub fn stop_request(millis: u128) -> (request: Request)
        ensures
            request@ == (RequestView::Stop { grace_ms: carried_grace(millis) }),
    {
        let grace_ms: u64 = if millis <= u64::MAX as u128 {
            millis as u64
        } else {
            u64::MAX
        };
        Request::Stop { grace_ms }
    }

    /// Asks for the state.
    pub fn state_request() -> (request: Request)
        ensures
            request@ == RequestView::State,
    {
        Request::State
    }

    /// Asks for the clipboard.
    pub fn clipboard_request() -> (request: Request)
        ensures
            request@ == RequestView::Clipboard,
    {
        Request::Clipboard
    }

    /// The state of the process that was to be started.
    pub fn start(incoming: Incoming<Response>) -> (outcome: Result<State, Error>)
        ensures
            state_outcome(outcome) == reading("start"@, incoming@, |r: ResponseView| state_in(r)),
    {
        match ask(incoming) {
            Ok(response) => expect_state(response, "start"),
            Err(error) => Err(error),
        }
    }

    /// The window.
    pub fn window(incoming: Incoming<Response>) -> (outcome: Result<Window, Error>)
        ensures
            window_outcome(outcome) == reading(
                "window"@,
                incoming@,
                |r: ResponseView| window_in(r),
            ),
    {
        match ask(incoming) {
            Ok(response) => expect_window(response, "window"),
            Err(error) => Err(error),
        }
    }

    /// That the input was typed.
    pub fn input(incoming: Incoming<Response>) -> (outcome: Result<(), Error>)
        ensures
            done_outcome(outcome) == reading("input"@, incoming@, |r: ResponseView| done_in(r)),
    {
        match ask(incoming) {
            Ok(response) => expect_done(response, "input"),
            Err(error) => Err(error),
        }
    }

    /// That the window has its new size.
    pub fn resize(incoming: Incoming<Response>) -> (outcome: Result<(), Error>)
        ensures
            done_outcome(outcome) == reading("resize"@, incoming@, |r: ResponseView| done_in(r)),
    {
        match ask(incoming) {
            Ok(response) => expect_done(response, "resize"),
            Err(error) => Err(error),
        }
    }

    /// The state of the process that was to be stopped.
    pub fn stop(incoming: Incoming<Response>) -> (outcome: Result<State, Error>)
        ensures
            state_outcome(outcome) == reading("stop"@, incoming@, |r: ResponseView| state_in(r)),
    {
        match ask(incoming) {
            Ok(response) => expect_state(response, "stop"),
            Err(error) => Err(error),
        }
    }

    /// The state of the process.
    pub fn state(incoming: Incoming<Response>) -> (outcome: Result<State, Error>)
        ensures
            state_outcome(outcome) == reading("state"@, incoming@, |r: ResponseView| state_in(r)),
    {
        match ask(incoming) {
            Ok(response) => expect_state(response, "state"),
            Err(error) => Err(error),
        }
    }

    /// What the process last put on the clipboard.
    pub fn clipboard(incoming: Incoming<Response>) -> (outcome: Result<Option<Vec<u8>>, Error>)
        ensures
            clipboard_outcome(outcome) == reading(
                "clipboard"@,
                incoming@,
                |r: ResponseView| clipboard_in(r),
            ),
    {
        match ask(incoming) {
            Ok(response) => expect_clipboard(response, "clipboard"),
            Err(error) => Err(error),
        }
    }
}

/// Each error reads as what it is, with what is known of it.
pub proof fn law_an_error_reads_as_what_it_is(error: ErrorView)
    ensures
        match error {
            ErrorView::Unreachable(cause) => error_text(error) == "cannot reach agent-master: "@
                + cause,
            ErrorView::HungUp => error_text(error) == "agent-master hung up"@,
            ErrorView::Unreadable(complaint) => error_text(error)
                == "agent-master said something unreadable: "@ + complaint,
            ErrorView::Refused(refusal) => error_text(error) == "agent-master refused: "@
                + protocol::refusal_text(refusal),
            ErrorView::Mismatched { asked, answer } => error_text(error) == "agent-master answered "@
                + answer + " to "@ + asked,
        },
{
}

} // verus!
